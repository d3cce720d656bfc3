//! Drives a web translation page: language selection, text submission and
//! output extraction as verified plans of page actions, plus the ordering of
//! hotkey events served by a single coordinator.

mod coordinator;
mod error;
mod google;
mod language;
mod text;
mod translator;
mod wait;

pub use coordinator::{Command, Coordinator, Delivery, Event};
pub use error::TranslatorError;
pub use google::{
    clear_plan, finish_translation, language_plan, translate_plan, Elem, Operation, Step, GOOGLE_TRANSLATOR_URL,
    SELECTOR_BUTTONS_LANG, SELECTOR_OVERLAY,
};
pub use language::{resolve_option_selector, selector_from_format, Side};
pub use text::{reconstruct_output, split_lines, Fragment};
pub use wait::{check_language_buttons, overlay_outcome, poll_focus, PollDecision};
pub use translator::{GoogleTranslator, Translator};
