use vstd::prelude::*;
use crate::error::TranslatorError;
use crate::google::{self, clear_steps, language_steps, steps_view, translate_steps, Step, GOOGLE_TRANSLATOR_URL};
use crate::language::{opt_view, or_empty, pair_valid};

verus! {

/// A web translation backend: the page it runs on and the page actions for
/// each of its operations. A page driver carries the actions out.
pub trait Translator {
    /// The page to open before the backend is used.
    fn get_url() -> &'static str;

    /// The actions that select the requested languages.
    fn language_plan(&self, from: Option<&str>, to: Option<&str>) -> Result<Vec<Step>, TranslatorError>;

    /// The actions that submit `text` and read the output fragments.
    fn translate_plan(&self, text: &str) -> Vec<Step>;

    /// The actions that empty the input again.
    fn clear_plan(&self) -> Vec<Step>;
}

/// The Google Translate page.
pub struct GoogleTranslator {}

impl GoogleTranslator {
    pub fn new() -> (r: GoogleTranslator) {
        GoogleTranslator {}
    }
}

impl Translator for GoogleTranslator {
    fn get_url() -> (r: &'static str)
        ensures
            r@ == GOOGLE_TRANSLATOR_URL@,
    {
        GOOGLE_TRANSLATOR_URL
    }

    fn language_plan(&self, from: Option<&str>, to: Option<&str>) -> (r: Result<Vec<Step>, TranslatorError>)
        ensures
            !pair_valid(opt_view(from), opt_view(to)) ==> (r matches Err(e)
                && e matches TranslatorError::InvalidLanguage(s, t)
                && s@ == or_empty(opt_view(from)) && t@ == or_empty(opt_view(to))),
            pair_valid(opt_view(from), opt_view(to)) ==> (r matches Ok(v)
                && Some(steps_view(v@)) == language_steps(opt_view(from), opt_view(to))),
    {
        google::language_plan(from, to)
    }

    fn translate_plan(&self, text: &str) -> (r: Vec<Step>)
        ensures
            steps_view(r@) == translate_steps(text@),
    {
        google::translate_plan(text)
    }

    fn clear_plan(&self) -> (r: Vec<Step>)
        ensures
            steps_view(r@) == clear_steps(),
    {
        google::clear_plan()
    }
}

} // verus!
