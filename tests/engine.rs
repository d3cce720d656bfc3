use web_translator::{
    check_language_buttons, clear_plan, finish_translation, language_plan, overlay_outcome, poll_focus,
    reconstruct_output, resolve_option_selector, selector_from_format, split_lines,
    translate_plan, Command, Coordinator, Delivery, Elem, Event, Fragment,
    GoogleTranslator, Operation, PollDecision, Side, Step, Translator, TranslatorError,
    GOOGLE_TRANSLATOR_URL, SELECTOR_BUTTONS_LANG,
};

const AUTO_SOURCE: &str =
    ".hRFt4b .OoYv6d .MeCBDd .vSUSRc :nth-child(1) .qSb8Pe[data-language-code=\"auto\"]";
const ZH_TARGET: &str =
    ".hRFt4b .ykTHSe .MeCBDd .vSUSRc :nth-child(2) .qSb8Pe[data-language-code=\"zh-CN\"]";
const EN_SOURCE: &str =
    ".hRFt4b .OoYv6d .MeCBDd .vSUSRc :nth-child(3) .qSb8Pe[data-language-code=\"en\"]";

fn invalid(from: &str, to: &str) -> TranslatorError {
    TranslatorError::InvalidLanguage(from.to_string(), to.to_string())
}

fn clicks(steps: &[Step]) -> Vec<(Elem, Operation)> {
    steps
        .iter()
        .filter_map(|s| match s {
            Step::Click { elem, op } => Some((*elem, *op)),
            _ => None,
        })
        .collect()
}

#[test]
fn unsupported_source_fr_is_rejected_before_any_action() {
    assert_eq!(language_plan(Some("fr"), Some("zh-CN")), Err(invalid("fr", "zh-CN")));
}

#[test]
fn unsupported_pairs_are_rejected() {
    assert_eq!(GoogleTranslator::validate_language(None, None), Err(invalid("", "")));
    assert_eq!(GoogleTranslator::validate_language(Some("de"), None), Err(invalid("de", "")));
    assert_eq!(GoogleTranslator::validate_language(None, Some("auto")), Err(invalid("", "auto")));
    assert_eq!(GoogleTranslator::validate_language(Some("en"), Some("fr")), Err(invalid("en", "fr")));
    assert_eq!(language_plan(None, Some("auto")), Err(invalid("", "auto")));
    assert_eq!(language_plan(None, None), Err(invalid("", "")));
}

#[test]
fn supported_pairs_are_accepted() {
    assert_eq!(GoogleTranslator::validate_language(Some("auto"), Some("zh-CN")), Ok(()));
    assert_eq!(GoogleTranslator::validate_language(Some("zh-CN"), Some("en")), Ok(()));
    assert_eq!(GoogleTranslator::validate_language(Some("en"), None), Ok(()));
    assert_eq!(GoogleTranslator::validate_language(None, Some("en")), Ok(()));
}

#[test]
fn option_selectors_substitute_the_code() {
    assert_eq!(resolve_option_selector(Side::Target, "zh-CN"), Ok(ZH_TARGET.to_string()));
    assert_eq!(resolve_option_selector(Side::Source, "en"), Ok(EN_SOURCE.to_string()));
    assert_eq!(resolve_option_selector(Side::Source, "auto"), Ok(AUTO_SOURCE.to_string()));
}

#[test]
fn failed_template_fails_closed() {
    let r = selector_from_format(Err(strfmt::FmtError::KeyError("x".to_string())), Side::Target);
    assert!(matches!(r, Err(TranslatorError::OperationFailure(_))));
    let ok = selector_from_format(Ok("sel".to_string()), Side::Source);
    assert_eq!(ok, Ok("sel".to_string()));
}

#[test]
fn auto_to_chinese_plan() {
    let plan = language_plan(Some("auto"), Some("zh-CN")).unwrap();
    assert_eq!(plan[0], Step::DismissOverlay);
    assert_eq!(plan[1], Step::FindLanguageButtons);
    assert_eq!(
        plan[2],
        Step::Find { selector: AUTO_SOURCE.to_string(), elem: Elem::Item, op: Operation::FindSourceOption }
    );
    assert!(plan.contains(&Step::Find {
        selector: ZH_TARGET.to_string(),
        elem: Elem::Item,
        op: Operation::FindTargetOption,
    }));
    assert_eq!(plan.len(), 2 + 7 + 1 + 8);
    assert_eq!(
        clicks(&plan),
        vec![
            (Elem::SourceButton, Operation::ExpandSource),
            (Elem::Item, Operation::SelectSource),
            (Elem::TargetButton, Operation::ExpandTarget),
            (Elem::Item, Operation::SelectTarget),
        ]
    );
}

#[test]
fn one_sided_plans_skip_the_other_side() {
    let plan = language_plan(None, Some("en")).unwrap();
    assert_eq!(plan.len(), 2 + 8);
    assert_eq!(
        clicks(&plan),
        vec![(Elem::TargetButton, Operation::ExpandTarget), (Elem::Item, Operation::SelectTarget)]
    );
    let plan = language_plan(Some("en"), None).unwrap();
    assert_eq!(plan.len(), 2 + 7);
    assert_eq!(
        clicks(&plan),
        vec![(Elem::SourceButton, Operation::ExpandSource), (Elem::Item, Operation::SelectSource)]
    );
    assert_eq!(plan.last(), Some(&Step::AwaitFocusable { elem: Elem::Item, focusable: false }));
}

#[test]
fn translate_hello_plan() {
    let plan = translate_plan("Hello");
    assert_eq!(
        plan,
        vec![
            Step::Find {
                selector: "div.QFw9Te > textarea".to_string(),
                elem: Elem::Input,
                op: Operation::FindInput
            },
            Step::AwaitFocusable { elem: Elem::Input, focusable: true },
            Step::TypeText { text: "Hello".to_string() },
            Step::PressEnter,
            Step::WaitFor {
                selector: "div.eyKpYb .J0lOec:first-child".to_string(),
                op: Operation::WaitOutput
            },
            Step::ReadOutputLines {
                selector: "div.eyKpYb .J0lOec:first-child > span > span.JLqJ4b > span".to_string()
            },
        ]
    );
    let out = reconstruct_output(&vec![Fragment::Text("你好".to_string())]);
    assert_eq!(out, "你好");
    assert!(!out.is_empty());
}

#[test]
fn blank_lines_round_trip() {
    assert_eq!(split_lines("a\n\nb"), vec!["a".to_string(), "".to_string(), "b".to_string()]);
    let plan = translate_plan("a\n\nb");
    assert_eq!(
        plan[2..6].to_vec(),
        vec![
            Step::TypeText { text: "a".to_string() },
            Step::PressEnter,
            Step::PressEnter,
            Step::TypeText { text: "b".to_string() },
        ]
    );
    assert_eq!(plan[6], Step::PressEnter);
    let frags = vec![Fragment::Text("a".to_string()), Fragment::Blank, Fragment::Text("b".to_string())];
    assert_eq!(reconstruct_output(&frags), "a\nb");
}

#[test]
fn split_lines_edges() {
    assert_eq!(split_lines(""), Vec::<String>::new());
    assert_eq!(split_lines("x\n"), vec!["x".to_string()]);
    assert_eq!(split_lines("x\r\ny"), vec!["x".to_string(), "y".to_string()]);
    assert_eq!(split_lines("\n\n"), vec!["".to_string(), "".to_string()]);
    assert_eq!(split_lines("héllo\nwörld"), vec!["héllo".to_string(), "wörld".to_string()]);
}

#[test]
fn fragments_without_text_are_line_breaks() {
    let frags = vec![Fragment::Unlisted, Fragment::Blank, Fragment::Unlisted, Fragment::Text("z".to_string())];
    assert_eq!(reconstruct_output(&frags), "\n\n\nz");
    assert_eq!(reconstruct_output(&vec![Fragment::Unlisted]), "\n");
    assert_eq!(reconstruct_output(&vec![]), "");
}

#[test]
fn translating_twice_gives_the_same_plan_and_clears() {
    let text = "Are you ok?\n\nI'm fine.";
    assert_eq!(translate_plan(text), translate_plan(text));
    let clear = clear_plan();
    assert_eq!(clear.len(), 4);
    assert_eq!(clicks(&clear), vec![(Elem::ClearButton, Operation::ClearInput)]);
    assert_eq!(clear[3], Step::AwaitFocusable { elem: Elem::ClearButton, focusable: false });
}

#[test]
fn events_are_served_in_order_until_quit() {
    let mut c = Coordinator::new();
    assert!(c.is_running());
    assert_eq!(c.handle(Event::TranslateRequested("T1".to_string())), Command::Translate("T1".to_string()));
    assert!(c.is_running());
    assert_eq!(c.handle(Event::TranslateRequested("T2".to_string())), Command::Translate("T2".to_string()));
    assert_eq!(c.handle(Event::Quit), Command::Stop);
    assert!(!c.is_running());
}

#[test]
fn delivery_of_results() {
    assert_eq!(Coordinator::deliver(Ok("x".to_string())), Delivery::SetClipboard("x".to_string()));
    let e = TranslatorError::Timeout("waiting".to_string());
    assert_eq!(Coordinator::deliver(Err(e.clone())), Delivery::Report(e));
}

#[test]
fn focus_polling_is_bounded() {
    assert_eq!(poll_focus(true, true, 0, 5), PollDecision::Done);
    assert_eq!(poll_focus(false, false, 9, 5), PollDecision::Done);
    assert_eq!(poll_focus(false, true, 4, 5), PollDecision::Retry);
    assert_eq!(poll_focus(true, false, 5, 5), PollDecision::TimedOut);
}

#[test]
fn overlay_and_buttons() {
    assert_eq!(overlay_outcome(false, false), Ok(()));
    assert_eq!(overlay_outcome(true, true), Ok(()));
    assert!(matches!(overlay_outcome(true, false), Err(TranslatorError::OperationFailure(_))));
    assert_eq!(check_language_buttons(2, SELECTOR_BUTTONS_LANG), Ok(()));
    assert!(matches!(
        check_language_buttons(1, SELECTOR_BUTTONS_LANG),
        Err(TranslatorError::ElementNotFound(l, _)) if l == SELECTOR_BUTTONS_LANG
    ));
}

#[test]
fn google_backend() {
    assert_eq!(GoogleTranslator::get_url(), GOOGLE_TRANSLATOR_URL);
    assert_eq!(GOOGLE_TRANSLATOR_URL, "https://translate.google.com");
    let g = GoogleTranslator::new();
    assert_eq!(g.language_plan(Some("fr"), None), Err(invalid("fr", "")));
    assert_eq!(g.translate_plan("Hello"), translate_plan("Hello"));
    assert_eq!(g.clear_plan(), clear_plan());
    assert_eq!(Operation::ClearInput.describe(), "clearing input text");
}

#[test]
fn failed_clear_keeps_the_translation() {
    assert_eq!(finish_translation("out".to_string(), Ok(())), ("out".to_string(), None));
    let e = TranslatorError::OperationFailure("Failed to click".to_string());
    assert_eq!(finish_translation("out".to_string(), Err(e.clone())), ("out".to_string(), Some(e)));
}
