use vstd::prelude::*;
use vstd::string::*;
use crate::error::TranslatorError;
use crate::language::{
    option_selector, opt_view, or_empty, pair_valid, resolve_option_selector,
    Side,
};
use crate::translator::GoogleTranslator;
use crate::text::{fragment_text, lines_of, split_lines, strings_view, FragmentV};

verus! {

pub const GOOGLE_TRANSLATOR_URL: &'static str = "https://translate.google.com";
pub const SELECTOR_BUTTONS_LANG: &'static str = "button.szLmtb";
pub const SELECTOR_BUTTON_CLEAR_INPUT: &'static str = "button.GA2I6e";
pub const SELECTOR_INPUT: &'static str = "div.QFw9Te > textarea";
pub const SELECTOR_OUTPUT: &'static str = "div.eyKpYb .J0lOec:first-child";
pub const SELECTOR_OUTPUT_LINES: &'static str =
    "div.eyKpYb .J0lOec:first-child > span > span.JLqJ4b > span";
pub const SELECTOR_OVERLAY: &'static str = "iframe";

/// The page elements that a plan refers to once they have been found.
#[derive(Debug, Clone, Copy, PartialEq, Eq, Structural)]
pub enum Elem {
    /// The first language card button.
    SourceButton,
    /// The second language card button.
    TargetButton,
    /// The language option most recently found.
    Item,
    Input,
    ClearButton,
}

/// What a page action is done for; it names the action in failures.
#[derive(Debug, Clone, Copy, PartialEq, Eq, Structural)]
pub enum Operation {
    FindSourceOption,
    FindTargetOption,
    ExpandSource,
    SelectSource,
    ExpandTarget,
    SelectTarget,
    FindInput,
    WaitOutput,
    FindClear,
    ClearInput,
}

/// The words that name an operation in failures.
pub open spec fn operation_text(op: Operation) -> Seq<char> {
    match op {
        Operation::FindSourceOption => "finding source language selection"@,
        Operation::FindTargetOption => "finding target language selection"@,
        Operation::ExpandSource => "expanding source language card"@,
        Operation::SelectSource => "selecting source language"@,
        Operation::ExpandTarget => "expanding target language card"@,
        Operation::SelectTarget => "selecting target language"@,
        Operation::FindInput => "finding source input"@,
        Operation::WaitOutput => "getting output span"@,
        Operation::FindClear => "finding clear button"@,
        Operation::ClearInput => "clearing input text"@,
    }
}

impl Operation {
    pub fn describe(&self) -> (r: String)
        ensures
            r@ == operation_text(*self),
    {
        let s = match self {
            Operation::FindSourceOption => "finding source language selection",
            Operation::FindTargetOption => "finding target language selection",
            Operation::ExpandSource => "expanding source language card",
            Operation::SelectSource => "selecting source language",
            Operation::ExpandTarget => "expanding target language card",
            Operation::SelectTarget => "selecting target language",
            Operation::FindInput => "finding source input",
            Operation::WaitOutput => "getting output span",
            Operation::FindClear => "finding clear button",
            Operation::ClearInput => "clearing input text",
        };
        String::from_str(s)
    }
}

/// One action on the page, carried out by the page driver.
#[derive(Debug, Clone, PartialEq, Eq)]
pub enum Step {
    /// Remove the overlay if one is present; one that cannot be removed is fatal.
    DismissOverlay,
    /// Find the two language card buttons, source first.
    FindLanguageButtons,
    /// Find one element and remember it as `elem`.
    Find { selector: String, elem: Elem, op: Operation },
    /// Poll `elem` until its focusability equals `focusable`.
    AwaitFocusable { elem: Elem, focusable: bool },
    Click { elem: Elem, op: Operation },
    /// Wait one polling interval.
    Settle,
    TypeText { text: String },
    PressEnter,
    /// Wait until an element matching `selector` is present.
    WaitFor { selector: String, op: Operation },
    /// Read every output fragment matching `selector`, in document order.
    ReadOutputLines { selector: String },
}

/// The model of a step, with its strings as characters.
pub enum StepV {
    DismissOverlay,
    FindLanguageButtons,
    Find { selector: Seq<char>, elem: Elem, op: Operation },
    AwaitFocusable { elem: Elem, focusable: bool },
    Click { elem: Elem, op: Operation },
    Settle,
    TypeText { text: Seq<char> },
    PressEnter,
    WaitFor { selector: Seq<char>, op: Operation },
    ReadOutputLines { selector: Seq<char> },
}

impl View for Step {
    type V = StepV;

    open spec fn view(&self) -> StepV {
        match self {
            Step::DismissOverlay => StepV::DismissOverlay,
            Step::FindLanguageButtons => StepV::FindLanguageButtons,
            Step::Find { selector, elem, op } => StepV::Find { selector: selector@, elem: *elem, op: *op },
            Step::AwaitFocusable { elem, focusable } => StepV::AwaitFocusable { elem: *elem, focusable: *focusable },
            Step::Click { elem, op } => StepV::Click { elem: *elem, op: *op },
            Step::Settle => StepV::Settle,
            Step::TypeText { text } => StepV::TypeText { text: text@ },
            Step::PressEnter => StepV::PressEnter,
            Step::WaitFor { selector, op } => StepV::WaitFor { selector: selector@, op: *op },
            Step::ReadOutputLines { selector } => StepV::ReadOutputLines { selector: selector@ },
        }
    }
}

pub open spec fn steps_view(v: Seq<Step>) -> Seq<StepV> {
    v.map_values(|x: Step| x@)
}

/// Expand the source card, pick the option, and wait for the card to close.
pub open spec fn source_steps(sel: Seq<char>) -> Seq<StepV> {
    seq![
        StepV::Find { selector: sel, elem: Elem::Item, op: Operation::FindSourceOption },
        StepV::AwaitFocusable { elem: Elem::SourceButton, focusable: true },
        StepV::Click { elem: Elem::SourceButton, op: Operation::ExpandSource },
        StepV::AwaitFocusable { elem: Elem::Item, focusable: true },
        StepV::Settle,
        StepV::Click { elem: Elem::Item, op: Operation::SelectSource },
        StepV::AwaitFocusable { elem: Elem::Item, focusable: false },
    ]
}

/// Expand the target card, pick the option, and wait for the card to close.
pub open spec fn target_steps(sel: Seq<char>) -> Seq<StepV> {
    seq![
        StepV::Find { selector: sel, elem: Elem::Item, op: Operation::FindTargetOption },
        StepV::Settle,
        StepV::AwaitFocusable { elem: Elem::TargetButton, focusable: true },
        StepV::Click { elem: Elem::TargetButton, op: Operation::ExpandTarget },
        StepV::AwaitFocusable { elem: Elem::Item, focusable: true },
        StepV::Settle,
        StepV::Click { elem: Elem::Item, op: Operation::SelectTarget },
        StepV::AwaitFocusable { elem: Elem::Item, focusable: false },
    ]
}

/// The plan for the source side: empty when no source is requested, with a
/// settle delay after it when a target follows; None only where no locator could be formed.
pub open spec fn source_part(from: Option<Seq<char>>, to: Option<Seq<char>>) -> Option<Seq<StepV>> {
    match from {
        None => Some(Seq::empty()),
        Some(c) => match option_selector(Side::Source, c) {
            Some(sel) => Some(if to is Some { source_steps(sel).push(StepV::Settle) } else { source_steps(sel) }),
            None => None,
        },
    }
}

pub open spec fn target_part(to: Option<Seq<char>>) -> Option<Seq<StepV>> {
    match to {
        None => Some(Seq::empty()),
        Some(c) => match option_selector(Side::Target, c) {
            Some(sel) => Some(target_steps(sel)),
            None => None,
        },
    }
}

/// The full language selection plan: clear any overlay, find the card
/// buttons, then the source side and the target side in that order.
pub open spec fn language_steps(from: Option<Seq<char>>, to: Option<Seq<char>>) -> Option<Seq<StepV>> {
    if source_part(from, to) is Some && target_part(to) is Some {
        Some(seq![StepV::DismissOverlay, StepV::FindLanguageButtons] + source_part(from, to)->0
            + target_part(to)->0)
    } else {
        None
    }
}

fn push_source_steps(out: &mut Vec<Step>, sel: String)
    ensures
        steps_view(final(out)@) == steps_view(old(out)@) + source_steps(sel@),
{
    let ghost start = steps_view(out@);
    out.push(Step::Find { selector: sel, elem: Elem::Item, op: Operation::FindSourceOption });
    out.push(Step::AwaitFocusable { elem: Elem::SourceButton, focusable: true });
    out.push(Step::Click { elem: Elem::SourceButton, op: Operation::ExpandSource });
    out.push(Step::AwaitFocusable { elem: Elem::Item, focusable: true });
    out.push(Step::Settle);
    out.push(Step::Click { elem: Elem::Item, op: Operation::SelectSource });
    out.push(Step::AwaitFocusable { elem: Elem::Item, focusable: false });
    assert(steps_view(out@) =~= start + source_steps(sel@));
}

fn push_target_steps(out: &mut Vec<Step>, sel: String)
    ensures
        steps_view(final(out)@) == steps_view(old(out)@) + target_steps(sel@),
{
    let ghost start = steps_view(out@);
    out.push(Step::Find { selector: sel, elem: Elem::Item, op: Operation::FindTargetOption });
    out.push(Step::Settle);
    out.push(Step::AwaitFocusable { elem: Elem::TargetButton, focusable: true });
    out.push(Step::Click { elem: Elem::TargetButton, op: Operation::ExpandTarget });
    out.push(Step::AwaitFocusable { elem: Elem::Item, focusable: true });
    out.push(Step::Settle);
    out.push(Step::Click { elem: Elem::Item, op: Operation::SelectTarget });
    out.push(Step::AwaitFocusable { elem: Elem::Item, focusable: false });
    assert(steps_view(out@) =~= start + target_steps(sel@));
}

/// The page actions that select the requested languages. An invalid pair
/// fails before any action is planned; every supported pair gets its plan.
pub fn language_plan(from: Option<&str>, to: Option<&str>) -> (r: Result<Vec<Step>, TranslatorError>)
    ensures
        !pair_valid(opt_view(from), opt_view(to)) ==> (r matches Err(e)
            && e matches TranslatorError::InvalidLanguage(s, t)
            && s@ == or_empty(opt_view(from)) && t@ == or_empty(opt_view(to))),
        pair_valid(opt_view(from), opt_view(to)) ==> (r matches Ok(v)
            && Some(steps_view(v@)) == language_steps(opt_view(from), opt_view(to))),
{
    match GoogleTranslator::validate_language(from, to) {
        Err(e) => return Err(e),
        Ok(()) => {},
    }
    let source_sel = match from {
        Some(code) => match resolve_option_selector(Side::Source, code) {
            Ok(s) => Some(s),
            Err(e) => return Err(e),
        },
        None => None,
    };
    let target_sel = match to {
        Some(code) => match resolve_option_selector(Side::Target, code) {
            Ok(s) => Some(s),
            Err(e) => return Err(e),
        },
        None => None,
    };
    let mut out: Vec<Step> = Vec::new();
    out.push(Step::DismissOverlay);
    out.push(Step::FindLanguageButtons);
    let ghost head = steps_view(out@);
    assert(head =~= seq![StepV::DismissOverlay, StepV::FindLanguageButtons]);
    match source_sel {
        Some(sel) => {
            push_source_steps(&mut out, sel);
            if to.is_some() {
                let ghost prev = steps_view(out@);
                out.push(Step::Settle);
                assert(steps_view(out@) =~= prev.push(StepV::Settle));
            }
        },
        None => {},
    }
    let ghost mid = steps_view(out@);
    assert(mid =~= head + source_part(opt_view(from), opt_view(to))->0);
    match target_sel {
        Some(sel) => push_target_steps(&mut out, sel),
        None => {},
    }
    assert(steps_view(out@) =~= mid + target_part(opt_view(to))->0);
    Ok(out)
}

/// The keystrokes for one input line: a blank line is a bare Enter, any
/// other line is typed and then ended with Enter.
pub open spec fn line_keys(line: Seq<char>) -> Seq<StepV> {
    if line.len() == 0 {
        seq![StepV::PressEnter]
    } else {
        seq![StepV::TypeText { text: line }, StepV::PressEnter]
    }
}

pub open spec fn keys_of(lines: Seq<Seq<char>>) -> Seq<StepV>
    decreases lines.len(),
{
    if lines.len() == 0 {
        Seq::empty()
    } else {
        keys_of(lines.drop_last()) + line_keys(lines.last())
    }
}

/// Focus the input, type the text line by line, then wait for the output
/// and read its fragments.
pub open spec fn translate_steps(text: Seq<char>) -> Seq<StepV> {
    seq![
        StepV::Find { selector: SELECTOR_INPUT@, elem: Elem::Input, op: Operation::FindInput },
        StepV::AwaitFocusable { elem: Elem::Input, focusable: true },
    ] + keys_of(lines_of(text)) + seq![
        StepV::WaitFor { selector: SELECTOR_OUTPUT@, op: Operation::WaitOutput },
        StepV::ReadOutputLines { selector: SELECTOR_OUTPUT_LINES@ },
    ]
}

/// Press the clear button and wait until it is gone.
pub open spec fn clear_steps() -> Seq<StepV> {
    seq![
        StepV::Find { selector: SELECTOR_BUTTON_CLEAR_INPUT@, elem: Elem::ClearButton, op: Operation::FindClear },
        StepV::AwaitFocusable { elem: Elem::ClearButton, focusable: true },
        StepV::Click { elem: Elem::ClearButton, op: Operation::ClearInput },
        StepV::AwaitFocusable { elem: Elem::ClearButton, focusable: false },
    ]
}

/// The page actions that submit `text` and read the output.
pub fn translate_plan(text: &str) -> (r: Vec<Step>)
    ensures
        steps_view(r@) == translate_steps(text@),
{
    let lines = split_lines(text);
    let mut out: Vec<Step> = Vec::new();
    out.push(Step::Find { selector: String::from_str(SELECTOR_INPUT), elem: Elem::Input, op: Operation::FindInput });
    out.push(Step::AwaitFocusable { elem: Elem::Input, focusable: true });
    let ghost head = steps_view(out@);
    let ghost ls = strings_view(lines@);
    assert(ls.subrange(0, 0) =~= Seq::<Seq<char>>::empty());
    assert(head + keys_of(ls.subrange(0, 0)) =~= head);
    let mut i: usize = 0;
    while i < lines.len()
        invariant
            ls == strings_view(lines@),
            i <= lines@.len(),
            steps_view(out@) == head + keys_of(ls.subrange(0, i as int)),
        decreases lines@.len() - i,
    {
        let ghost prev = steps_view(out@);
        assert(ls.subrange(0, i + 1).drop_last() =~= ls.subrange(0, i as int));
        assert(ls.subrange(0, i + 1).last() == lines@[i as int]@);
        let line = &lines[i];
        if line.unicode_len() > 0 {
            out.push(Step::TypeText { text: line.clone() });
        }
        out.push(Step::PressEnter);
        assert(steps_view(out@) =~= prev + line_keys(lines@[i as int]@));
        i = i + 1;
    }
    assert(ls.subrange(0, lines@.len() as int) =~= ls);
    let ghost typed = steps_view(out@);
    assert(head =~= seq![
        StepV::Find { selector: SELECTOR_INPUT@, elem: Elem::Input, op: Operation::FindInput },
        StepV::AwaitFocusable { elem: Elem::Input, focusable: true },
    ]);
    assert(typed == head + keys_of(lines_of(text@)));
    out.push(Step::WaitFor { selector: String::from_str(SELECTOR_OUTPUT), op: Operation::WaitOutput });
    out.push(Step::ReadOutputLines { selector: String::from_str(SELECTOR_OUTPUT_LINES) });
    assert(steps_view(out@) =~= translate_steps(text@));
    out
}

/// Ends a translation once clearing the input has been tried: the extracted
/// text is kept whatever clearing did, and a failed clear is handed back
/// beside it.
pub fn finish_translation(output: String, cleared: Result<(), TranslatorError>) -> (r: (String, Option<TranslatorError>))
    ensures
        r.0 == output,
        cleared is Ok ==> r.1 is None,
        cleared matches Err(e) ==> r.1 == Some(e),
{
    match cleared {
        Ok(()) => (output, None),
        Err(e) => (output, Some(e)),
    }
}

/// The page actions that empty the input surface again.
pub fn clear_plan() -> (r: Vec<Step>)
    ensures
        steps_view(r@) == clear_steps(),
{
    let mut out: Vec<Step> = Vec::new();
    out.push(Step::Find {
        selector: String::from_str(SELECTOR_BUTTON_CLEAR_INPUT),
        elem: Elem::ClearButton,
        op: Operation::FindClear,
    });
    out.push(Step::AwaitFocusable { elem: Elem::ClearButton, focusable: true });
    out.push(Step::Click { elem: Elem::ClearButton, op: Operation::ClearInput });
    out.push(Step::AwaitFocusable { elem: Elem::ClearButton, focusable: false });
    assert(steps_view(out@) =~= clear_steps());
    out
}

/// A step that a language card's protocol is observed by: a click, or a
/// wait for an element to stop being focusable (a card that closed).
pub open spec fn is_selection_event(s: StepV) -> bool {
    s is Click || (s matches StepV::AwaitFocusable { focusable, .. } && !focusable)
}

pub open spec fn selection_events(s: Seq<StepV>) -> Seq<StepV>
    decreases s.len(),
{
    if s.len() == 0 {
        Seq::empty()
    } else if is_selection_event(s.last()) {
        selection_events(s.drop_last()).push(s.last())
    } else {
        selection_events(s.drop_last())
    }
}

/// Expand, select, collapse on one side's card.
pub open spec fn side_events(side: Side) -> Seq<StepV> {
    match side {
        Side::Source => seq![
            StepV::Click { elem: Elem::SourceButton, op: Operation::ExpandSource },
            StepV::Click { elem: Elem::Item, op: Operation::SelectSource },
            StepV::AwaitFocusable { elem: Elem::Item, focusable: false },
        ],
        Side::Target => seq![
            StepV::Click { elem: Elem::TargetButton, op: Operation::ExpandTarget },
            StepV::Click { elem: Elem::Item, op: Operation::SelectTarget },
            StepV::AwaitFocusable { elem: Elem::Item, focusable: false },
        ],
    }
}

proof fn lemma_selection_events_add(a: Seq<StepV>, b: Seq<StepV>)
    ensures
        selection_events(a + b) == selection_events(a) + selection_events(b),
    decreases b.len(),
{
    if b.len() == 0 {
        assert(a + b =~= a);
        assert(selection_events(a) + selection_events(b) =~= selection_events(a));
    } else {
        lemma_selection_events_add(a, b.drop_last());
        assert((a + b).drop_last() =~= a + b.drop_last());
        assert((a + b).last() == b.last());
        if is_selection_event(b.last()) {
            assert(selection_events(a + b) =~= selection_events(a) + selection_events(b));
        }
    }
}

proof fn lemma_source_events(sel: Seq<char>)
    ensures
        selection_events(source_steps(sel)) == side_events(Side::Source),
        selection_events(source_steps(sel).push(StepV::Settle)) == side_events(Side::Source),
{
    reveal_with_fuel(selection_events, 9);
    assert(selection_events(source_steps(sel)) =~= side_events(Side::Source));
    assert(source_steps(sel).push(StepV::Settle).drop_last() =~= source_steps(sel));
}

proof fn lemma_target_events(sel: Seq<char>)
    ensures
        selection_events(target_steps(sel)) == side_events(Side::Target),
{
    reveal_with_fuel(selection_events, 9);
    assert(selection_events(target_steps(sel)) =~= side_events(Side::Target));
}

proof fn lemma_head_events()
    ensures
        selection_events(seq![StepV::DismissOverlay, StepV::FindLanguageButtons]) == Seq::<StepV>::empty(),
{
    reveal_with_fuel(selection_events, 3);
    assert(seq![StepV::DismissOverlay, StepV::FindLanguageButtons].drop_last() =~= seq![StepV::DismissOverlay]);
    assert(seq![StepV::DismissOverlay].drop_last() =~= Seq::<StepV>::empty());
}

/// Language selection on a supported pair runs the expand, select, collapse
/// sequence exactly once for each requested side, the source side first.
pub proof fn lemma_selection_order(from: Option<Seq<char>>, to: Option<Seq<char>>)
    requires
        pair_valid(from, to),
    ensures
        language_steps(from, to) is Some,
        selection_events(language_steps(from, to)->0)
            == (if from is Some { side_events(Side::Source) } else { Seq::empty() })
            + (if to is Some { side_events(Side::Target) } else { Seq::empty() }),
{
    let head = seq![StepV::DismissOverlay, StepV::FindLanguageButtons];
    let sp = source_part(from, to)->0;
    let tp = target_part(to)->0;
    lemma_selection_events_add(head + sp, tp);
    lemma_selection_events_add(head, sp);
    lemma_head_events();
    if from is Some {
        lemma_source_events(option_selector(Side::Source, from->0)->0);
    } else {
        assert(selection_events(sp) =~= Seq::<StepV>::empty());
    }
    if to is Some {
        lemma_target_events(option_selector(Side::Target, to->0)->0);
    } else {
        assert(selection_events(tp) =~= Seq::<StepV>::empty());
    }
    assert(selection_events(head) + selection_events(sp) =~= selection_events(sp));
}

/// What the input surface holds after `steps`, starting from `content`:
/// typing appends, Enter appends a line break, the clear button empties it.
pub open spec fn surface_after(content: Seq<char>, steps: Seq<StepV>) -> Seq<char>
    decreases steps.len(),
{
    if steps.len() == 0 {
        content
    } else {
        let c = surface_after(content, steps.drop_last());
        match steps.last() {
            StepV::TypeText { text } => c + text,
            StepV::PressEnter => c + "\n"@,
            StepV::Click { elem: Elem::ClearButton, .. } => Seq::empty(),
            _ => c,
        }
    }
}

proof fn lemma_surface_after_add(content: Seq<char>, a: Seq<StepV>, b: Seq<StepV>)
    ensures
        surface_after(content, a + b) == surface_after(surface_after(content, a), b),
    decreases b.len(),
{
    if b.len() == 0 {
        assert(a + b =~= a);
    } else {
        lemma_surface_after_add(content, a, b.drop_last());
        assert((a + b).drop_last() =~= a + b.drop_last());
        assert((a + b).last() == b.last());
    }
}

/// A translation followed by clearing leaves the input surface empty,
/// whatever it held before; so a second translation of the same text types
/// onto an empty surface exactly what the first one would have typed there.
pub proof fn lemma_translate_repeatable(text: Seq<char>, before: Seq<char>)
    ensures
        surface_after(before, translate_steps(text) + clear_steps()) == Seq::<char>::empty(),
        surface_after(before, translate_steps(text) + clear_steps() + translate_steps(text))
            == surface_after(Seq::empty(), translate_steps(text)),
{
    reveal_with_fuel(surface_after, 5);
    lemma_surface_after_add(before, translate_steps(text), clear_steps());
    let mid = surface_after(before, translate_steps(text));
    assert(clear_steps().drop_last().drop_last() =~= seq![
        StepV::Find { selector: SELECTOR_BUTTON_CLEAR_INPUT@, elem: Elem::ClearButton, op: Operation::FindClear },
        StepV::AwaitFocusable { elem: Elem::ClearButton, focusable: true },
    ]);
    assert(surface_after(mid, clear_steps()) == Seq::<char>::empty());
    lemma_surface_after_add(before, translate_steps(text) + clear_steps(), translate_steps(text));
}

/// The output fragment that the page shows for one submitted line: a blank
/// line becomes a fragment without text.
pub open spec fn rendered(line: Seq<char>) -> FragmentV {
    if line.len() == 0 {
        FragmentV::Blank
    } else {
        FragmentV::Text(line)
    }
}

/// A blank input line is submitted as a single line break, and its blank
/// output fragment is read back as a single line break; any other line is
/// typed and ended with a line break, and its fragment is read back as the
/// line itself.
pub proof fn lemma_blank_line_round_trip(line: Seq<char>)
    ensures
        line.len() == 0 ==> surface_after(Seq::empty(), line_keys(line)) == "\n"@,
        line.len() == 0 ==> fragment_text(rendered(line)) == "\n"@,
        line.len() > 0 ==> surface_after(Seq::empty(), line_keys(line)) == line + "\n"@,
        line.len() > 0 ==> fragment_text(rendered(line)) == line,
{
    reveal_with_fuel(surface_after, 3);
    assert(Seq::<char>::empty() + "\n"@ =~= "\n"@);
    assert(Seq::<char>::empty() + line =~= line);
    if line.len() > 0 {
        assert(line_keys(line).drop_last() =~= seq![StepV::TypeText { text: line }]);
    } else {
        assert(line_keys(line).drop_last() =~= Seq::<StepV>::empty());
    }
}

} // verus!
