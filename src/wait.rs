use vstd::prelude::*;
use vstd::string::*;
use crate::error::TranslatorError;

verus! {

/// What to do after one look at an element's focusability.
#[derive(Debug, Clone, Copy, PartialEq, Eq, Structural)]
pub enum PollDecision {
    /// The element has reached the wanted state.
    Done,
    /// Wait one interval and look again.
    Retry,
    /// The wait budget is spent.
    TimedOut,
}

/// One round of a bounded wait for an element to become focusable (or to
/// stop being so): `attempts` looks have been made so far, out of `limit`.
pub fn poll_focus(focused: bool, want: bool, attempts: u64, limit: u64) -> (r: PollDecision)
    ensures
        focused == want ==> r == PollDecision::Done,
        focused != want && attempts < limit ==> r == PollDecision::Retry,
        focused != want && attempts >= limit ==> r == PollDecision::TimedOut,
{
    if focused == want {
        PollDecision::Done
    } else if attempts < limit {
        PollDecision::Retry
    } else {
        PollDecision::TimedOut
    }
}

/// The outcome of clearing a blocking overlay: an absent overlay is no
/// failure, one that was found and could not be removed is.
pub fn overlay_outcome(found: bool, removed: bool) -> (r: Result<(), TranslatorError>)
    ensures
        r is Ok <==> (!found || removed),
        r is Err ==> (r matches Err(e) && e matches TranslatorError::OperationFailure(_)),
{
    if found && !removed {
        Err(TranslatorError::OperationFailure(String::from_str("Cannot remove iframe element")))
    } else {
        Ok(())
    }
}

/// The language card buttons are usable only when both were found.
pub fn check_language_buttons(count: usize, selector: &str) -> (r: Result<(), TranslatorError>)
    ensures
        r is Ok <==> count >= 2,
        r matches Err(e) ==> (e matches TranslatorError::ElementNotFound(l, _) && l@ == selector@),
{
    if count >= 2 {
        Ok(())
    } else {
        Err(TranslatorError::ElementNotFound(
            String::from_str(selector),
            String::from_str("finding expand language buttons"),
        ))
    }
}

} // verus!
