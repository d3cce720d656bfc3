use vstd::prelude::*;

verus! {

/// Every failure that the translator surfaces to its caller.
#[derive(Debug, Clone, PartialEq, Eq)]
pub enum TranslatorError {
    Unknown,
    /// The requested (source, target) pair is not supported; no page action was taken.
    InvalidLanguage(String, String),
    /// A locator could not be resolved on the page: (locator, operation).
    ElementNotFound(String, String),
    /// Typing text or pressing a key failed during the named operation.
    InputFailure(String),
    /// A click, focus, removal or locator resolution failed.
    OperationFailure(String),
    /// A bounded wait ran out during the named operation.
    Timeout(String),
}

} // verus!
