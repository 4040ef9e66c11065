use vstd::prelude::*;

verus! {

/// Every failure that an acquisition can report. Callers branch on the
/// variant; the carried strings are human-readable detail only.
#[derive(Debug, Clone, PartialEq, Eq)]
pub enum GetTextError {
    Clipboard(String),
    Os(String),
    Uia(String),
    Input(String),
    NoSelection,
    NotInContext,
    Unimplemented,
    Other(String),
}

} // verus!
