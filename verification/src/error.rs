//! The errors a filter check can end in.

use vstd::prelude::*;

verus! {

/// The filter met something it does not handle.
#[derive(Debug, Clone, Copy, PartialEq, Eq, Structural)]
pub enum FilterError {
    /// An expression shape or an operator outside the supported set.
    Unimplemented,
}

impl FilterError {
    /// The message shown for this error.
    pub fn message(&self) -> (text: String)
        ensures
            text@ == "unimplemented"@,
    {
        "unimplemented".to_owned()
    }
}

/// A row could not give the value asked of it.
#[derive(Debug, Clone, Copy, PartialEq, Eq, Structural)]
pub enum RowError {
    /// The row holds no cell at all, so it has no first value.
    Empty,
}

impl RowError {
    /// The message shown for this error.
    pub fn message(&self) -> (text: String)
        ensures
            text@ == "row has no value"@,
    {
        "row has no value".to_owned()
    }
}

/// Everything a check can fail with: the filter's own errors, and whatever the engine
/// behind the store reported, carried unchanged.
#[derive(Debug, Clone, PartialEq)]
pub enum Error<E> {
    /// Raised by the check of a predicate.
    Filter(FilterError),
    /// Raised while taking a value out of a row.
    Row(RowError),
    /// Raised by the scalar evaluator or by the subquery executor.
    Store(E),
}

} // verus!
