//! Errors the layout engine reports to the host through its error handler.

use vstd::prelude::*;

verus! {

/// The kinds of error the engine reports.
#[derive(Debug, Clone, Copy, PartialEq, Eq)]
pub enum ErrorType {
    /// Text was declared but no text measurement function was provided.
    TextMeasurementFunctionNotProvided,
    /// The arena handed to the engine is too small.
    ArenaCapacityExceeded,
    /// More elements were declared than the configured maximum.
    ElementsCapacityExceeded,
    /// The text measurement cache is full.
    TextMeasurementCapacityExceeded,
    /// An id was used by more than one element.
    DuplicateId,
    /// A floating element named a parent that does not exist.
    FloatingContainerParentNotFound,
    InternalError,
}

/// One reported error: its kind and the engine's message.
#[derive(Debug, Clone, Copy, PartialEq, Eq)]
pub struct Error<'render> {
    pub type_: ErrorType,
    pub text: &'render str,
}

impl<'render> Error<'render> {
    /// Creates an error from its kind and message.
    pub fn new(type_: ErrorType, text: &'render str) -> (e: Error<'render>)
        ensures
            e.type_ == type_,
            e.text@ == text@,
    {
        Error { type_, text }
    }
}

} // verus!
