//! The error kinds the engine distinguishes.

use vstd::prelude::*;

verus! {

/// Why a run stopped. `Validation` is a rejected input path, `Io` any
/// filesystem failure, `Cancelled` the operator declining a
/// confirmation gate — a clean abort, kept apart from real failures.
#[derive(Clone, Copy, Debug, PartialEq, Eq, Structural)]
pub enum EngineError {
    Validation,
    Io,
    Cancelled,
}

impl EngineError {
    /// The message shown to the operator for this error kind.
    pub fn message(self) -> (r: String)
        ensures
            r@ == self.spec_message(),
    {
        match self {
            EngineError::Validation => "Path doesn't exist".to_owned(),
            EngineError::Io => "Unable to read directory!".to_owned(),
            EngineError::Cancelled => "Canceled by user.".to_owned(),
        }
    }

    /// The message text, as a sequence of characters.
    pub open spec fn spec_message(self) -> Seq<char> {
        match self {
            EngineError::Validation => "Path doesn't exist"@,
            EngineError::Io => "Unable to read directory!"@,
            EngineError::Cancelled => "Canceled by user."@,
        }
    }
}

} // verus!
