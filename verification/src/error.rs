//! The ways in which resolving a launch can fail.

use vstd::prelude::*;

verus! {

/// What the host is told when the binary is not on the search path.
pub const BINARY_NOT_FOUND_MESSAGE: &'static str = "tui binary not found in PATH";

/// Why a launch could not be resolved.
#[derive(Debug, Clone, Copy, PartialEq, Eq, Structural)]
pub enum ErrorKind {
    /// The search path holds no executable of the wanted name.
    BinaryNotFound,
}

impl ErrorKind {
    /// The text that describes each kind of error.
    pub open spec fn message_text(self) -> Seq<char> {
        match self {
            ErrorKind::BinaryNotFound => BINARY_NOT_FOUND_MESSAGE@,
        }
    }

    /// The human-readable message that is handed to the host.
    pub fn message(&self) -> (msg: String)
        ensures
            msg@ == self.message_text(),
    {
        match self {
            ErrorKind::BinaryNotFound => BINARY_NOT_FOUND_MESSAGE.to_owned(),
        }
    }
}

} // verus!
