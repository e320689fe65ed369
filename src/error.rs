//! Errors of a session.

use vstd::prelude::*;

verus! {

/// Why a line could not be framed.
#[derive(Clone, Copy, Debug, PartialEq, Eq, Structural)]
pub enum LineError {
    /// The line grew past the framing layer's limit.
    MaxLineLengthExceeded,
    /// Reading from the client failed, or its bytes were not text.
    Io,
}

/// How a session can end in error.
#[derive(Clone, Copy, Debug, PartialEq, Eq, Structural)]
pub enum RWhoisError {
    /// The framing layer could not produce a line.
    CodecError(LineError),
    /// The trailing label of the query has no route.
    InvalidDomainError,
}

} // verus!
