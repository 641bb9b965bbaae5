//! Why no line was read.

use vstd::prelude::*;

verus! {

/// The error codes of the system that reading a line reports.
#[allow(non_camel_case_types)]
#[derive(Clone, Copy, Debug, PartialEq, Eq, Structural)]
pub enum Errno {
    /// The user gave up.
    EAGAIN,
    /// The input is not a terminal.
    ENOTTY,
}

/// Why no line was read.
#[derive(Clone, Copy, Debug, PartialEq, Eq, Structural)]
pub enum ReadlineError {
    /// An error code of the system.
    Errno(Errno),
    /// The user ended the input.
    Eof,
}

/// The error for an error code of the system.
pub fn from_errno(errno: Errno) -> (res: ReadlineError)
    ensures
        res == ReadlineError::Errno(errno),
{
    ReadlineError::Errno(errno)
}

} // verus!
