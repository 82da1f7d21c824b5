//! The failures that waiting on, limiting or terminating a process can report.

use vstd::prelude::*;

verus! {

/// Why an operation on a process or on one of its pipes failed.
///
/// A timeout is not among these: a wait that runs out of time succeeds with
/// no status.
#[derive(Clone, Copy, Debug, PartialEq, Eq, Structural)]
pub enum Error {
    /// A system call failed; the operating system's error number is kept.
    Os(i32),
    /// The process, or the handle that referred to it, no longer exists.
    NotFound,
    /// A background wait found that its caller had already given up.
    TimedOut,
    /// A read found nothing in a pipe that does not block.
    WouldBlock,
    /// A poll was interrupted before any pipe was ready.
    Interrupted,
    /// A failure without an error number, such as one that a pipe filter
    /// reports for its own reasons.
    Other,
}

impl Error {
    /// The operating system's error number, if this failure carries one.
    pub open spec fn spec_raw_os_error(self) -> Option<i32> {
        match self {
            Error::Os(code) => Some(code),
            _ => None,
        }
    }

    /// The operating system's error number, if this failure carries one.
    #[verifier::when_used_as_spec(spec_raw_os_error)]
    pub fn raw_os_error(self) -> (code: Option<i32>)
        ensures
            code == self.spec_raw_os_error(),
    {
        match self {
            Error::Os(code) => Some(code),
            _ => None,
        }
    }
}

/// Reads the calling thread's last system error through
/// `std::io::Error::last_os_error` and keeps its error number, whatever
/// kind of failure the number stands for.
///
/// Nothing is claimed of the value: it depends on what the thread did last.
#[verifier::external_body]
pub(crate) fn last_os_error() -> Error {
    match std::io::Error::last_os_error().raw_os_error() {
        Some(code) => Error::Os(code),
        None => Error::Other,
    }
}

} // verus!
