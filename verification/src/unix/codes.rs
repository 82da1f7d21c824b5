//! The numbers by which the operating system names child dispositions and
//! errors, taken from the `libc` crate.
//!
//! Most of these numbers differ from one system to the next, so nothing is
//! claimed of them: each decision that reads one takes it as an argument
//! and is stated for every number that it may be given.

use vstd::prelude::*;

verus! {

/// `libc::CLD_EXITED`, the disposition of a child that exited.
#[verifier::external_body]
fn cld_exited() -> i32 {
    libc::CLD_EXITED
}

/// `libc::CLD_KILLED`, the disposition of a child that a signal killed.
#[verifier::external_body]
fn cld_killed() -> i32 {
    libc::CLD_KILLED
}

/// `libc::CLD_DUMPED`, the disposition of a child that a signal killed and
/// that left a core dump.
#[verifier::external_body]
fn cld_dumped() -> i32 {
    libc::CLD_DUMPED
}

/// `libc::CLD_STOPPED`, the disposition of a child that a signal stopped.
#[verifier::external_body]
fn cld_stopped() -> i32 {
    libc::CLD_STOPPED
}

/// `libc::CLD_CONTINUED`, the disposition of a stopped child that was
/// continued.
#[verifier::external_body]
fn cld_continued() -> i32 {
    libc::CLD_CONTINUED
}

/// `libc::ESRCH`, the error number for "no such process".
#[verifier::external_body]
fn esrch() -> i32 {
    libc::ESRCH
}

/// `libc::EINTR`, the error number for an interrupted system call.
#[verifier::external_body]
fn eintr() -> i32 {
    libc::EINTR
}

/// `libc::EXIT_SUCCESS`, the exit code of a process that succeeded, which
/// is 0 on every system.
#[verifier::external_body]
pub(crate) fn exit_success() -> (code: i32)
    ensures
        code == 0,
{
    libc::EXIT_SUCCESS
}

/// The numbers that a system uses for the dispositions of a child and for
/// the errors that the decisions of a wait tell apart.
#[derive(Clone, Copy, Debug, PartialEq, Eq, Structural)]
pub struct Codes {
    /// The disposition of a child that exited.
    pub exited: i32,
    /// The disposition of a child that a signal killed.
    pub killed: i32,
    /// The disposition of a child that a signal killed and that left a
    /// core dump.
    pub dumped: i32,
    /// The disposition of a child that a signal stopped.
    pub stopped: i32,
    /// The disposition of a stopped child that was continued.
    pub continued: i32,
    /// The error number for "no such process".
    pub no_such_process: i32,
    /// The error number for an interrupted system call.
    pub interrupted: i32,
}

impl Codes {
    /// The numbers of the system that the library was built for, as the
    /// `libc` crate gives them. They are whatever that system uses.
    pub fn system() -> Codes {
        Codes {
            exited: cld_exited(),
            killed: cld_killed(),
            dumped: cld_dumped(),
            stopped: cld_stopped(),
            continued: cld_continued(),
            no_such_process: esrch(),
            interrupted: eintr(),
        }
    }
}

} // verus!
