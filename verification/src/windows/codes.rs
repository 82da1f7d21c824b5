//! The numbers by which the operating system names wait results and errors,
//! taken from the `windows-sys` crate, which gives the same values on
//! every target.

use vstd::prelude::*;

verus! {

/// `windows_sys::Win32::Foundation::TRUE`, the return value of a call that
/// succeeded: 1.
#[verifier::external_body]
pub(crate) fn true_value() -> (code: i32)
    ensures
        code == 1,
{
    windows_sys::Win32::Foundation::TRUE
}

/// `windows_sys::Win32::Foundation::WAIT_OBJECT_0`, the result of a wait that
/// found the first object signaled: 0.
#[verifier::external_body]
pub(crate) fn wait_object_0() -> (code: u32)
    ensures
        code == 0,
{
    windows_sys::Win32::Foundation::WAIT_OBJECT_0
}

/// `windows_sys::Win32::Foundation::WAIT_TIMEOUT`, the result of a wait whose
/// time ran out: 258.
#[verifier::external_body]
pub(crate) fn wait_timeout() -> (code: u32)
    ensures
        code == 258,
{
    windows_sys::Win32::Foundation::WAIT_TIMEOUT
}

/// `windows_sys::Win32::System::Threading::INFINITE`, the time limit that
/// stands for no limit: the largest 32-bit number.
#[verifier::external_body]
pub(crate) fn infinite() -> (code: u32)
    ensures
        code == 0xffff_ffff,
{
    windows_sys::Win32::System::Threading::INFINITE
}

/// `windows_sys::Win32::Foundation::ERROR_INVALID_PARAMETER`: 87.
#[verifier::external_body]
pub(crate) fn error_invalid_parameter() -> (code: u32)
    ensures
        code == 87,
{
    windows_sys::Win32::Foundation::ERROR_INVALID_PARAMETER
}

/// `windows_sys::Win32::Foundation::ERROR_ACCESS_DENIED`: 5.
#[verifier::external_body]
pub(crate) fn error_access_denied() -> (code: u32)
    ensures
        code == 5,
{
    windows_sys::Win32::Foundation::ERROR_ACCESS_DENIED
}

/// `windows_sys::Win32::Foundation::ERROR_INVALID_HANDLE`: 6.
#[verifier::external_body]
pub(crate) fn error_invalid_handle() -> (code: u32)
    ensures
        code == 6,
{
    windows_sys::Win32::Foundation::ERROR_INVALID_HANDLE
}

/// `windows_sys::Win32::Foundation::STILL_ACTIVE`, the exit code that is
/// reported for a process that has not ended: 259.
#[verifier::external_body]
pub(crate) fn still_active() -> (code: i32)
    ensures
        code == 259,
{
    windows_sys::Win32::Foundation::STILL_ACTIVE
}

/// `windows_sys::Win32::Foundation::ERROR_BROKEN_PIPE`, the error of a read
/// from a pipe whose writing end is closed: 109.
#[verifier::external_body]
pub(crate) fn error_broken_pipe() -> (code: u32)
    ensures
        code == 109,
{
    windows_sys::Win32::Foundation::ERROR_BROKEN_PIPE
}

/// `windows_sys::Win32::Foundation::ERROR_HANDLE_EOF`, the error of a read at
/// the end of a file: 38.
#[verifier::external_body]
pub(crate) fn error_handle_eof() -> (code: u32)
    ensures
        code == 38,
{
    windows_sys::Win32::Foundation::ERROR_HANDLE_EOF
}

/// `windows_sys::Win32::Foundation::ERROR_IO_PENDING`, the error of an
/// overlapped read that has not completed yet: 997.
#[verifier::external_body]
pub(crate) fn error_io_pending() -> (code: u32)
    ensures
        code == 997,
{
    windows_sys::Win32::Foundation::ERROR_IO_PENDING
}

} // verus!
