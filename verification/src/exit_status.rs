//! The status and the captured output that a wait hands out.

use vstd::prelude::*;
use crate::unix::exit_status::ExitStatus as UnixStatus;
use crate::windows::exit_status::ExitStatus as WindowsStatus;

verus! {

/// The status of a process in the form of the platform that reported it.
#[derive(Clone, Copy, Debug, PartialEq, Eq, Structural)]
pub enum PlatformStatus {
    /// A classified POSIX wait result.
    Unix(UnixStatus),
    /// An exit code of the handle-based platform.
    Windows(WindowsStatus),
}

/// The status of a process that has finished, or has otherwise changed its
/// state, with more detail than the standard library's status gives.
#[derive(Clone, Copy, Debug, PartialEq, Eq, Structural)]
pub struct ExitStatus {
    /// The status as the platform reported it.
    pub inner: PlatformStatus,
}

impl ExitStatus {
    /// Whether the process ended by itself with the code for success.
    pub open spec fn spec_success(self) -> bool {
        match self.inner {
            PlatformStatus::Unix(status) => status.spec_success(),
            PlatformStatus::Windows(status) => status.code == 0,
        }
    }

    /// The exit code, if the process ended by itself, wide enough for every
    /// platform's codes.
    pub open spec fn spec_code(self) -> Option<i64> {
        match self.inner {
            PlatformStatus::Unix(status) => match status.spec_code() {
                Some(code) => Some(code as i64),
                None => None,
            },
            PlatformStatus::Windows(status) => Some(status.code as i64),
        }
    }

    /// The signal that ended the process, if one did.
    pub open spec fn spec_signal(self) -> Option<i32> {
        match self.inner {
            PlatformStatus::Unix(status) => status.spec_signal(),
            PlatformStatus::Windows(_) => None,
        }
    }

    /// The signal that stopped the process, if one did.
    pub open spec fn spec_stopped_signal(self) -> Option<i32> {
        match self.inner {
            PlatformStatus::Unix(status) => status.spec_stopped_signal(),
            PlatformStatus::Windows(_) => None,
        }
    }

    /// Wraps a classified POSIX wait result.
    pub fn from_unix(status: UnixStatus) -> (wrapped: Self)
        ensures
            wrapped.inner == PlatformStatus::Unix(status),
    {
        ExitStatus { inner: PlatformStatus::Unix(status) }
    }

    /// Wraps an exit code of the handle-based platform.
    pub fn from_windows(status: WindowsStatus) -> (wrapped: Self)
        ensures
            wrapped.inner == PlatformStatus::Windows(status),
    {
        ExitStatus { inner: PlatformStatus::Windows(status) }
    }

    /// Whether the process ended by itself with the code for success.
    #[verifier::when_used_as_spec(spec_success)]
    pub fn success(self) -> (yes: bool)
        ensures
            yes == self.spec_success(),
            yes <==> self.spec_code() == Some(0i64),
    {
        match self.inner {
            PlatformStatus::Unix(status) => status.success(),
            PlatformStatus::Windows(status) => status.success(),
        }
    }

    /// The exit code, if the process ended by itself.
    #[verifier::when_used_as_spec(spec_code)]
    pub fn code(self) -> (code: Option<i64>)
        ensures
            code == self.spec_code(),
    {
        match self.inner {
            PlatformStatus::Unix(status) => match status.code() {
                Some(code) => Some(code as i64),
                None => None,
            },
            PlatformStatus::Windows(status) => Some(status.code as i64),
        }
    }

    /// Whether a stopped process was continued.
    pub fn continued(self) -> (yes: bool)
        ensures
            yes == (match self.inner {
                PlatformStatus::Unix(status) => status.kind
                    == crate::unix::exit_status::ExitStatusKind::Continued,
                PlatformStatus::Windows(_) => false,
            }),
    {
        match self.inner {
            PlatformStatus::Unix(status) => status.continued(),
            PlatformStatus::Windows(_) => false,
        }
    }

    /// Whether the process left a core dump.
    pub fn core_dumped(self) -> (yes: bool)
        ensures
            yes == (match self.inner {
                PlatformStatus::Unix(status) => status.kind
                    == crate::unix::exit_status::ExitStatusKind::Dumped,
                PlatformStatus::Windows(_) => false,
            }),
    {
        match self.inner {
            PlatformStatus::Unix(status) => status.core_dumped(),
            PlatformStatus::Windows(_) => false,
        }
    }

    /// The signal that ended the process, if one did.
    #[verifier::when_used_as_spec(spec_signal)]
    pub fn signal(self) -> (signal: Option<i32>)
        ensures
            signal == self.spec_signal(),
    {
        match self.inner {
            PlatformStatus::Unix(status) => status.signal(),
            PlatformStatus::Windows(_) => None,
        }
    }

    /// The signal that stopped the process, if one did.
    #[verifier::when_used_as_spec(spec_stopped_signal)]
    pub fn stopped_signal(self) -> (signal: Option<i32>)
        ensures
            signal == self.spec_stopped_signal(),
    {
        match self.inner {
            PlatformStatus::Unix(status) => status.stopped_signal(),
            PlatformStatus::Windows(_) => None,
        }
    }
}

/// The status of a finished process together with all that it wrote to its
/// piped output streams.
#[derive(Clone, Debug, PartialEq, Eq)]
pub struct Output {
    /// How the process ended.
    pub status: ExitStatus,
    /// What the process wrote to its standard output and the filter kept.
    pub stdout: Vec<u8>,
    /// What the process wrote to its standard error and the filter kept.
    pub stderr: Vec<u8>,
}

impl Output {
    /// Puts a status and the two captured streams together.
    pub fn new(status: ExitStatus, buffers: (Vec<u8>, Vec<u8>)) -> (output: Self)
        ensures
            output.status == status,
            output.stdout@ == buffers.0@,
            output.stderr@ == buffers.1@,
    {
        Output { status, stdout: buffers.0, stderr: buffers.1 }
    }

    /// Gives up the captured streams and keeps the status.
    pub fn into_status(self) -> (status: ExitStatus)
        ensures
            status == self.status,
    {
        self.status
    }
}

} // verus!
