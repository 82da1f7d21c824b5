//! The POSIX side: wait results, signals and pollable pipes.

use vstd::prelude::*;
use crate::error::last_os_error;
use crate::error::Error;

pub mod codes;
pub mod exit_status;
pub mod read;
pub mod wait;

verus! {

/// Turns the return value of a system call into a result: a negative value
/// is a failure, whose error number is read from the operating system at
/// once.
pub fn check_syscall(result: i32) -> (checked: Result<(), Error>)
    ensures
        checked.is_ok() <==> result >= 0,
{
    if result >= 0 {
        Ok(())
    } else {
        Err(last_os_error())
    }
}

/// The identifier of a process, which is never negative.
#[derive(Clone, Copy, Debug, PartialEq, Eq)]
pub struct RawPid {
    id: i32,
}

impl RawPid {
    /// The identifier as a number.
    pub closed spec fn value(self) -> int {
        self.id as int
    }

    /// Whether `id` can name a process: it fits the operating system's
    /// signed identifier type.
    pub open spec fn valid(id: u32) -> bool {
        id <= i32::MAX
    }

    /// The identifier `id`, as the standard library reports it for a
    /// process.
    pub fn new(id: u32) -> (pid: Self)
        requires
            Self::valid(id),
        ensures
            pid.value() == id,
    {
        RawPid { id: id as i32 }
    }

    /// The identifier `id` if it can name a process.
    pub fn checked(id: u32) -> (pid: Option<Self>)
        ensures
            pid.is_some() == Self::valid(id),
            pid.is_some() ==> pid.unwrap().value() == id,
    {
        if id <= 0x7fff_ffff {
            Some(RawPid::new(id))
        } else {
            None
        }
    }

    #[verifier::type_invariant]
    closed spec fn nonnegative(self) -> bool {
        self.id >= 0
    }

    /// The identifier in the signed form that signals are sent to.
    pub fn as_pid(&self) -> (pid: i32)
        ensures
            pid == self.value(),
            pid >= 0,
    {
        proof {
            use_type_invariant(self);
        }
        self.id
    }

    /// The identifier in the unsigned form that status queries take.
    pub fn as_id(&self) -> (id: u32)
        ensures
            id == self.value(),
    {
        proof {
            use_type_invariant(self);
        }
        self.id as u32
    }
}

/// The two values of a resource limit, which the operating system holds as
/// 64-bit numbers.
#[derive(Clone, Copy, Debug, PartialEq, Eq, Structural)]
pub struct Rlimit {
    /// The limit that is enforced.
    pub current: u64,
    /// The highest value that the enforced limit may later be raised to.
    pub maximum: u64,
}

/// A running process that can be limited and waited for.
#[derive(Clone, Copy, Debug, PartialEq, Eq)]
pub struct Process {
    pid: RawPid,
}

impl Process {
    /// The process's identifier.
    pub closed spec fn pid(self) -> RawPid {
        self.pid
    }

    /// The process with identifier `id`.
    pub fn new(id: u32) -> (process: Self)
        requires
            RawPid::valid(id),
        ensures
            process.pid().value() == id,
    {
        Process { pid: RawPid::new(id) }
    }

    /// The process's identifier.
    pub fn raw_pid(&self) -> (pid: RawPid)
        ensures
            pid == self.pid(),
    {
        self.pid
    }

    /// The limit on virtual memory that caps the process at `limit` bytes:
    /// both of its values are set to `limit`, so that the process cannot
    /// raise it again.
    pub fn memory_rlimit(limit: usize) -> (values: Rlimit)
        ensures
            values.current == limit,
            values.maximum == limit,
    {
        Rlimit { current: limit as u64, maximum: limit as u64 }
    }

    /// What setting the memory limit comes to, from the return value of the
    /// system call that set it: a failure there is a failure of the wait.
    pub fn set_memory_limit(&self, result: i32) -> (set: Result<(), Error>)
        ensures
            set.is_ok() <==> result >= 0,
    {
        check_syscall(result)
    }
}

/// What a kill signal came to, with the error for a process that no longer
/// exists made recognisable; `no_such_process` is the number that the
/// system gives that error.
pub open spec fn terminated(killed: Result<(), Error>, no_such_process: i32) -> Result<(), Error> {
    if killed == Err::<(), Error>(Error::Os(no_such_process)) {
        Err(Error::NotFound)
    } else {
        killed
    }
}

/// A reference to a process for the purpose of terminating it.
#[derive(Clone, Copy, Debug, PartialEq, Eq)]
pub struct DuplicatedHandle {
    pid: RawPid,
}

impl DuplicatedHandle {
    /// The identifier that a kill signal is sent to.
    pub closed spec fn pid(self) -> RawPid {
        self.pid
    }

    /// A reference to the process with identifier `id`.
    pub fn new(id: u32) -> (handle: Self)
        requires
            RawPid::valid(id),
        ensures
            handle.pid().value() == id,
    {
        DuplicatedHandle { pid: RawPid::new(id) }
    }

    /// The identifier that a kill signal is sent to.
    pub fn target(&self) -> (pid: i32)
        ensures
            pid == self.pid().value(),
            pid >= 0,
    {
        self.pid.as_pid()
    }

    /// What terminating the process comes to, from the outcome of the kill
    /// signal: if the operating system knows no such process, the failure
    /// is `NotFound`; any other outcome stands. `no_such_process` is the
    /// number that the system gives the error for a process that it does
    /// not know.
    pub fn terminate(&self, killed: Result<(), Error>, no_such_process: i32) -> (done: Result<
        (),
        Error,
    >)
        ensures
            done == terminated(killed, no_such_process),
    {
        match killed {
            Err(Error::Os(code)) => {
                if code == no_such_process {
                    Err(Error::NotFound)
                } else {
                    killed
                }
            },
            _ => killed,
        }
    }
}

/// Terminating a process that has exited and was reaped yields `NotFound`:
/// the operating system then knows no process of that identifier, and says
/// so with the error number for "no such process". No other outcome of a
/// kill turns into `NotFound`.
pub proof fn lemma_terminate_after_reap(no_such_process: i32)
    ensures
        terminated(Err(Error::Os(no_such_process)), no_such_process) == Err::<(), Error>(
            Error::NotFound,
        ),
        forall|killed: Result<(), Error>|
            terminated(killed, no_such_process) == Err::<(), Error>(Error::NotFound) <==> (killed
                == Err::<(), Error>(Error::Os(no_such_process)) || killed == Err::<(), Error>(
                Error::NotFound,
            )),
{
}

} // verus!
