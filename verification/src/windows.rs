//! The handle-based platform: exit codes, timed waits on a handle, job
//! objects and overlapped reads.

use vstd::prelude::*;
use crate::error::last_os_error;
use crate::error::Error;
use crate::windows::codes::error_access_denied;
use crate::windows::codes::error_invalid_handle;
use crate::windows::codes::still_active;
use crate::windows::time_limits::millis;
use crate::windows::time_limits::piece;
use crate::windows::time_limits::time_left;
use crate::windows::time_limits::TimeLimits;
use crate::windows::codes::true_value;
use crate::windows::codes::wait_object_0;
use crate::windows::codes::wait_timeout;

pub mod codes;
pub mod exit_status;
pub mod limit;
pub mod read;
pub mod time_limits;

verus! {

/// The error number of a failure in the unsigned form in which this
/// platform's error codes are written, if the failure carries one.
pub open spec fn spec_raw_os_error(error: Error) -> Option<u32> {
    match error {
        Error::Os(code) => if code >= 0 {
            Some(code as u32)
        } else {
            None
        },
        _ => None,
    }
}

/// The error number of a failure in the unsigned form in which this
/// platform's error codes are written, if the failure carries one.
#[verifier::when_used_as_spec(spec_raw_os_error)]
pub fn raw_os_error(error: Error) -> (code: Option<u32>)
    ensures
        code == spec_raw_os_error(error),
{
    match error {
        Error::Os(code) => {
            if code >= 0 {
                Some(code as u32)
            } else {
                None
            }
        },
        _ => None,
    }
}

/// Turns the return value of a system call into a result: any value but
/// the one for success is a failure, whose error number is read from the
/// operating system at once.
pub fn check_syscall(result: i32) -> (checked: Result<(), Error>)
    ensures
        checked.is_ok() <==> result == 1,
{
    if result == true_value() {
        Ok(())
    } else {
        Err(last_os_error())
    }
}

/// What follows one timed wait on the process's handle.
#[derive(Clone, Copy, Debug, PartialEq, Eq, Structural)]
pub enum Waited {
    /// The process has ended: its exit code is there to be read.
    Exited,
    /// The time of this wait ran out: wait again if time is left.
    TimedOut,
    /// The wait failed: the failure is to be read from the operating
    /// system.
    Failed,
}

/// What a timed wait that returned `event` found.
pub open spec fn waited(event: u32) -> Waited {
    if event == 0 {
        Waited::Exited
    } else if event == 258 {
        Waited::TimedOut
    } else {
        Waited::Failed
    }
}

/// Decides what follows one timed wait on the process's handle from the
/// value that the wait returned.
pub fn check_wait(event: u32) -> (next: Waited)
    ensures
        next == waited(event),
{
    if event == wait_object_0() {
        Waited::Exited
    } else if event == wait_timeout() {
        Waited::TimedOut
    } else {
        Waited::Failed
    }
}

/// The next thing to do in a wait on the process's handle.
#[derive(Clone, Copy, Debug, PartialEq, Eq, Structural)]
pub enum WaitStep {
    /// Wait on the handle for this many milliseconds.
    Wait(u32),
    /// The process has ended: read its exit code, which is the result.
    ExitCode,
    /// The wait failed: read the failure, which is the result.
    Failure,
    /// The time limit is used up: the wait yields no status.
    TimedOut,
}

/// The next thing to do after a timed wait found `found`, or at the start
/// if there was none yet; `time` is the time to give the next wait, or
/// nothing if none is left. A process that has ended and a failed wait end
/// the waiting; otherwise it goes on as long as time is left.
pub open spec fn wait_step_after(found: Option<Waited>, time: Option<u32>) -> WaitStep {
    match found {
        Some(Waited::Exited) => WaitStep::ExitCode,
        Some(Waited::Failed) => WaitStep::Failure,
        _ => match time {
            Some(time) => WaitStep::Wait(time),
            None => WaitStep::TimedOut,
        },
    }
}

/// What a timed wait that returned `event` found, if there was one.
pub open spec fn found(event: Option<u32>) -> Option<Waited> {
    match event {
        Some(event) => Some(waited(event)),
        None => None,
    }
}

/// Decides the next thing to do in a wait on the process's handle.
/// `event` is what the last timed wait returned, or nothing at the start.
/// The clock is read only where the waiting goes on.
pub fn wait_step(limits: &mut TimeLimits, event: Option<u32>) -> (step: WaitStep)
    ensures
        final(limits).limit() == old(limits).limit(),
        final(limits).start() == old(limits).start(),
        found(event) == Some(Waited::Exited) ==> step == WaitStep::ExitCode,
        found(event) == Some(Waited::Failed) ==> step == WaitStep::Failure,
        found(event) != Some(Waited::Exited) && found(event) != Some(Waited::Failed) ==> {
            &&& old(limits).limit().is_none() ==> step == WaitStep::Wait(0xffff_ffffu32)
            &&& old(limits).limit().is_some() ==> exists|spent: std::time::Duration|
                step == wait_step_after(
                    found(event),
                    piece(#[trigger] millis(time_left(old(limits).limit().unwrap(), spent))),
                )
        },
{
    let waited = match event {
        Some(event) => Some(check_wait(event)),
        None => None,
    };
    match waited {
        Some(Waited::Exited) => WaitStep::ExitCode,
        Some(Waited::Failed) => WaitStep::Failure,
        _ => match limits.next() {
            Some(time) => WaitStep::Wait(time),
            None => WaitStep::TimedOut,
        },
    }
}

/// What a wait on the process's handle comes to once it stops: the exit
/// code if the process has ended, nothing if no time was left for another
/// wait, else the failure. `exit_code` is what reading the exit code came
/// to, and `failure` what the operating system gave as the failure.
pub open spec fn wait_result(found: Option<Waited>, exit_code: Result<u32, Error>, failure: Error)
    -> Result<Option<crate::windows::exit_status::ExitStatus>, Error> {
    match found {
        None | Some(Waited::TimedOut) => Ok(None),
        Some(Waited::Exited) => match exit_code {
            Ok(code) => Ok(Some(crate::windows::exit_status::ExitStatus { code })),
            Err(error) => Err(error),
        },
        Some(Waited::Failed) => Err(failure),
    }
}

/// What follows a failed attempt to terminate a process.
#[derive(Clone, Copy, Debug, PartialEq, Eq)]
pub enum Terminated {
    /// Terminating came to this.
    Done(Result<(), Error>),
    /// Access was denied, as it is for a process that has already ended:
    /// read the exit code to tell.
    QueryExitCode,
}

/// What follows an attempt to terminate that came to `killed`: a handle
/// that is no longer valid means that the process is gone; a denial needs
/// a look at the exit code; any other outcome stands.
pub open spec fn terminated(killed: Result<(), Error>) -> Terminated {
    match killed {
        Err(error) => if spec_raw_os_error(error) == Some(6u32) {
            Terminated::Done(Err(Error::NotFound))
        } else if spec_raw_os_error(error) == Some(5u32) {
            Terminated::QueryExitCode
        } else {
            Terminated::Done(killed)
        },
        Ok(()) => Terminated::Done(killed),
    }
}

/// Whether an exit code that was read says that the process has ended.
pub open spec fn ended(exit_code: Result<u32, Error>) -> bool {
    exit_code.is_ok() && exit_code.unwrap() != 259
}

/// What a denied attempt to terminate comes to once the exit code was
/// read: the process is gone if it has ended; else the denial stands.
pub open spec fn denied(denial: Error, exit_code: Result<u32, Error>) -> Result<(), Error> {
    if ended(exit_code) {
        Err(Error::NotFound)
    } else {
        Err(denial)
    }
}

/// Decides what follows an attempt to terminate the process through its
/// handle.
pub fn terminate(killed: Result<(), Error>) -> (next: Terminated)
    ensures
        next == terminated(killed),
{
    match killed {
        Err(error) => {
            match raw_os_error(error) {
                Some(code) => {
                    if code == error_invalid_handle() {
                        Terminated::Done(Err(Error::NotFound))
                    } else if code == error_access_denied() {
                        Terminated::QueryExitCode
                    } else {
                        Terminated::Done(killed)
                    }
                },
                None => Terminated::Done(killed),
            }
        },
        Ok(()) => Terminated::Done(killed),
    }
}

/// Decides what a denied attempt to terminate comes to, from what reading
/// the exit code came to.
pub fn terminate_denied(denial: Error, exit_code: Result<u32, Error>) -> (done: Result<(), Error>)
    ensures
        done == denied(denial, exit_code),
{
    let gone = match exit_code {
        Ok(code) => code > 0x7fff_ffff || code as i32 != still_active(),
        Err(_) => false,
    };
    if gone {
        Err(Error::NotFound)
    } else {
        Err(denial)
    }
}

/// Decides what a wait on the process's handle comes to once it stops.
pub fn finish_wait(found: Option<Waited>, exit_code: Result<u32, Error>, failure: Error) -> (result:
    Result<Option<crate::windows::exit_status::ExitStatus>, Error>)
    ensures
        result == wait_result(found, exit_code, failure),
{
    match found {
        None => Ok(None),
        Some(Waited::TimedOut) => Ok(None),
        Some(Waited::Exited) => match exit_code {
            Ok(code) => Ok(Some(crate::windows::exit_status::ExitStatus::new(code))),
            Err(error) => Err(error),
        },
        Some(Waited::Failed) => Err(failure),
    }
}

/// Through a handle, terminating a process that has ended yields
/// `NotFound`: either the handle is no longer valid, or access is denied
/// and the exit code shows that the process has ended.
pub proof fn lemma_terminate_after_exit(exit_code: u32)
    requires
        exit_code != 259,
    ensures
        terminated(Err(Error::Os(6))) == Terminated::Done(Err(Error::NotFound)),
        terminated(Err(Error::Os(5))) == Terminated::QueryExitCode,
        denied(Error::Os(5), Ok(exit_code)) == Err::<(), Error>(Error::NotFound),
{
}

} // verus!
