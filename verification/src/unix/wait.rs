//! Waiting for a process to change state, with or without a time limit.
//!
//! The operating system's blocking status query cannot be given a deadline.
//! A bounded wait therefore runs the query on a worker and meets it through
//! a channel for no longer than the time limit. A worker that is not done by
//! then is left to itself: it ends when the process does, and what it finds
//! is dropped.

use vstd::prelude::*;
use std::time::Duration;
use crate::error::Error;
use crate::unix::codes::Codes;
use crate::unix::exit_status::ExitStatus;
use crate::unix::exit_status::StdStatus;

verus! {

/// The part of a wait result that tells what became of the process.
#[derive(Clone, Copy, Debug, PartialEq, Eq, Structural)]
pub struct ProcessInfo {
    /// The disposition code.
    pub si_code: i32,
    /// The exit code or signal number that goes with it.
    pub si_status: i32,
}

/// What follows one blocking status query.
#[derive(Clone, Copy, Debug, PartialEq, Eq)]
pub enum Waited {
    /// The query was interrupted and is to be made again.
    Again,
    /// The wait is over, with a status or a failure.
    Done(Result<ExitStatus, Error>),
}

/// Whether a failure says that a system call was interrupted: it is of that
/// kind, or carries `number`, which the system gives that error.
pub open spec fn interrupted(error: Error, number: i32) -> bool {
    error == Error::Interrupted || error == Error::Os(number)
}

/// Decides whether a failure says that a system call was interrupted.
pub fn is_interrupted(error: Error, number: i32) -> (yes: bool)
    ensures
        yes == interrupted(error, number),
{
    match error {
        Error::Interrupted => true,
        Error::Os(code) => code == number,
        _ => false,
    }
}

/// What follows a status query that came to `outcome`, on a system with
/// the numbers `codes`: an interrupted query is repeated and never shows as
/// a failure or a timeout; any other failure ends the wait; an answer is
/// classified.
pub open spec fn waited(outcome: Result<ProcessInfo, Error>, codes: Codes) -> Waited {
    match outcome {
        Ok(info) => Waited::Done(
            Ok(
                ExitStatus {
                    value: info.si_status,
                    kind: crate::unix::exit_status::ExitStatusKind::of_code(
                        info.si_code as int,
                        codes,
                    ),
                },
            ),
        ),
        Err(error) => if interrupted(error, codes.interrupted) {
            Waited::Again
        } else {
            Waited::Done(Err(error))
        },
    }
}

/// Decides what follows one blocking status query that left the process
/// unreaped.
pub fn check_result(outcome: Result<ProcessInfo, Error>, codes: Codes) -> (next: Waited)
    ensures
        next == waited(outcome, codes),
{
    match outcome {
        Ok(info) => Waited::Done(Ok(ExitStatus::new(info.si_code, info.si_status, codes))),
        Err(error) => {
            if is_interrupted(error, codes.interrupted) {
                Waited::Again
            } else {
                Waited::Done(Err(error))
            }
        },
    }
}

/// How a wait is run.
pub enum Run<F, R> {
    /// There was no time limit: the wait was made at once and this is what
    /// it came to.
    Done(R),
    /// The wait is to be made on a worker and met for no longer than the
    /// time given.
    Background(F, Duration),
}

/// Runs `run_fn` at once if there is no time limit. With a time limit it
/// hands `run_fn` back, to be run on a worker and met within that time.
pub fn run_with_time_limit<F, R>(run_fn: F, time_limit: Option<Duration>) -> (run: Run<F, R>) where
    F: FnOnce() -> R,

    requires
        call_requires(run_fn, ()),
    ensures
        time_limit.is_none() ==> run is Done && call_ensures(run_fn, (), run->Done_0),
        time_limit.is_some() ==> run == Run::<F, R>::Background(run_fn, time_limit.unwrap()),
{
    match time_limit {
        None => Run::Done(run_fn()),
        Some(time_limit) => Run::Background(run_fn, time_limit),
    }
}

/// What a bounded wait comes to. `met` is what the meeting with the worker
/// brought: a failure if the worker could not be started, nothing if the
/// time ran out first, else what the worker found.
pub open spec fn settled(met: Result<Option<Result<ExitStatus, Error>>, Error>) -> Result<
    Option<ExitStatus>,
    Error,
> {
    match met {
        Err(error) => Err(error),
        Ok(None) => Ok(None),
        Ok(Some(Err(error))) => Err(error),
        Ok(Some(Ok(status))) => Ok(Some(status)),
    }
}

/// Turns what the meeting with the worker brought into the result of the
/// wait. Running out of time is not a failure.
pub fn wait(met: Result<Option<Result<ExitStatus, Error>>, Error>) -> (result: Result<
    Option<ExitStatus>,
    Error,
>)
    ensures
        result == settled(met),
{
    match met {
        Err(error) => Err(error),
        Ok(None) => Ok(None),
        Ok(Some(Err(error))) => Err(error),
        Ok(Some(Ok(status))) => Ok(Some(status)),
    }
}

/// What follows one look at a process by a worker that is woken by child
/// signals.
#[derive(Clone, Copy, Debug, PartialEq, Eq)]
pub enum Polled {
    /// The look was interrupted and is to be made again at once.
    Again,
    /// The process is still running: sleep until a child signal arrives,
    /// then look again.
    Sleep,
    /// The wait is over, with a status or a failure.
    Done(Result<ExitStatus, Error>),
}

/// What follows a look that came to `looked`; `looked` is nothing if the
/// process was taken away from the worker because its caller had given up.
/// `interrupted` is the number that the system gives the error of an
/// interrupted call.
pub open spec fn polled(looked: Option<Result<Option<StdStatus>, Error>>, interrupted: i32)
    -> Polled {
    match looked {
        None => Polled::Done(Err(Error::TimedOut)),
        Some(Ok(Some(status))) => Polled::Done(Ok(ExitStatus::of_std(status))),
        Some(Ok(None)) => Polled::Sleep,
        Some(Err(error)) => if self::interrupted(error, interrupted) {
            Polled::Again
        } else {
            Polled::Done(Err(error))
        },
    }
}

/// Decides what follows one non-blocking look at a process on a platform
/// without a status query that leaves the process unreaped.
pub fn poll_step(looked: Option<Result<Option<StdStatus>, Error>>, interrupted: i32) -> (next:
    Polled)
    ensures
        next == polled(looked, interrupted),
{
    match looked {
        None => Polled::Done(Err(Error::TimedOut)),
        Some(Ok(Some(status))) => Polled::Done(Ok(ExitStatus::from_std(status))),
        Some(Ok(None)) => Polled::Sleep,
        Some(Err(error)) => {
            if is_interrupted(error, interrupted) {
                Polled::Again
            } else {
                Polled::Done(Err(error))
            }
        },
    }
}

} // verus!
