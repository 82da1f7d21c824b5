//! The memory ceiling of a process that is held in a job.
//!
//! The ceiling is a property of a job object: a job is made, given the
//! ceiling, and the process is put into it. The operating system refuses a
//! ceiling that is too low for any process to run. Such a process is
//! terminated instead, whatever else fails, since leaving it without a
//! ceiling would not be what was asked for. The job belongs to the limiter, which releases it before
//! it makes a new one and when it has no use for it.

use vstd::prelude::*;
use crate::error::Error;
use crate::windows::codes::error_invalid_parameter;
use crate::windows::raw_os_error;
use crate::windows::spec_raw_os_error;

verus! {

/// One thing that the limiter asks its caller to do.
#[derive(Clone, Copy, Debug, PartialEq, Eq)]
pub enum LimitAction {
    /// Close the job that the limiter holds.
    CloseJob,
    /// Make a new job.
    CreateJob,
    /// Give the job a ceiling of this many bytes on its memory.
    Configure(usize),
    /// Put the process into the job.
    Assign,
    /// Terminate the process.
    Terminate,
    /// Report this as the outcome of setting the limit.
    Finish(Result<(), Error>),
}

/// Where the limiter stands: the step whose outcome it waits for.
#[derive(Clone, Copy, Debug, PartialEq, Eq)]
pub enum LimitPhase {
    /// The job of an earlier limit is being closed.
    Closing,
    /// A job is being made.
    Creating,
    /// The job is being given its ceiling.
    Configuring,
    /// The job is being closed because its ceiling was refused.
    Releasing,
    /// The process is being terminated because its ceiling was refused.
    Terminating,
    /// The process is being put into the job.
    Assigning,
    /// The outcome is known.
    Finished(Result<(), Error>),
}

/// The setting of a memory ceiling in progress.
#[derive(Clone, Copy, Debug, PartialEq, Eq)]
pub struct Limiter {
    /// The ceiling in bytes.
    pub limit: usize,
    /// Whether the limiter holds a job.
    pub job: bool,
    /// The step whose outcome is awaited.
    pub phase: LimitPhase,
}

/// Whether a failure says that the operating system refused a parameter,
/// as it does for a ceiling that is too low.
pub open spec fn refused(error: Error) -> bool {
    spec_raw_os_error(error) == Some(87u32)
}

impl Limiter {
    /// The limiter at its first step: an earlier job is closed first.
    pub open spec fn start(job: bool, limit: usize) -> Self {
        Limiter {
            limit,
            job,
            phase: if job {
                LimitPhase::Closing
            } else {
                LimitPhase::Creating
            },
        }
    }

    /// The thing to do at the step where the limiter stands.
    pub open spec fn pending(self) -> LimitAction {
        match self.phase {
            LimitPhase::Closing => LimitAction::CloseJob,
            LimitPhase::Creating => LimitAction::CreateJob,
            LimitPhase::Configuring => LimitAction::Configure(self.limit),
            LimitPhase::Releasing => LimitAction::CloseJob,
            LimitPhase::Terminating => LimitAction::Terminate,
            LimitPhase::Assigning => LimitAction::Assign,
            LimitPhase::Finished(outcome) => LimitAction::Finish(outcome),
        }
    }

    /// The limiter after the step where it stands came to `outcome`. A
    /// failure ends the setting of the limit with that failure, but for a
    /// ceiling that was refused: then the job is released and the process
    /// terminated, and what terminating comes to is the outcome. The
    /// process is terminated whether or not the job could be released.
    pub open spec fn advance(self, outcome: Result<(), Error>) -> Self {
        match self.phase {
            LimitPhase::Closing => match outcome {
                Ok(()) => Limiter { job: false, phase: LimitPhase::Creating, ..self },
                Err(_) => Limiter { job: false, phase: LimitPhase::Finished(outcome), ..self },
            },
            LimitPhase::Creating => match outcome {
                Ok(()) => Limiter { job: true, phase: LimitPhase::Configuring, ..self },
                Err(_) => Limiter { phase: LimitPhase::Finished(outcome), ..self },
            },
            LimitPhase::Configuring => match outcome {
                Ok(()) => Limiter { phase: LimitPhase::Assigning, ..self },
                Err(error) => if refused(error) {
                    Limiter { phase: LimitPhase::Releasing, ..self }
                } else {
                    Limiter { phase: LimitPhase::Finished(outcome), ..self }
                },
            },
            LimitPhase::Releasing => Limiter {
                job: false,
                phase: LimitPhase::Terminating,
                ..self
            },
            LimitPhase::Terminating => Limiter { phase: LimitPhase::Finished(outcome), ..self },
            LimitPhase::Assigning => Limiter { phase: LimitPhase::Finished(outcome), ..self },
            LimitPhase::Finished(_) => self,
        }
    }

    /// Starts setting a ceiling of `limit` bytes; `job` says whether a job
    /// of an earlier limit is still held.
    pub fn set_memory_limit(job: bool, limit: usize) -> (limiter: Self)
        ensures
            limiter == Self::start(job, limit),
    {
        Limiter {
            limit,
            job,
            phase: if job {
                LimitPhase::Closing
            } else {
                LimitPhase::Creating
            },
        }
    }

    /// The thing to do next.
    pub fn action(&self) -> (action: LimitAction)
        ensures
            action == self.pending(),
    {
        match self.phase {
            LimitPhase::Closing => LimitAction::CloseJob,
            LimitPhase::Creating => LimitAction::CreateJob,
            LimitPhase::Configuring => LimitAction::Configure(self.limit),
            LimitPhase::Releasing => LimitAction::CloseJob,
            LimitPhase::Terminating => LimitAction::Terminate,
            LimitPhase::Assigning => LimitAction::Assign,
            LimitPhase::Finished(outcome) => LimitAction::Finish(outcome),
        }
    }

    /// Takes in how the last action went and moves to the next step.
    pub fn next(&mut self, outcome: Result<(), Error>)
        ensures
            *final(self) == old(self).advance(outcome),
    {
        match self.phase {
            LimitPhase::Closing => {
                self.job = false;
                self.phase = match outcome {
                    Ok(()) => LimitPhase::Creating,
                    Err(_) => LimitPhase::Finished(outcome),
                };
            },
            LimitPhase::Creating => match outcome {
                Ok(()) => {
                    self.job = true;
                    self.phase = LimitPhase::Configuring;
                },
                Err(_) => {
                    self.phase = LimitPhase::Finished(outcome);
                },
            },
            LimitPhase::Configuring => match outcome {
                Ok(()) => {
                    self.phase = LimitPhase::Assigning;
                },
                Err(error) => {
                    let low = match raw_os_error(error) {
                        Some(code) => code == error_invalid_parameter(),
                        None => false,
                    };
                    self.phase = if low {
                        LimitPhase::Releasing
                    } else {
                        LimitPhase::Finished(outcome)
                    };
                },
            },
            LimitPhase::Releasing => {
                self.job = false;
                self.phase = LimitPhase::Terminating;
            },
            LimitPhase::Terminating => {
                self.phase = LimitPhase::Finished(outcome);
            },
            LimitPhase::Assigning => {
                self.phase = LimitPhase::Finished(outcome);
            },
            LimitPhase::Finished(_) => {},
        }
    }
}

/// A ceiling that the operating system refuses as too low never leaves the
/// process running without one: the job is given up, the process is
/// terminated whatever giving up the job came to, and what terminating
/// comes to is the outcome of setting the limit.
pub proof fn lemma_low_limit_terminates(
    limiter: Limiter,
    refusal: Error,
    released: Result<(), Error>,
    killed: Result<(), Error>,
)
    requires
        limiter.phase == LimitPhase::Configuring,
        refused(refusal),
    ensures
        ({
            let releasing = limiter.advance(Err(refusal));
            let terminating = releasing.advance(released);
            &&& releasing.pending() == LimitAction::CloseJob
            &&& terminating.pending() == LimitAction::Terminate
            &&& !terminating.job
            &&& terminating.advance(killed).pending() == LimitAction::Finish(killed)
        }),
{
}

/// A process is put into a job only after the job was given its ceiling,
/// and is terminated only after a ceiling was refused and the job given up.
pub proof fn lemma_assigned_only_when_limited(limiter: Limiter, outcome: Result<(), Error>)
    ensures
        limiter.advance(outcome).pending() == LimitAction::Assign ==> limiter.phase
            == LimitPhase::Configuring && outcome.is_ok(),
        limiter.advance(outcome).pending() == LimitAction::Terminate ==> limiter.phase
            == LimitPhase::Releasing,
{
}

/// Setting a limit with no failure along the way closes the job of an
/// earlier limit, makes a new one, gives it the ceiling and puts the
/// process into it, in this order, and succeeds.
pub proof fn lemma_limit_is_set(job: bool, limit: usize)
    ensures
        ({
            let begun = Limiter::start(job, limit);
            let created = if job {
                begun.advance(Ok(()))
            } else {
                begun
            };
            &&& job ==> begun.pending() == LimitAction::CloseJob
            &&& created.pending() == LimitAction::CreateJob
            &&& created.advance(Ok(())).pending() == LimitAction::Configure(limit)
            &&& created.advance(Ok(())).advance(Ok(())).pending() == LimitAction::Assign
            &&& created.advance(Ok(())).advance(Ok(())).advance(Ok(())).pending()
                == LimitAction::Finish(Ok(()))
            &&& created.advance(Ok(())).advance(Ok(())).advance(Ok(())).job
        }),
{
}

} // verus!
