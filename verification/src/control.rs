//! The session that composes a process with its limits, flags and pipes.
//!
//! A session is built step by step and then consumed by [`Buffer::wait`],
//! which starts a [`Session`]: a record of where the wait stands. The
//! session names the next thing to do to the process ([`Session::action`]);
//! its caller does it and reports how it went ([`Session::next`]), until the
//! session names the result. The order of the steps matters: the status is
//! looked at without being consumed before any decision to terminate, and
//! the process is reaped only after that.

use vstd::prelude::*;
use std::time::Duration;
use crate::control::pipe::Pipe;
use crate::control::pipe::PipeFilter;
use crate::error::Error;
use crate::exit_status::ExitStatus;

pub mod laws;
pub mod pipe;

verus! {

/// What a wait yields: a status, nothing if the time ran out, or a failure.
pub type WaitResult = Result<Option<ExitStatus>, Error>;

/// One thing that a session asks its caller to do to the process.
#[derive(Clone, Copy, Debug, PartialEq, Eq)]
pub enum Action {
    /// Close the process's standard input, if the session holds it.
    CloseStdin,
    /// Start draining the output pipes, beside and not before the wait.
    StartReader,
    /// Look whether the exit status is already there, without blocking.
    Peek,
    /// Set the process's memory ceiling to this many bytes.
    Limit(usize),
    /// Wait for the process to finish, for no longer than the time given.
    Wait(Option<Duration>),
    /// Kill the process.
    Terminate,
    /// Wait for the killed process and consume its status.
    Reap,
    /// Look at the status once more without blocking, to collect a process
    /// that finished in the meantime.
    Check,
    /// Wait for the draining of the pipes to end and take its buffers.
    JoinReader,
    /// Hand this result to the caller of the wait; nothing is left to do.
    Finish(WaitResult),
}

/// Where a session stands: the step whose outcome it waits for.
#[derive(Clone, Copy, Debug, PartialEq, Eq)]
pub enum Phase {
    /// Standard input is being closed.
    ClosingStdin,
    /// The status is looked for before anything is changed.
    Peeking,
    /// The memory ceiling, of this many bytes, is being set.
    Limiting(usize),
    /// The draining of the pipes is being started.
    StartingReader,
    /// The process is being waited for.
    Waiting,
    /// After a timeout, the status is looked for once more before the
    /// process is killed.
    Rechecking,
    /// The process is being killed after a timeout.
    Terminating,
    /// The killed process is being reaped.
    Reaping,
    /// The status is looked at for the last time.
    Checking,
    /// The end of the draining is being waited for.
    Joining,
    /// The result is known.
    Finished,
}

/// A wait in progress: the options it was started with, the step it stands
/// at, and what it has learned so far.
#[derive(Clone, Copy, Debug, PartialEq, Eq)]
pub struct Session {
    /// Whether the output pipes are drained and their bytes handed out.
    pub capture: bool,
    /// The memory ceiling in bytes, if one was asked for.
    pub memory_limit: Option<usize>,
    /// The longest time to wait, if the wait is bounded.
    pub time_limit: Option<Duration>,
    /// Whether a failure to clean up is reported.
    pub strict_errors: bool,
    /// Whether a process that runs out of time is killed.
    pub terminate_for_timeout: bool,
    /// The step whose outcome is awaited.
    pub phase: Phase,
    /// What the wait itself, or the reading of the pipes, came to. It holds
    /// no status until one is known.
    pub primary: WaitResult,
    /// The first failure to clean up, if there was one.
    pub cleanup: Option<Error>,
}

/// The failure in an outcome, if it is one.
pub open spec fn failure(outcome: WaitResult) -> Option<Error> {
    match outcome {
        Ok(_) => None,
        Err(error) => Some(error),
    }
}

impl Session {
    /// The result of the wait as far as it is known: a failure of the wait
    /// or of the reading always stands; a failure to clean up replaces a
    /// result that was fine, and only in a session with strict errors.
    pub open spec fn result(self) -> WaitResult {
        match self.primary {
            Err(error) => Err(error),
            Ok(status) => if self.strict_errors && self.cleanup.is_some() {
                Err(self.cleanup.unwrap())
            } else {
                Ok(status)
            },
        }
    }

    /// The thing to do at the step where the session stands.
    pub open spec fn pending(self) -> Action {
        match self.phase {
            Phase::ClosingStdin => Action::CloseStdin,
            Phase::Peeking => Action::Peek,
            Phase::Limiting(limit) => Action::Limit(limit),
            Phase::StartingReader => Action::StartReader,
            Phase::Waiting => Action::Wait(self.time_limit),
            Phase::Rechecking => Action::Peek,
            Phase::Terminating => Action::Terminate,
            Phase::Reaping => Action::Reap,
            Phase::Checking => Action::Check,
            Phase::Joining => Action::JoinReader,
            Phase::Finished => Action::Finish(self.result()),
        }
    }

    /// The step that follows once it is settled that the process is to be
    /// waited for, with its memory ceiling set if it has one: the start of
    /// the reader if the pipes are drained, else the wait.
    pub open spec fn after_limit(self) -> Phase {
        if self.capture {
            Phase::StartingReader
        } else {
            Phase::Waiting
        }
    }

    /// The step that follows a look for the status that found none: the
    /// memory ceiling if there is one to set, else what follows that.
    pub open spec fn before_wait(self) -> Phase {
        match self.memory_limit {
            Some(limit) => Phase::Limiting(limit),
            None => self.after_limit(),
        }
    }

    /// The step that follows the last look at the status: the end of the
    /// reader if the pipes are drained and the process has finished, else
    /// the result. The reader of a process that is still running, or whose
    /// wait failed, is left to itself.
    pub open spec fn after_check(self) -> Phase {
        if self.capture && self.primary.is_ok() && self.primary.unwrap().is_some() {
            Phase::Joining
        } else {
            Phase::Finished
        }
    }

    /// The session with a failure to clean up noted, unless an earlier one
    /// is already there.
    pub open spec fn noting(self, outcome: WaitResult) -> Self {
        if self.cleanup.is_none() {
            Session { cleanup: failure(outcome), ..self }
        } else {
            self
        }
    }

    /// The session after the step where it stands came to `outcome`.
    ///
    /// - Closing standard input cannot fail; the status is looked for next.
    /// - A status that is already there is the result of the wait: no
    ///   ceiling is set and nothing is waited for, but the pipes are still
    ///   drained. A look that fails counts as one that found nothing.
    /// - A ceiling that cannot be set is the failure of the wait, and ends
    ///   it before it begins.
    /// - The reader is started just before the wait, so that the pipes are
    ///   drained while the process is waited for. A reader that cannot be
    ///   started is the failure of the wait.
    /// - What the wait comes to is kept. If the time ran out and the session
    ///   was asked to terminate the process then, the status is looked for
    ///   once more, and the process is killed unless it has ended in the
    ///   meantime.
    /// - A killed process is reaped, unless the kill failed.
    /// - After all else the status is looked at once more.
    /// - A reader that failed is the failure of the wait.
    pub open spec fn advance(self, outcome: WaitResult) -> Self {
        match self.phase {
            Phase::ClosingStdin => Session { phase: Phase::Peeking, ..self },
            Phase::Peeking => match outcome {
                Ok(Some(status)) => Session {
                    primary: Ok(Some(status)),
                    phase: if self.capture {
                        Phase::StartingReader
                    } else {
                        Phase::Checking
                    },
                    ..self
                },
                _ => Session { phase: self.before_wait(), ..self },
            },
            Phase::Limiting(_) => match outcome {
                Err(error) => Session { primary: Err(error), phase: Phase::Checking, ..self },
                Ok(_) => Session { phase: self.after_limit(), ..self },
            },
            Phase::StartingReader => match outcome {
                Err(error) => Session { primary: Err(error), phase: Phase::Checking, ..self },
                Ok(_) => Session {
                    phase: if self.primary == Ok::<Option<ExitStatus>, Error>(None) {
                        Phase::Waiting
                    } else {
                        Phase::Checking
                    },
                    ..self
                },
            },
            Phase::Waiting => Session {
                primary: outcome,
                phase: if self.terminate_for_timeout && outcome == Ok::<Option<ExitStatus>, Error>(
                    None,
                ) {
                    Phase::Rechecking
                } else {
                    Phase::Checking
                },
                ..self
            },
            Phase::Rechecking => match outcome {
                Ok(Some(_)) => Session { phase: Phase::Checking, ..self },
                _ => Session { phase: Phase::Terminating, ..self.noting(outcome) },
            },
            Phase::Terminating => match outcome {
                Err(_) => Session { phase: Phase::Checking, ..self.noting(outcome) },
                Ok(_) => Session { phase: Phase::Reaping, ..self },
            },
            Phase::Reaping => Session { phase: Phase::Checking, ..self.noting(outcome) },
            Phase::Checking => {
                let noted = self.noting(outcome);
                Session { phase: noted.after_check(), ..noted }
            },
            Phase::Joining => match outcome {
                Err(error) => Session { primary: Err(error), phase: Phase::Finished, ..self },
                Ok(_) => Session { phase: Phase::Finished, ..self },
            },
            Phase::Finished => self,
        }
    }

    /// Whether the result is known, so that nothing is left to do.
    pub fn is_finished(&self) -> (finished: bool)
        ensures
            finished == (self.phase == Phase::Finished),
    {
        match self.phase {
            Phase::Finished => true,
            _ => false,
        }
    }

    /// The result of the wait as far as it is known.
    pub fn outcome(&self) -> (result: WaitResult)
        ensures
            result == self.result(),
    {
        match self.primary {
            Err(error) => Err(error),
            Ok(status) => {
                if self.strict_errors {
                    match self.cleanup {
                        Some(error) => Err(error),
                        None => Ok(status),
                    }
                } else {
                    Ok(status)
                }
            },
        }
    }

    /// The thing to do next.
    pub fn action(&self) -> (action: Action)
        ensures
            action == self.pending(),
    {
        match self.phase {
            Phase::ClosingStdin => Action::CloseStdin,
            Phase::Peeking => Action::Peek,
            Phase::Limiting(limit) => Action::Limit(limit),
            Phase::StartingReader => Action::StartReader,
            Phase::Waiting => Action::Wait(self.time_limit),
            Phase::Rechecking => Action::Peek,
            Phase::Terminating => Action::Terminate,
            Phase::Reaping => Action::Reap,
            Phase::Checking => Action::Check,
            Phase::Joining => Action::JoinReader,
            Phase::Finished => Action::Finish(self.outcome()),
        }
    }

    fn reader_or_wait(&self) -> (phase: Phase)
        ensures
            phase == self.after_limit(),
    {
        if self.capture {
            Phase::StartingReader
        } else {
            Phase::Waiting
        }
    }

    fn note(&mut self, outcome: WaitResult)
        ensures
            *final(self) == old(self).noting(outcome),
    {
        if self.cleanup.is_none() {
            self.cleanup = match outcome {
                Ok(_) => None,
                Err(error) => Some(error),
            };
        }
    }

    /// Takes in how the last action went and moves to the next step.
    ///
    /// An action that yields no status reports `Ok(None)` when it went
    /// well. For the wait, `Ok(None)` says that the time ran out.
    pub fn next(&mut self, outcome: WaitResult)
        ensures
            *final(self) == old(self).advance(outcome),
    {
        match self.phase {
            Phase::ClosingStdin => {
                self.phase = Phase::Peeking;
            },
            Phase::Peeking => match outcome {
                Ok(Some(status)) => {
                    self.primary = Ok(Some(status));
                    self.phase = if self.capture {
                        Phase::StartingReader
                    } else {
                        Phase::Checking
                    };
                },
                _ => {
                    self.phase = match self.memory_limit {
                        Some(limit) => Phase::Limiting(limit),
                        None => self.reader_or_wait(),
                    };
                },
            },
            Phase::Limiting(_) => match outcome {
                Err(error) => {
                    self.primary = Err(error);
                    self.phase = Phase::Checking;
                },
                Ok(_) => {
                    self.phase = self.reader_or_wait();
                },
            },
            Phase::StartingReader => match outcome {
                Err(error) => {
                    self.primary = Err(error);
                    self.phase = Phase::Checking;
                },
                Ok(_) => {
                    let undecided = match self.primary {
                        Ok(None) => true,
                        _ => false,
                    };
                    self.phase = if undecided {
                        Phase::Waiting
                    } else {
                        Phase::Checking
                    };
                },
            },
            Phase::Waiting => {
                let timed_out = match outcome {
                    Ok(None) => true,
                    _ => false,
                };
                self.primary = outcome;
                self.phase = if self.terminate_for_timeout && timed_out {
                    Phase::Rechecking
                } else {
                    Phase::Checking
                };
            },
            Phase::Rechecking => match outcome {
                Ok(Some(_)) => {
                    self.phase = Phase::Checking;
                },
                _ => {
                    self.note(outcome);
                    self.phase = Phase::Terminating;
                },
            },
            Phase::Terminating => match outcome {
                Err(_) => {
                    self.note(outcome);
                    self.phase = Phase::Checking;
                },
                Ok(_) => {
                    self.phase = Phase::Reaping;
                },
            },
            Phase::Reaping => {
                self.note(outcome);
                self.phase = Phase::Checking;
            },
            Phase::Checking => {
                self.note(outcome);
                let finished = match self.primary {
                    Ok(Some(_)) => true,
                    _ => false,
                };
                self.phase = if self.capture && finished {
                    Phase::Joining
                } else {
                    Phase::Finished
                };
            },
            Phase::Joining => {
                match outcome {
                    Err(error) => {
                        self.primary = Err(error);
                    },
                    Ok(_) => {},
                }
                self.phase = Phase::Finished;
            },
            Phase::Finished => {},
        }
    }
}

/// Which of a process's output streams were set up as pipes.
#[derive(Clone, Copy, Debug, PartialEq, Eq, Structural)]
pub struct Streams {
    /// Whether standard output is a pipe.
    pub stdout: bool,
    /// Whether standard error is a pipe.
    pub stderr: bool,
}

/// What a [`Buffer`] holds, as far as contracts speak of it.
pub struct BufferView {
    /// The piped output streams, if the session hands out the output.
    pub output: Option<Streams>,
    /// The memory ceiling in bytes, if one was set.
    pub memory_limit: Option<usize>,
    /// The longest time to wait, if one was set.
    pub time_limit: Option<Duration>,
    /// Whether a failure to clean up is reported.
    pub strict_errors: bool,
    /// Whether a process that runs out of time is killed.
    pub terminate_for_timeout: bool,
    /// The filter that was attached to standard output, if one was.
    pub stdout_filter: Option<Box<dyn PipeFilter>>,
    /// The filter that was attached to standard error, if one was.
    pub stderr_filter: Option<Box<dyn PipeFilter>>,
}

/// Marks the types of this library whose traits are not meant to be
/// implemented elsewhere.
pub trait Sealed {

}

/// The options of a wait while they are being collected.
///
/// Each option is set by a method that takes the buffer and gives it back;
/// [`Buffer::wait`] consumes it.
pub struct Buffer {
    output: Option<Streams>,
    memory_limit: Option<usize>,
    time_limit: Option<Duration>,
    stdout_filter: Option<Box<dyn PipeFilter>>,
    stderr_filter: Option<Box<dyn PipeFilter>>,
    strict_errors: bool,
    terminate_for_timeout: bool,
}

impl Sealed for Buffer {

}

impl View for Buffer {
    type V = BufferView;

    closed spec fn view(&self) -> BufferView {
        BufferView {
            output: self.output,
            memory_limit: self.memory_limit,
            time_limit: self.time_limit,
            strict_errors: self.strict_errors,
            terminate_for_timeout: self.terminate_for_timeout,
            stdout_filter: self.stdout_filter,
            stderr_filter: self.stderr_filter,
        }
    }
}

impl BufferView {
    /// The session that a wait with these options starts: it stands at its
    /// first step, the closing of standard input, and knows nothing yet.
    pub open spec fn session(self) -> Session {
        Session {
            capture: self.output.is_some(),
            memory_limit: self.memory_limit,
            time_limit: self.time_limit,
            strict_errors: self.strict_errors,
            terminate_for_timeout: self.terminate_for_timeout,
            phase: Phase::ClosingStdin,
            primary: Ok(None),
            cleanup: None,
        }
    }
}

impl Buffer {
    /// The options of a wait with no limit and no flag set. With `output`
    /// the wait hands out what the process wrote to those of its output
    /// streams that are pipes; without, only its status.
    pub fn new(output: Option<Streams>) -> (buffer: Self)
        ensures
            buffer@ == (BufferView {
                output,
                memory_limit: None,
                time_limit: None,
                strict_errors: false,
                terminate_for_timeout: false,
                stdout_filter: None,
                stderr_filter: None,
            }),
    {
        Buffer {
            output,
            memory_limit: None,
            time_limit: None,
            stdout_filter: None,
            stderr_filter: None,
            strict_errors: false,
            terminate_for_timeout: false,
        }
    }

    /// Sets the ceiling on the process's memory, in bytes.
    pub fn memory_limit(self, limit: usize) -> (buffer: Self)
        ensures
            buffer@ == (BufferView { memory_limit: Some(limit), ..self@ }),
    {
        let mut buffer = self;
        buffer.memory_limit = Some(limit);
        buffer
    }

    /// Sets the longest time to wait for the process.
    pub fn time_limit(self, limit: Duration) -> (buffer: Self)
        ensures
            buffer@ == (BufferView { time_limit: Some(limit), ..self@ }),
    {
        let mut buffer = self;
        buffer.time_limit = Some(limit);
        buffer
    }

    /// Makes the wait report a failure to clean up after the process.
    pub fn strict_errors(self) -> (buffer: Self)
        ensures
            buffer@ == (BufferView { strict_errors: true, ..self@ }),
    {
        let mut buffer = self;
        buffer.strict_errors = true;
        buffer
    }

    /// Makes the wait kill the process if it runs out of time.
    pub fn terminate_for_timeout(self) -> (buffer: Self)
        ensures
            buffer@ == (BufferView { terminate_for_timeout: true, ..self@ }),
    {
        let mut buffer = self;
        buffer.terminate_for_timeout = true;
        buffer
    }

    /// Attaches a filter to standard output, which must be a pipe of a
    /// session that hands out the output.
    pub fn stdout_filter(self, filter: Box<dyn PipeFilter>) -> (buffer: Self)
        requires
            self@.output.is_some(),
            self@.output.unwrap().stdout,
        ensures
            buffer@ == (BufferView { stdout_filter: Some(filter), ..self@ }),
    {
        let mut buffer = self;
        buffer.stdout_filter = Some(filter);
        buffer
    }

    /// Attaches a filter to standard error, which must be a pipe of a
    /// session that hands out the output.
    pub fn stderr_filter(self, filter: Box<dyn PipeFilter>) -> (buffer: Self)
        requires
            self@.output.is_some(),
            self@.output.unwrap().stderr,
        ensures
            buffer@ == (BufferView { stderr_filter: Some(filter), ..self@ }),
    {
        let mut buffer = self;
        buffer.stderr_filter = Some(filter);
        buffer
    }

    /// Whether standard output can take a filter: it is a pipe of a session
    /// that hands out the output.
    pub fn stdout_piped(&self) -> (piped: bool)
        ensures
            piped == (self@.output.is_some() && self@.output.unwrap().stdout),
    {
        match self.output {
            Some(streams) => streams.stdout,
            None => false,
        }
    }

    /// Whether standard error can take a filter: it is a pipe of a session
    /// that hands out the output.
    pub fn stderr_piped(&self) -> (piped: bool)
        ensures
            piped == (self@.output.is_some() && self@.output.unwrap().stderr),
    {
        match self.output {
            Some(streams) => streams.stderr,
            None => false,
        }
    }

    /// Starts the wait. The session that comes back stands at its first
    /// step, which closes standard input: a process that still reads from
    /// it would otherwise never finish. With it come the pipes to drain,
    /// each with its filter: one for each output stream that is a pipe, if
    /// the session hands out the output.
    pub fn wait(self) -> (started: (Session, Option<Pipe>, Option<Pipe>))
        ensures
            started.0 == self@.session(),
            started.1.is_some() == (self@.output.is_some() && self@.output.unwrap().stdout),
            started.2.is_some() == (self@.output.is_some() && self@.output.unwrap().stderr),
            started.1.is_some() ==> started.1.unwrap().filter() == self@.stdout_filter,
            started.2.is_some() ==> started.2.unwrap().filter() == self@.stderr_filter,
    {
        let session = Session {
            capture: self.output.is_some(),
            memory_limit: self.memory_limit,
            time_limit: self.time_limit,
            strict_errors: self.strict_errors,
            terminate_for_timeout: self.terminate_for_timeout,
            phase: Phase::ClosingStdin,
            primary: Ok(None),
            cleanup: None,
        };
        let (stdout_piped, stderr_piped) = match self.output {
            Some(streams) => (streams.stdout, streams.stderr),
            None => (false, false),
        };
        let stdout = if stdout_piped {
            Some(Pipe::new(self.stdout_filter))
        } else {
            None
        };
        let stderr = if stderr_piped {
            Some(Pipe::new(self.stderr_filter))
        } else {
            None
        };
        (session, stdout, stderr)
    }
}

} // verus!
