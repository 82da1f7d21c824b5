//! What holds of every session, whatever the process does.

use vstd::prelude::*;
use crate::control::Action;
use crate::control::BufferView;
use crate::control::Phase;
use crate::control::Session;
use crate::control::WaitResult;
use crate::error::Error;
use crate::exit_status::ExitStatus;

verus! {

/// The result that is left once the cleaning up has come to `first` and
/// then `second`: the earlier failure counts, and only in a session with
/// strict errors.
pub open spec fn cleaned_up(
    strict_errors: bool,
    status: Option<ExitStatus>,
    first: WaitResult,
    second: WaitResult,
) -> WaitResult {
    if strict_errors && first.is_err() {
        Err(first.unwrap_err())
    } else if strict_errors && second.is_err() {
        Err(second.unwrap_err())
    } else {
        Ok(status)
    }
}

/// A session kills the process at one point only: when the wait has run
/// out of time, the session was asked to terminate the process then, and
/// another look has not found that the process has ended. A process that
/// finished in time, or whose session was not asked to, is never killed.
pub proof fn lemma_killed_only_after_timeout(
    session: Session,
    waited: WaitResult,
    looked: WaitResult,
)
    ensures
        session.advance(looked).pending() == Action::Terminate ==> {
            &&& session.phase == Phase::Rechecking
            &&& !(looked.is_ok() && looked.unwrap().is_some())
        },
        session.advance(waited).phase == Phase::Rechecking ==> {
            &&& session.phase == Phase::Waiting
            &&& session.terminate_for_timeout
            &&& waited == Ok::<Option<ExitStatus>, Error>(None)
        },
{
}

/// Once a session has consumed the status of its process, it sends no kill
/// any more: whatever process has the identifier by then is left alone.
pub proof fn lemma_no_kill_after_reap(session: Session, outcome: WaitResult)
    requires
        session.phase is Reaping || session.phase is Checking || session.phase is Joining
            || session.phase is Finished,
    ensures
        session.advance(outcome).pending() != Action::Terminate,
        session.advance(outcome).phase is Checking || session.advance(outcome).phase is Joining
            || session.advance(outcome).phase is Finished,
{
}

/// A session reaps the process only after it has killed it: the status is
/// consumed last, so that the process's identifier cannot pass to another
/// process before the kill.
pub proof fn lemma_reaped_only_after_kill(session: Session, outcome: WaitResult)
    ensures
        session.advance(outcome).pending() == Action::Reap ==> {
            &&& session.pending() == Action::Terminate
            &&& outcome.is_ok()
        },
{
}

/// A session closes standard input before anything else, and gets to the
/// wait with nothing decided if no status is there yet, the memory ceiling,
/// if any, can be set and the reader, if any, starts. The ceiling is set
/// before the reader is started, and the reader just before the wait.
pub proof fn lemma_wait_is_reached(
    options: BufferView,
    closed: WaitResult,
    peeked: WaitResult,
    limited: WaitResult,
    started: WaitResult,
)
    requires
        !(peeked.is_ok() && peeked.unwrap().is_some()),
        limited.is_ok(),
        started.is_ok(),
    ensures
        options.session().pending() == Action::CloseStdin,
        ({
            let looking = options.session().advance(closed);
            let looked = looking.advance(peeked);
            let limit_set = if options.memory_limit.is_some() {
                looked.advance(limited)
            } else {
                looked
            };
            let ready = if options.output.is_some() {
                limit_set.advance(started)
            } else {
                limit_set
            };
            &&& looking.pending() == Action::Peek
            &&& options.memory_limit.is_some() ==> looked.pending() == Action::Limit(
                options.memory_limit.unwrap(),
            )
            &&& options.output.is_some() ==> limit_set.pending() == Action::StartReader
            &&& ready == Session { phase: Phase::Waiting, ..options.session() }
            &&& ready.pending() == Action::Wait(options.time_limit)
        }),
{
}

/// A status that is already there when the session first looks is the
/// result: no ceiling is set, nothing is waited for and nothing is killed.
/// The pipes are still drained.
pub proof fn lemma_finished_before_wait(
    session: Session,
    status: ExitStatus,
    started: WaitResult,
    check: WaitResult,
    join: WaitResult,
)
    requires
        session.phase == Phase::Peeking,
        session.primary == Ok::<Option<ExitStatus>, Error>(None),
        session.cleanup.is_none(),
        started.is_ok(),
        join.is_ok(),
    ensures
        ({
            let found = session.advance(Ok(Some(status)));
            let result = cleaned_up(session.strict_errors, Some(status), check, check);
            &&& !session.capture ==> found.pending() == Action::Check
            &&& !session.capture ==> found.advance(check).pending() == Action::Finish(result)
            &&& session.capture ==> found.pending() == Action::StartReader
            &&& session.capture ==> found.advance(started).pending() == Action::Check
            &&& session.capture ==> found.advance(started).advance(check).pending()
                == Action::JoinReader
            &&& session.capture ==> found.advance(started).advance(check).advance(join).pending()
                == Action::Finish(result)
        }),
{
}

/// A process that finishes within the time limit is not killed, and its
/// status is the result of the wait. Only a failure of the reader, or a
/// failure of the last look at the status in a session with strict errors,
/// stands in its place.
pub proof fn lemma_finished_in_time(
    session: Session,
    status: ExitStatus,
    check: WaitResult,
    join: WaitResult,
)
    requires
        session.phase == Phase::Waiting,
        session.cleanup.is_none(),
    ensures
        ({
            let waited = session.advance(Ok(Some(status)));
            let checked = waited.advance(check);
            let result = cleaned_up(session.strict_errors, Some(status), check, check);
            &&& waited.pending() == Action::Check
            &&& !session.capture ==> checked.pending() == Action::Finish(result)
            &&& session.capture ==> checked.pending() == Action::JoinReader
            &&& session.capture ==> checked.advance(join).pending() == Action::Finish(
                if join.is_err() {
                    Err(join.unwrap_err())
                } else {
                    result
                },
            )
            &&& check.is_ok() ==> result == Ok::<Option<ExitStatus>, Error>(Some(status))
        }),
{
}

/// A process that runs out of time in a session that terminates it, and
/// is then found still running, is killed and then reaped, and the wait
/// yields no status. A failure to kill or to reap shows only in a session
/// with strict errors; after a kill that failed nothing is reaped.
pub proof fn lemma_timeout_terminates(
    session: Session,
    kill: WaitResult,
    reap: WaitResult,
    check: WaitResult,
)
    requires
        session.phase == Phase::Waiting,
        session.cleanup.is_none(),
        session.terminate_for_timeout,
    ensures
        ({
            let waited = session.advance(Ok(None));
            let killed = waited.advance(Ok(None)).advance(kill);
            &&& waited.pending() == Action::Peek
            &&& waited.advance(Ok(None)).pending() == Action::Terminate
            &&& kill.is_ok() ==> {
                &&& killed.pending() == Action::Reap
                &&& killed.advance(reap).pending() == Action::Check
                &&& killed.advance(reap).advance(check).pending() == Action::Finish(
                    cleaned_up(session.strict_errors, None, reap, check),
                )
            }
            &&& kill.is_err() ==> {
                &&& killed.pending() == Action::Check
                &&& killed.advance(check).pending() == Action::Finish(
                    cleaned_up(session.strict_errors, None, kill, check),
                )
            }
        }),
{
}

/// A process that runs out of time but is found to have ended when the
/// session looks again is not killed, and the wait still yields no status.
pub proof fn lemma_ended_in_the_meantime(session: Session, status: ExitStatus, check: WaitResult)
    requires
        session.phase == Phase::Waiting,
        session.cleanup.is_none(),
        session.terminate_for_timeout,
    ensures
        ({
            let looked = session.advance(Ok(None)).advance(Ok(Some(status)));
            &&& looked.pending() == Action::Check
            &&& looked.advance(check).pending() == Action::Finish(
                cleaned_up(session.strict_errors, None, check, check),
            )
        }),
{
}

/// A process that runs out of time in a session that does not terminate it
/// is left running: the wait yields no status and nothing is killed or
/// reaped.
pub proof fn lemma_timeout_leaves_running(session: Session, check: WaitResult)
    requires
        session.phase == Phase::Waiting,
        session.cleanup.is_none(),
        !session.terminate_for_timeout,
    ensures
        ({
            let waited = session.advance(Ok(None));
            &&& waited.pending() == Action::Check
            &&& waited.advance(check).pending() == Action::Finish(
                cleaned_up(session.strict_errors, None, check, check),
            )
        }),
{
}

/// A failure of the wait itself, of the memory ceiling or of the start of
/// the reader is the result of the wait, whatever the cleaning up comes to,
/// and the process is not killed.
pub proof fn lemma_failure_stands(session: Session, error: Error, check: WaitResult)
    requires
        session.phase is Waiting || session.phase is StartingReader || session.phase is Limiting,
    ensures
        session.advance(Err(error)).pending() == Action::Check,
        session.advance(Err(error)).advance(check).pending() == Action::Finish(Err(error)),
{
}

/// Without strict errors a failure to clean up never shows in the result.
pub proof fn lemma_cleanup_suppressed(session: Session)
    requires
        !session.strict_errors,
    ensures
        session.result() == session.primary,
{
}

/// While a session cleans up, a failure of the wait is never replaced by a
/// failure to clean up.
pub proof fn lemma_primary_failure_kept(session: Session, outcome: WaitResult)
    requires
        session.primary.is_err(),
        session.phase is Terminating || session.phase is Reaping || session.phase is Checking
            || session.phase is Finished,
    ensures
        session.advance(outcome).result() == session.result(),
        session.result() == session.primary,
{
}

/// The most steps that a session at `phase` still takes before its result
/// is known.
pub open spec fn steps_left(phase: Phase) -> nat {
    match phase {
        Phase::ClosingStdin => 10,
        Phase::Peeking => 9,
        Phase::Limiting(_) => 8,
        Phase::StartingReader => 7,
        Phase::Waiting => 6,
        Phase::Rechecking => 5,
        Phase::Terminating => 4,
        Phase::Reaping => 3,
        Phase::Checking => 2,
        Phase::Joining => 1,
        Phase::Finished => 0,
    }
}

/// Each step of a session that is not finished takes it closer to its
/// result, and a finished session stays as it is.
pub proof fn lemma_session_ends(session: Session, outcome: WaitResult)
    ensures
        session.phase != Phase::Finished ==> steps_left(session.advance(outcome).phase)
            < steps_left(session.phase),
        session.phase == Phase::Finished ==> session.advance(outcome) == session,
{
}

} // verus!
