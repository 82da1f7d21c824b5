use std::time::Duration;

use process_control::control::Action;
use process_control::control::Buffer;
use process_control::control::Phase;
use process_control::control::Session;
use process_control::control::Streams;
use process_control::control::WaitResult;
use process_control::error::Error;
use process_control::exit_status::ExitStatus;
use process_control::unix::codes::Codes;
use process_control::unix::exit_status::ExitStatus as UnixStatus;

fn exited(code: i32) -> ExitStatus {
    ExitStatus::from_unix(UnixStatus::new(libc::CLD_EXITED, code, Codes::system()))
}

fn piped() -> Option<Streams> {
    Some(Streams {
        stdout: true,
        stderr: true,
    })
}

/// Feeds the outcomes to the session one by one and returns the actions
/// that it asked for, the first one included.
fn drive(session: &mut Session, outcomes: &[WaitResult]) -> Vec<Action> {
    let mut actions = vec![session.action()];
    for outcome in outcomes {
        session.next(*outcome);
        actions.push(session.action());
    }
    actions
}

#[test]
fn test_new_buffer_has_no_limits() {
    let (session, stdout, stderr) = Buffer::new(None).wait();
    assert_eq!(
        Session {
            capture: false,
            memory_limit: None,
            time_limit: None,
            strict_errors: false,
            terminate_for_timeout: false,
            phase: Phase::ClosingStdin,
            primary: Ok(None),
            cleanup: None,
        },
        session,
    );
    assert!(stdout.is_none());
    assert!(stderr.is_none());
}

#[test]
fn test_builder_sets_each_option() {
    let (session, _, _) = Buffer::new(None)
        .memory_limit(4096)
        .time_limit(Duration::from_secs(3))
        .strict_errors()
        .terminate_for_timeout()
        .wait();
    assert_eq!(Some(4096), session.memory_limit);
    assert_eq!(Some(Duration::from_secs(3)), session.time_limit);
    assert!(session.strict_errors);
    assert!(session.terminate_for_timeout);
    assert!(!session.capture);
}

#[test]
fn test_pipes_follow_the_streams() {
    let buffer = Buffer::new(Some(Streams {
        stdout: true,
        stderr: false,
    }));
    assert!(buffer.stdout_piped());
    assert!(!buffer.stderr_piped());
    let (session, stdout, stderr) = buffer.wait();
    assert!(session.capture);
    assert!(stdout.is_some());
    assert!(stderr.is_none());

    let buffer = Buffer::new(None);
    assert!(!buffer.stdout_piped());
    assert!(!buffer.stderr_piped());
}

#[test]
fn test_stdin_is_closed_before_the_wait() {
    let (mut session, _, _) = Buffer::new(None)
        .time_limit(Duration::from_secs(5))
        .wait();
    let actions = drive(
        &mut session,
        &[Ok(None), Ok(None), Ok(Some(exited(0))), Ok(Some(exited(0)))],
    );
    assert_eq!(
        vec![
            Action::CloseStdin,
            Action::Peek,
            Action::Wait(Some(Duration::from_secs(5))),
            Action::Check,
            Action::Finish(Ok(Some(exited(0)))),
        ],
        actions,
    );
    assert!(session.is_finished());
}

#[test]
fn test_full_session_with_output_and_memory_limit() {
    let (mut session, _, _) = Buffer::new(piped())
        .memory_limit(1 << 20)
        .time_limit(Duration::from_secs(1))
        .wait();
    let actions = drive(
        &mut session,
        &[
            Ok(None),
            Ok(None),
            Ok(None),
            Ok(None),
            Ok(Some(exited(3))),
            Ok(Some(exited(3))),
            Ok(None),
        ],
    );
    assert_eq!(
        vec![
            Action::CloseStdin,
            Action::Peek,
            Action::Limit(1 << 20),
            Action::StartReader,
            Action::Wait(Some(Duration::from_secs(1))),
            Action::Check,
            Action::JoinReader,
            Action::Finish(Ok(Some(exited(3)))),
        ],
        actions,
    );
}

#[test]
fn test_sleep_finishes_within_limit() {
    let (mut session, _, _) = Buffer::new(None)
        .time_limit(Duration::from_secs(5))
        .wait();
    let actions = drive(
        &mut session,
        &[Ok(None), Ok(None), Ok(Some(exited(0))), Ok(Some(exited(0)))],
    );
    let Some(Action::Finish(Ok(Some(status)))) = actions.last().copied() else {
        panic!("no status: {:?}", actions);
    };
    assert!(status.success());
    assert_eq!(Some(0), status.code());
    assert!(!actions.contains(&Action::Terminate));
    assert!(!actions.contains(&Action::Reap));
}

#[test]
fn test_timeout_terminates_and_reaps() {
    let (mut session, _, _) = Buffer::new(None)
        .time_limit(Duration::from_secs(1))
        .terminate_for_timeout()
        .wait();
    let actions = drive(
        &mut session,
        &[
            Ok(None),
            Ok(None),
            Ok(None),
            Ok(None),
            Ok(None),
            Ok(None),
            Ok(None),
        ],
    );
    assert_eq!(
        vec![
            Action::CloseStdin,
            Action::Peek,
            Action::Wait(Some(Duration::from_secs(1))),
            Action::Peek,
            Action::Terminate,
            Action::Reap,
            Action::Check,
            Action::Finish(Ok(None)),
        ],
        actions,
    );
}

#[test]
fn test_process_that_ended_after_the_timeout_is_not_killed() {
    let (mut session, _, _) = Buffer::new(None)
        .time_limit(Duration::from_secs(1))
        .terminate_for_timeout()
        .wait();
    let actions = drive(
        &mut session,
        &[
            Ok(None),
            Ok(None),
            Ok(None),
            Ok(Some(exited(0))),
            Ok(Some(exited(0))),
        ],
    );
    assert_eq!(
        vec![
            Action::CloseStdin,
            Action::Peek,
            Action::Wait(Some(Duration::from_secs(1))),
            Action::Peek,
            Action::Check,
            Action::Finish(Ok(None)),
        ],
        actions,
    );
}

#[test]
fn test_timeout_without_terminating_leaves_process() {
    let (mut session, _, _) = Buffer::new(piped())
        .time_limit(Duration::from_secs(1))
        .wait();
    let actions = drive(
        &mut session,
        &[Ok(None), Ok(None), Ok(None), Ok(None), Ok(None)],
    );
    assert_eq!(
        vec![
            Action::CloseStdin,
            Action::Peek,
            Action::StartReader,
            Action::Wait(Some(Duration::from_secs(1))),
            Action::Check,
            Action::Finish(Ok(None)),
        ],
        actions,
    );
}

#[test]
fn test_status_already_there_skips_limit_and_wait() {
    let (mut session, _, _) = Buffer::new(None)
        .memory_limit(1)
        .time_limit(Duration::ZERO)
        .terminate_for_timeout()
        .wait();
    let actions = drive(
        &mut session,
        &[Ok(None), Ok(Some(exited(0))), Ok(Some(exited(0)))],
    );
    assert_eq!(
        vec![
            Action::CloseStdin,
            Action::Peek,
            Action::Check,
            Action::Finish(Ok(Some(exited(0)))),
        ],
        actions,
    );
}

#[test]
fn test_failed_peek_counts_as_nothing_found() {
    let (mut session, _, _) = Buffer::new(None).wait();
    let actions = drive(&mut session, &[Ok(None), Err(Error::Os(10))]);
    assert_eq!(Some(&Action::Wait(None)), actions.last());
}

#[test]
fn test_memory_limit_failure_aborts_the_wait() {
    let (mut session, _, _) = Buffer::new(None)
        .memory_limit(7)
        .terminate_for_timeout()
        .wait();
    let actions = drive(
        &mut session,
        &[Ok(None), Ok(None), Err(Error::Os(1)), Ok(None)],
    );
    assert_eq!(
        vec![
            Action::CloseStdin,
            Action::Peek,
            Action::Limit(7),
            Action::Check,
            Action::Finish(Err(Error::Os(1))),
        ],
        actions,
    );
}

#[test]
fn test_wait_failure_is_returned_and_nothing_is_killed() {
    let (mut session, _, _) = Buffer::new(None)
        .terminate_for_timeout()
        .strict_errors()
        .wait();
    let actions = drive(
        &mut session,
        &[Ok(None), Ok(None), Err(Error::Os(10)), Err(Error::Os(3))],
    );
    assert_eq!(
        vec![
            Action::CloseStdin,
            Action::Peek,
            Action::Wait(None),
            Action::Check,
            Action::Finish(Err(Error::Os(10))),
        ],
        actions,
    );
}

#[test]
fn test_reader_start_failure_is_returned() {
    let (mut session, _, _) = Buffer::new(piped()).wait();
    let actions = drive(
        &mut session,
        &[Ok(None), Ok(None), Err(Error::Os(11)), Ok(None)],
    );
    assert_eq!(
        vec![
            Action::CloseStdin,
            Action::Peek,
            Action::StartReader,
            Action::Check,
            Action::Finish(Err(Error::Os(11))),
        ],
        actions,
    );
}

#[test]
fn test_status_already_there_still_drains_the_pipes() {
    let (mut session, _, _) = Buffer::new(piped())
        .memory_limit(1)
        .time_limit(Duration::ZERO)
        .wait();
    let actions = drive(
        &mut session,
        &[
            Ok(None),
            Ok(Some(exited(0))),
            Ok(None),
            Ok(Some(exited(0))),
            Ok(None),
        ],
    );
    assert_eq!(
        vec![
            Action::CloseStdin,
            Action::Peek,
            Action::StartReader,
            Action::Check,
            Action::JoinReader,
            Action::Finish(Ok(Some(exited(0)))),
        ],
        actions,
    );
}

#[test]
fn test_memory_limit_failure_starts_no_reader() {
    let (mut session, _, _) = Buffer::new(piped()).memory_limit(7).wait();
    let actions = drive(
        &mut session,
        &[Ok(None), Ok(None), Err(Error::Os(22)), Ok(None)],
    );
    assert_eq!(
        vec![
            Action::CloseStdin,
            Action::Peek,
            Action::Limit(7),
            Action::Check,
            Action::Finish(Err(Error::Os(22))),
        ],
        actions,
    );
}

#[test]
fn test_reader_failure_replaces_status() {
    let (mut session, _, _) = Buffer::new(piped()).wait();
    let actions = drive(
        &mut session,
        &[
            Ok(None),
            Ok(None),
            Ok(None),
            Ok(Some(exited(0))),
            Ok(None),
            Err(Error::Other),
        ],
    );
    assert_eq!(Some(&Action::Finish(Err(Error::Other))), actions.last());
}

#[test]
fn test_cleanup_failure_is_suppressed_by_default() {
    let (mut session, _, _) = Buffer::new(None)
        .time_limit(Duration::from_secs(1))
        .terminate_for_timeout()
        .wait();
    let actions = drive(
        &mut session,
        &[
            Ok(None),
            Ok(None),
            Ok(None),
            Ok(None),
            Err(Error::NotFound),
            Err(Error::Os(10)),
        ],
    );
    assert_eq!(
        vec![
            Action::CloseStdin,
            Action::Peek,
            Action::Wait(Some(Duration::from_secs(1))),
            Action::Peek,
            Action::Terminate,
            Action::Check,
            Action::Finish(Ok(None)),
        ],
        actions,
    );
    assert_eq!(Some(Error::NotFound), session.cleanup);
}

#[test]
fn test_strict_errors_reports_first_cleanup_failure() {
    let (mut session, _, _) = Buffer::new(None)
        .time_limit(Duration::from_secs(1))
        .terminate_for_timeout()
        .strict_errors()
        .wait();
    let actions = drive(
        &mut session,
        &[
            Ok(None),
            Ok(None),
            Ok(None),
            Ok(None),
            Ok(None),
            Err(Error::Os(10)),
            Err(Error::Os(4)),
        ],
    );
    assert_eq!(
        vec![
            Action::CloseStdin,
            Action::Peek,
            Action::Wait(Some(Duration::from_secs(1))),
            Action::Peek,
            Action::Terminate,
            Action::Reap,
            Action::Check,
            Action::Finish(Err(Error::Os(10))),
        ],
        actions,
    );
}

#[test]
fn test_strict_errors_reports_failed_last_check() {
    let (mut session, _, _) = Buffer::new(None).strict_errors().wait();
    let actions = drive(
        &mut session,
        &[
            Ok(None),
            Ok(None),
            Ok(Some(exited(0))),
            Err(Error::Os(10)),
        ],
    );
    assert_eq!(Some(&Action::Finish(Err(Error::Os(10)))), actions.last());

    let (mut session, _, _) = Buffer::new(None).wait();
    let actions = drive(
        &mut session,
        &[
            Ok(None),
            Ok(None),
            Ok(Some(exited(0))),
            Err(Error::Os(10)),
        ],
    );
    assert_eq!(Some(&Action::Finish(Ok(Some(exited(0))))), actions.last());
}

#[test]
fn test_finished_session_stays_finished() {
    let (mut session, _, _) = Buffer::new(None).wait();
    let _ = drive(
        &mut session,
        &[Ok(None), Ok(None), Ok(Some(exited(2))), Ok(None)],
    );
    assert!(session.is_finished());
    let before = session;
    session.next(Err(Error::Other));
    assert_eq!(before, session);
    assert_eq!(Ok(Some(exited(2))), session.outcome());
}
