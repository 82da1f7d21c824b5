use std::time::Duration;

use process_control::error::Error;
use process_control::unix::codes::Codes;
use process_control::unix::exit_status::ExitStatus;
use process_control::unix::exit_status::ExitStatusKind;
use process_control::unix::exit_status::StdStatus;
use process_control::unix::wait::check_result;
use process_control::unix::wait::is_interrupted;
use process_control::unix::wait::poll_step;
use process_control::unix::wait::run_with_time_limit;
use process_control::unix::wait::wait;
use process_control::unix::wait::Polled;
use process_control::unix::wait::ProcessInfo;
use process_control::unix::wait::Run;
use process_control::unix::wait::Waited;

fn exited(code: i32) -> ExitStatus {
    ExitStatus {
        value: code,
        kind: ExitStatusKind::Exited,
    }
}

#[test]
fn test_interrupted_query_is_repeated() {
    assert_eq!(Waited::Again, check_result(Err(Error::Os(libc::EINTR)), Codes::system()));
}

#[test]
fn test_query_failure_ends_the_wait() {
    assert_eq!(
        Waited::Done(Err(Error::Os(libc::ECHILD))),
        check_result(Err(Error::Os(libc::ECHILD)), Codes::system()),
    );
    assert_eq!(
        Waited::Done(Err(Error::Other)),
        check_result(Err(Error::Other), Codes::system()),
    );
}

#[test]
fn test_query_answer_is_classified() {
    assert_eq!(
        Waited::Done(Ok(exited(0))),
        check_result(Ok(ProcessInfo {
            si_code: libc::CLD_EXITED,
            si_status: 0,
        }), Codes::system()),
    );
    assert_eq!(
        Waited::Done(Ok(ExitStatus {
            value: libc::SIGKILL,
            kind: ExitStatusKind::Killed,
        })),
        check_result(Ok(ProcessInfo {
            si_code: libc::CLD_KILLED,
            si_status: libc::SIGKILL,
        }), Codes::system()),
    );
}

#[test]
fn test_run_without_time_limit_runs_at_once() {
    match run_with_time_limit(|| 17, None) {
        Run::Done(value) => assert_eq!(17, value),
        Run::Background(..) => panic!("the wait was not run"),
    }
}

#[test]
fn test_run_with_time_limit_hands_the_wait_back() {
    match run_with_time_limit(|| 17, Some(Duration::from_secs(2))) {
        Run::Done(_) => panic!("the wait was run at once"),
        Run::Background(run_fn, time_limit) => {
            assert_eq!(Duration::from_secs(2), time_limit);
            assert_eq!(17, run_fn());
        }
    }
}

#[test]
fn test_timeout_is_not_a_failure() {
    assert_eq!(Ok(None), wait(Ok(None)));
}

#[test]
fn test_wait_results() {
    assert_eq!(Ok(Some(exited(1))), wait(Ok(Some(Ok(exited(1))))));
    assert_eq!(Err(Error::Os(10)), wait(Ok(Some(Err(Error::Os(10))))));
    assert_eq!(Err(Error::Os(11)), wait(Err(Error::Os(11))));
}

#[test]
fn test_poll_step() {
    let status = StdStatus {
        code: Some(0),
        signal: None,
        core_dumped: false,
        stopped_signal: None,
        continued: false,
        raw: 0,
    };
    assert_eq!(Polled::Done(Err(Error::TimedOut)), poll_step(None, libc::EINTR));
    assert_eq!(Polled::Sleep, poll_step(Some(Ok(None)), libc::EINTR));
    assert_eq!(
        Polled::Again,
        poll_step(Some(Err(Error::Os(libc::EINTR))), libc::EINTR),
    );
    assert_eq!(
        Polled::Done(Err(Error::Os(libc::ECHILD))),
        poll_step(Some(Err(Error::Os(libc::ECHILD))), libc::EINTR),
    );
    assert_eq!(
        Polled::Done(Ok(exited(0))),
        poll_step(Some(Ok(Some(status))), libc::EINTR),
    );
}

#[test]
fn test_interruption_by_kind_or_number() {
    assert!(is_interrupted(Error::Interrupted, 4));
    assert!(is_interrupted(Error::Os(4), 4));
    assert!(is_interrupted(Error::Os(27), 27));
    assert!(!is_interrupted(Error::Os(4), 27));
    assert!(!is_interrupted(Error::WouldBlock, 4));
    assert!(!is_interrupted(Error::Other, 4));

    assert_eq!(
        Waited::Again,
        check_result(Err(Error::Interrupted), Codes::system()),
    );
    assert_eq!(Polled::Again, poll_step(Some(Err(Error::Interrupted)), 0));
    assert_eq!(
        Polled::Done(Err(Error::Os(libc::EINTR))),
        poll_step(Some(Err(Error::Os(libc::EINTR))), libc::EINTR + 1),
    );
}
