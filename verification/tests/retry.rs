use nget::error::NgetError;
use nget::retry::{
    abandon_message, attempt_notice, retry_notice, Retry, RetryAction, RetryEvent, RetryPhase,
    RetryPolicy,
};

fn policy(max_retries: u32) -> RetryPolicy {
    RetryPolicy { max_retries, delay_seconds: 5, verbose: false, quiet: false }
}

fn failure(n: u32) -> NgetError {
    NgetError::HttpRequest(format!("failure {}", n))
}

/// Runs a task against a remote that fails every time; returns the number
/// of attempts, the number of waits and the error given up with.
fn run_failing(policy: RetryPolicy) -> (u32, u32, NgetError, Retry) {
    let mut task = Retry::pending(policy);
    let mut attempts = 0;
    let mut waits = 0;
    let mut action = task.step(RetryEvent::Start);
    loop {
        match action {
            RetryAction::Attempt { number, announce } => {
                attempts += 1;
                assert_eq!(number, attempts);
                assert_eq!(announce, policy.verbose);
                action = task.step(RetryEvent::AttemptFailed(failure(number)));
            }
            RetryAction::Wait { seconds, failed_attempt, announce, error } => {
                waits += 1;
                assert_eq!(seconds, policy.delay_seconds);
                assert_eq!(failed_attempt, attempts);
                assert_eq!(announce, policy.verbose);
                assert_eq!(error.describe(), failure(attempts).describe());
                action = task.step(RetryEvent::DelayElapsed);
            }
            RetryAction::GiveUp { attempts: counted, show, error } => {
                assert_eq!(counted, attempts);
                assert_eq!(show, !policy.quiet);
                assert!(task.is_terminal());
                return (attempts, waits, error, task);
            }
            other => panic!("unexpected action: {:?}", other),
        }
    }
}

#[test]
fn three_retries_give_three_attempts() {
    let (attempts, waits, error, task) = run_failing(policy(3));
    assert_eq!(attempts, 3);
    assert_eq!(waits, 2);
    assert_eq!(task.phase, RetryPhase::Exhausted);
    assert_eq!(task.attempt, 3);
    assert_eq!(error.describe(), "HTTP request failed: failure 3");
}

#[test]
fn retry_bound_holds_for_many_limits() {
    for limit in 1..40 {
        let (attempts, waits, _, task) = run_failing(policy(limit));
        assert_eq!(attempts, limit);
        assert_eq!(waits, limit - 1);
        assert_eq!(task.attempt, limit);
    }
}

#[test]
fn one_retry_gives_one_attempt() {
    let (attempts, waits, _, _) = run_failing(policy(1));
    assert_eq!(attempts, 1);
    assert_eq!(waits, 0);
}

#[test]
fn no_retries_still_try_once() {
    let (attempts, waits, error, task) = run_failing(policy(0));
    assert_eq!(attempts, 1);
    assert_eq!(waits, 0);
    assert_eq!(task.phase, RetryPhase::Exhausted);
    assert_eq!(error.describe(), "HTTP request failed: failure 1");
}

#[test]
fn success_ends_the_task() {
    let mut task = Retry::pending(policy(3));
    assert_eq!(task.phase, RetryPhase::Pending);
    assert_eq!(task.attempt, 0);
    assert!(!task.is_terminal());
    assert!(matches!(
        task.step(RetryEvent::Start),
        RetryAction::Attempt { number: 1, announce: false }
    ));
    assert_eq!(task.phase, RetryPhase::Attempting);
    assert!(matches!(task.step(RetryEvent::AttemptSucceeded), RetryAction::Done));
    assert_eq!(task.phase, RetryPhase::Succeeded);
    assert_eq!(task.attempt, 1);
    assert!(task.is_terminal());
}

#[test]
fn success_after_a_failure() {
    let mut task = Retry::pending(policy(3));
    task.step(RetryEvent::Start);
    assert!(matches!(
        task.step(RetryEvent::AttemptFailed(failure(1))),
        RetryAction::Wait { seconds: 5, failed_attempt: 1, .. }
    ));
    assert_eq!(task.phase, RetryPhase::ScheduledRetry);
    assert!(matches!(
        task.step(RetryEvent::DelayElapsed),
        RetryAction::Attempt { number: 2, .. }
    ));
    assert!(matches!(task.step(RetryEvent::AttemptSucceeded), RetryAction::Done));
    assert_eq!(task.phase, RetryPhase::Succeeded);
    assert_eq!(task.attempt, 2);
}

#[test]
fn events_out_of_turn_are_refused() {
    let mut task = Retry::pending(policy(2));
    assert!(matches!(task.step(RetryEvent::DelayElapsed), RetryAction::Refuse));
    assert!(matches!(task.step(RetryEvent::AttemptSucceeded), RetryAction::Refuse));
    assert_eq!(task.phase, RetryPhase::Pending);
    task.step(RetryEvent::Start);
    assert!(matches!(task.step(RetryEvent::Start), RetryAction::Refuse));
    assert!(matches!(task.step(RetryEvent::DelayElapsed), RetryAction::Refuse));
    assert_eq!(task.phase, RetryPhase::Attempting);
    assert_eq!(task.attempt, 1);
    task.step(RetryEvent::AttemptSucceeded);
    assert!(matches!(task.step(RetryEvent::AttemptFailed(failure(9))), RetryAction::Refuse));
    assert!(matches!(task.step(RetryEvent::Start), RetryAction::Refuse));
    assert_eq!(task.phase, RetryPhase::Succeeded);
}

#[test]
fn verbose_and_quiet_reach_the_actions() {
    let loud = RetryPolicy { max_retries: 2, delay_seconds: 1, verbose: true, quiet: false };
    let mut task = Retry::pending(loud);
    assert!(matches!(task.step(RetryEvent::Start), RetryAction::Attempt { announce: true, .. }));
    assert!(matches!(
        task.step(RetryEvent::AttemptFailed(failure(1))),
        RetryAction::Wait { announce: true, seconds: 1, .. }
    ));
    task.step(RetryEvent::DelayElapsed);
    assert!(matches!(
        task.step(RetryEvent::AttemptFailed(failure(2))),
        RetryAction::GiveUp { show: true, attempts: 2, .. }
    ));

    let silent = RetryPolicy { max_retries: 1, delay_seconds: 1, verbose: false, quiet: true };
    let mut task = Retry::pending(silent);
    assert!(matches!(task.step(RetryEvent::Start), RetryAction::Attempt { announce: false, .. }));
    assert!(matches!(
        task.step(RetryEvent::AttemptFailed(failure(1))),
        RetryAction::GiveUp { show: false, attempts: 1, .. }
    ));
}

#[test]
fn largest_limit_does_not_overflow() {
    let mut task = Retry {
        phase: RetryPhase::ScheduledRetry,
        attempt: u32::MAX - 1,
        policy: policy(u32::MAX),
    };
    assert!(matches!(
        task.step(RetryEvent::DelayElapsed),
        RetryAction::Attempt { number: u32::MAX, .. }
    ));
    assert!(matches!(
        task.step(RetryEvent::AttemptFailed(failure(0))),
        RetryAction::GiveUp { attempts: u32::MAX, .. }
    ));
}

#[test]
fn notices_are_worded() {
    assert_eq!(
        attempt_notice(1, "http://example.com/f"),
        "Attempt 1 for URL: http://example.com/f"
    );
    assert_eq!(attempt_notice(12, "u"), "Attempt 12 for URL: u");
    assert_eq!(
        retry_notice(2, "http://example.com/f", &NgetError::HttpRequest("Unexpected status: 500".to_string())),
        "Attempt 2 failed for URL http://example.com/f: HTTP request failed: Unexpected status: 500. Retrying..."
    );
    assert_eq!(
        abandon_message("http://example.com/f", &NgetError::Unknown),
        "Failed to download http://example.com/f: Unknown error occurred."
    );
}
