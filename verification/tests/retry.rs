use gwipt::errors::CommitMessageError;
use gwipt::retry::backoff_delay_ms;
use gwipt::retry::decide_retry;
use gwipt::retry::run_retry_schedule;
use gwipt::retry::ReplyKind;
use gwipt::retry::RetryDecision;
use gwipt::retry::BASE_DELAY_MS;
use gwipt::retry::MAX_ATTEMPTS;

fn pad(mut replies: Vec<ReplyKind>) -> Vec<ReplyKind> {
    while replies.len() < MAX_ATTEMPTS as usize {
        replies.push(ReplyKind::Delivered);
    }
    replies
}

#[test]
fn backoff_doubles_and_adds_jitter() {
    assert_eq!(backoff_delay_ms(0, 0), 500);
    assert_eq!(backoff_delay_ms(0, 123), 623);
    assert_eq!(backoff_delay_ms(1, 0), 1000);
    assert_eq!(backoff_delay_ms(2, 2100), 2100);
    assert_eq!(backoff_delay_ms(3, 0), 4000);
    assert_eq!(backoff_delay_ms(4, 7999), 8000 + 7999);
    // Jitter wraps modulo the current base, so it never doubles the delay.
    assert_eq!(backoff_delay_ms(0, 1234), 500 + 234);
    assert_eq!(BASE_DELAY_MS, 500);
}

#[test]
fn only_rate_limiting_is_retried() {
    assert_eq!(decide_retry(0, 0, ReplyKind::Delivered), RetryDecision::Proceed);
    assert_eq!(decide_retry(0, 0, ReplyKind::RateLimited), RetryDecision::RetryAfter(500));
    assert_eq!(
        decide_retry(0, 0, ReplyKind::AuthFailed),
        RetryDecision::GiveUp(CommitMessageError::AuthFailure)
    );
    assert_eq!(
        decide_retry(0, 0, ReplyKind::TransportFailed),
        RetryDecision::GiveUp(CommitMessageError::ServiceFailure)
    );
    assert_eq!(
        decide_retry(MAX_ATTEMPTS - 1, 0, ReplyKind::RateLimited),
        RetryDecision::GiveUp(CommitMessageError::RateLimitExceeded)
    );
}

#[test]
fn n_rate_limits_then_success_makes_n_plus_one_attempts() {
    let replies = pad(vec![
        ReplyKind::RateLimited,
        ReplyKind::RateLimited,
        ReplyKind::RateLimited,
        ReplyKind::Delivered,
    ]);
    let jitters = vec![17, 401, 3, 0, 0, 0];
    let t = run_retry_schedule(&replies, &jitters);
    assert_eq!(t.attempts, 4);
    assert_eq!(t.outcome, Ok(()));
    assert_eq!(t.delays, vec![500 + 17, 1000 + 401, 2000 + 3]);
    for w in t.delays.windows(2) {
        assert!(w[0] <= w[1]);
    }
}

#[test]
fn non_rate_limit_failure_makes_one_attempt() {
    let t = run_retry_schedule(&pad(vec![ReplyKind::AuthFailed]), &vec![0; 6]);
    assert_eq!(t.attempts, 1);
    assert!(t.delays.is_empty());
    assert_eq!(t.outcome, Err(CommitMessageError::AuthFailure));

    let t = run_retry_schedule(&pad(vec![ReplyKind::TransportFailed]), &vec![0; 6]);
    assert_eq!(t.attempts, 1);
    assert_eq!(t.outcome, Err(CommitMessageError::ServiceFailure));
}

#[test]
fn rate_limiting_past_the_ceiling_gives_up() {
    let replies = vec![ReplyKind::RateLimited; MAX_ATTEMPTS as usize];
    let jitters = vec![9; MAX_ATTEMPTS as usize];
    let t = run_retry_schedule(&replies, &jitters);
    assert_eq!(t.attempts, MAX_ATTEMPTS);
    assert_eq!(t.outcome, Err(CommitMessageError::RateLimitExceeded));
    assert_eq!(t.delays.len(), MAX_ATTEMPTS as usize - 1);
    for w in t.delays.windows(2) {
        assert!(w[0] < w[1]);
    }
}

#[test]
fn immediate_success_makes_one_attempt() {
    let t = run_retry_schedule(&pad(vec![]), &vec![0; 6]);
    assert_eq!(t.attempts, 1);
    assert!(t.delays.is_empty());
    assert_eq!(t.outcome, Ok(()));
}
