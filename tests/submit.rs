use ore_cli::freshness::FreshnessToken;
use ore_cli::submit::{start, Action, Event, Outcome, Phase, SubmitPolicy, DEFAULT_MAX_POLLS, DEFAULT_MAX_RETRIES};

fn token(b: u8, height: u64) -> FreshnessToken {
    FreshnessToken { hash: [b; 32], last_valid_block_height: height }
}

fn policy(max_retries: u64, max_polls: u64) -> SubmitPolicy {
    SubmitPolicy { max_retries, max_polls, poll_interval_ms: 0 }
}

#[test]
fn default_policy_values() {
    let p = SubmitPolicy::default_policy();
    assert_eq!(p.max_retries, DEFAULT_MAX_RETRIES);
    assert_eq!(p.max_polls, DEFAULT_MAX_POLLS);
}

#[test]
fn start_signs_with_given_token() {
    let (s, a) = start(policy(2, 5), token(1, 100));
    assert!(matches!(s.phase, Phase::Sending));
    assert!(matches!(a, Action::SignAndSend(t) if t.hash == [1u8; 32]));
}

#[test]
fn rejected_at_send_is_final() {
    let (mut s, _) = start(policy(2, 5), token(1, 100));
    let a = s.step(Event::SendRejected("simulation failed".to_string()));
    assert!(matches!(a, Action::Finish(Outcome::Rejected(ref r)) if r == "simulation failed"));
    assert!(s.is_done());
    assert!(matches!(s.step(Event::SendAccepted), Action::Wait));
}

#[test]
fn confirmed_after_polls() {
    let (mut s, _) = start(policy(2, 5), token(1, 100));
    assert!(matches!(s.step(Event::SendAccepted), Action::Poll));
    assert!(matches!(s.step(Event::Pending(90)), Action::Poll));
    let a = s.step(Event::Confirmed(vec![9, 9]));
    assert!(matches!(a, Action::Finish(Outcome::Confirmed(ref sig)) if sig == &vec![9u8, 9]));
    assert!(s.is_done());
}

#[test]
fn expired_token_is_retried_with_new_token() {
    let (mut s, _) = start(policy(2, 5), token(1, 100));
    s.step(Event::SendAccepted);
    assert!(matches!(s.step(Event::Pending(101)), Action::ReadToken));
    // the cache still holds the stale token: fetch from the node
    assert!(matches!(s.step(Event::TokenFetched(token(1, 100))), Action::FetchToken));
    let a = s.step(Event::TokenFetched(token(2, 200)));
    assert!(matches!(a, Action::SignAndSend(t) if t.hash == [2u8; 32] && t.last_valid_block_height == 200));
    assert_eq!(s.retries, 1);
    assert!(matches!(s.phase, Phase::Sending));
}

#[test]
fn expired_after_retry_budget() {
    let (mut s, _) = start(policy(1, 5), token(1, 100));
    s.step(Event::SendAccepted);
    assert!(matches!(s.step(Event::Pending(101)), Action::ReadToken));
    assert!(matches!(s.step(Event::TokenFetched(token(2, 200))), Action::SignAndSend(_)));
    s.step(Event::SendAccepted);
    let a = s.step(Event::Pending(201));
    assert!(matches!(a, Action::Finish(Outcome::Expired)));
    assert!(s.is_done());
    assert_eq!(s.retries, 1);
}

#[test]
fn no_retry_budget_expires_at_once() {
    let (mut s, _) = start(policy(0, 5), token(1, 100));
    s.step(Event::SendAccepted);
    assert!(matches!(s.step(Event::Pending(500)), Action::Finish(Outcome::Expired)));
}

#[test]
fn timed_out_without_confirmation() {
    let (mut s, _) = start(policy(2, 3), token(1, 100));
    s.step(Event::SendAccepted);
    assert!(matches!(s.step(Event::Pending(10)), Action::Poll));
    assert!(matches!(s.step(Event::Pending(11)), Action::Poll));
    assert!(matches!(s.step(Event::Pending(12)), Action::Finish(Outcome::TimedOut)));
}

#[test]
fn stale_tokens_exhaust_polls() {
    let (mut s, _) = start(policy(2, 2), token(1, 100));
    s.step(Event::SendAccepted);
    s.step(Event::Pending(101));
    assert!(matches!(s.step(Event::TokenFetched(token(1, 100))), Action::FetchToken));
    assert!(matches!(s.step(Event::TokenFetched(token(1, 100))), Action::Finish(Outcome::TimedOut)));
}

#[test]
fn unrelated_event_changes_nothing() {
    let (mut s, _) = start(policy(2, 5), token(1, 100));
    assert!(matches!(s.step(Event::Pending(3)), Action::Wait));
    assert!(matches!(s.phase, Phase::Sending));
    assert_eq!(s.polls, 0);
}

#[test]
fn failed_execution_is_rejected() {
    let (mut s, _) = start(policy(2, 5), token(1, 100));
    s.step(Event::SendAccepted);
    let a = s.step(Event::Failed("custom program error".to_string()));
    assert!(matches!(a, Action::Finish(Outcome::Rejected(ref r)) if r == "custom program error"));
    assert!(s.is_done());
}
