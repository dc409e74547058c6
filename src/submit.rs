use vstd::prelude::*;
use crate::freshness::FreshnessToken;

verus! {

/// How many times an expired transaction is rebuilt with a new token.
pub const DEFAULT_MAX_RETRIES: u64 = 3;

/// How many confirmation polls, or token fetches, one attempt may make.
pub const DEFAULT_MAX_POLLS: u64 = 30;

/// Time between two confirmation polls, in milliseconds.
pub const DEFAULT_POLL_INTERVAL_MS: u64 = 1000;

/// The bounds of one submission.
#[derive(Clone, Copy, Debug)]
pub struct SubmitPolicy {
    pub max_retries: u64,
    pub max_polls: u64,
    pub poll_interval_ms: u64,
}

impl SubmitPolicy {
    pub fn default_policy() -> (r: SubmitPolicy)
        ensures
            r.max_retries == DEFAULT_MAX_RETRIES,
            r.max_polls == DEFAULT_MAX_POLLS,
            r.poll_interval_ms == DEFAULT_POLL_INTERVAL_MS,
    {
        SubmitPolicy {
            max_retries: DEFAULT_MAX_RETRIES,
            max_polls: DEFAULT_MAX_POLLS,
            poll_interval_ms: DEFAULT_POLL_INTERVAL_MS,
        }
    }
}

/// How a transaction is sent: without the node's simulation, and confirmed
/// at the finalized rather than the confirmed level.
#[derive(Clone, Copy, Debug)]
pub struct SubmitOptions {
    pub skip_preflight: bool,
    pub finalized: bool,
}

/// The terminal result of a submission.
#[derive(Debug)]
pub enum Outcome {
    /// Confirmed, with the transaction's signature.
    Confirmed(Vec<u8>),
    /// Refused by the node at send time, with its reason; never retried.
    Rejected(String),
    /// The token expired on every attempt the policy allows.
    Expired,
    /// The node never confirmed within the polling budget.
    TimedOut,
}

#[derive(Clone, Copy, Debug)]
pub enum Phase {
    /// Waiting for the node to accept or refuse the signed transaction.
    Sending,
    /// Waiting for confirmation.
    Polling,
    /// The token expired: waiting for a newer one.
    Refreshing,
    Done,
}

/// What the driver of a submission observed.
#[derive(Debug)]
pub enum Event {
    SendRejected(String),
    SendAccepted,
    /// Confirmed at the requested level, with the signature.
    Confirmed(Vec<u8>),
    /// Included in the ledger, but its execution failed, with the reason.
    Failed(String),
    /// Not confirmed yet; the ledger is at this block height.
    Pending(u64),
    /// A token read from the cache, or fetched from the node.
    TokenFetched(FreshnessToken),
}

/// What the driver of a submission has to do next.
#[derive(Debug)]
pub enum Action {
    /// Attach this token to the instructions, sign, and send.
    SignAndSend(FreshnessToken),
    /// Ask the node for the signature's status after one poll interval.
    Poll,
    /// Read the current token from the cache.
    ReadToken,
    /// The cache holds nothing newer than the expired token: fetch one from
    /// the node synchronously.
    FetchToken,
    Finish(Outcome),
    /// The event did not belong to the current phase: nothing to do.
    Wait,
}

/// One submission in flight.
#[derive(Clone, Copy, Debug)]
pub struct Submission {
    pub policy: SubmitPolicy,
    /// Rebuilds done so far after expiries.
    pub retries: u64,
    /// Polls, or stale token fetches, of the current attempt.
    pub polls: u64,
    /// The token of the current attempt.
    pub token: FreshnessToken,
    pub phase: Phase,
}

impl Submission {
    pub open spec fn wf(self) -> bool {
        &&& self.retries <= self.policy.max_retries
        &&& self.polls <= self.policy.max_polls
        &&& (self.phase == Phase::Refreshing ==> self.retries < self.policy.max_retries)
    }
}

/// The submission that a step leads to, and what the driver does next.
pub open spec fn next(s: Submission, ev: Event) -> (Submission, Action) {
    match s.phase {
        Phase::Sending => match ev {
            Event::SendRejected(reason) => (
                Submission { phase: Phase::Done, ..s },
                Action::Finish(Outcome::Rejected(reason)),
            ),
            Event::SendAccepted => (Submission { phase: Phase::Polling, polls: 0, ..s }, Action::Poll),
            _ => (s, Action::Wait),
        },
        Phase::Polling => match ev {
            Event::Confirmed(sig) => (
                Submission { phase: Phase::Done, ..s },
                Action::Finish(Outcome::Confirmed(sig)),
            ),
            Event::Failed(reason) => (
                Submission { phase: Phase::Done, ..s },
                Action::Finish(Outcome::Rejected(reason)),
            ),
            Event::Pending(height) => {
                if s.token.expired_at(height) {
                    if s.retries < s.policy.max_retries {
                        (Submission { phase: Phase::Refreshing, polls: 0, ..s }, Action::ReadToken)
                    } else {
                        (Submission { phase: Phase::Done, ..s }, Action::Finish(Outcome::Expired))
                    }
                } else if s.polls + 1 >= s.policy.max_polls {
                    (Submission { phase: Phase::Done, ..s }, Action::Finish(Outcome::TimedOut))
                } else {
                    (Submission { polls: (s.polls + 1) as u64, ..s }, Action::Poll)
                }
            },
            _ => (s, Action::Wait),
        },
        Phase::Refreshing => match ev {
            Event::TokenFetched(t) => {
                if t.same_hash(s.token) {
                    if s.polls + 1 >= s.policy.max_polls {
                        (Submission { phase: Phase::Done, ..s }, Action::Finish(Outcome::TimedOut))
                    } else {
                        (Submission { polls: (s.polls + 1) as u64, ..s }, Action::FetchToken)
                    }
                } else {
                    (
                        Submission {
                            phase: Phase::Sending,
                            retries: (s.retries + 1) as u64,
                            polls: 0,
                            token: t,
                            ..s
                        },
                        Action::SignAndSend(t),
                    )
                }
            },
            _ => (s, Action::Wait),
        },
        Phase::Done => (s, Action::Wait),
    }
}

/// Starts a submission with the token read from the cache.
pub fn start(policy: SubmitPolicy, token: FreshnessToken) -> (r: (Submission, Action))
    ensures
        r.0.wf(),
        r.0.policy == policy,
        r.0.phase == Phase::Sending,
        r.0.retries == 0,
        r.0.polls == 0,
        r.0.token == token,
        r.1 == Action::SignAndSend(token),
{
    (Submission { policy, retries: 0, polls: 0, token, phase: Phase::Sending }, Action::SignAndSend(token))
}

impl Submission {
    pub fn is_done(&self) -> (r: bool)
        ensures
            r == (self.phase == Phase::Done),
    {
        match self.phase {
            Phase::Done => true,
            _ => false,
        }
    }

    /// Takes in one observed event and says what to do next.
    pub fn step(&mut self, ev: Event) -> (a: Action)
        requires
            old(self).wf(),
        ensures
            (*final(self), a) == next(*old(self), ev),
            final(self).wf(),
    {
        let s = *self;
        match s.phase {
            Phase::Sending => match ev {
                Event::SendRejected(reason) => {
                    self.phase = Phase::Done;
                    Action::Finish(Outcome::Rejected(reason))
                },
                Event::SendAccepted => {
                    self.phase = Phase::Polling;
                    self.polls = 0;
                    Action::Poll
                },
                _ => Action::Wait,
            },
            Phase::Polling => match ev {
                Event::Confirmed(sig) => {
                    self.phase = Phase::Done;
                    Action::Finish(Outcome::Confirmed(sig))
                },
                Event::Failed(reason) => {
                    self.phase = Phase::Done;
                    Action::Finish(Outcome::Rejected(reason))
                },
                Event::Pending(height) => {
                    if s.token.is_expired_at(height) {
                        if s.retries < s.policy.max_retries {
                            self.phase = Phase::Refreshing;
                            self.polls = 0;
                            Action::ReadToken
                        } else {
                            self.phase = Phase::Done;
                            Action::Finish(Outcome::Expired)
                        }
                    } else if s.policy.max_polls == 0 || s.polls >= s.policy.max_polls - 1 {
                        self.phase = Phase::Done;
                        Action::Finish(Outcome::TimedOut)
                    } else {
                        self.polls = s.polls + 1;
                        Action::Poll
                    }
                },
                _ => Action::Wait,
            },
            Phase::Refreshing => match ev {
                Event::TokenFetched(t) => {
                    if t.has_same_hash(&s.token) {
                        if s.policy.max_polls == 0 || s.polls >= s.policy.max_polls - 1 {
                            self.phase = Phase::Done;
                            Action::Finish(Outcome::TimedOut)
                        } else {
                            self.polls = s.polls + 1;
                            Action::FetchToken
                        }
                    } else {
                        self.phase = Phase::Sending;
                        self.retries = s.retries + 1;
                        self.polls = 0;
                        self.token = t;
                        Action::SignAndSend(t)
                    }
                },
                _ => Action::Wait,
            },
            Phase::Done => Action::Wait,
        }
    }
}

/// The submission and the actions after a run of events.
pub open spec fn run(s: Submission, evs: Seq<Event>) -> (Submission, Seq<Action>)
    decreases evs.len(),
{
    if evs.len() == 0 {
        (s, Seq::empty())
    } else {
        let prev = run(s, evs.drop_last());
        let step = next(prev.0, evs.last());
        (step.0, prev.1.push(step.1))
    }
}

/// How many of the actions sign and send a transaction.
pub open spec fn count_sends(acts: Seq<Action>) -> nat
    decreases acts.len(),
{
    if acts.len() == 0 {
        0
    } else {
        count_sends(acts.drop_last()) + if acts.last() is SignAndSend { 1nat } else { 0nat }
    }
}

/// One step keeps the policy, and adds a retry exactly when it sends again.
pub proof fn lemma_step_counts_retries(s: Submission, ev: Event)
    requires
        s.wf(),
    ensures
        next(s, ev).0.wf(),
        next(s, ev).0.policy == s.policy,
        next(s, ev).0.retries == s.retries + if next(s, ev).1 is SignAndSend { 1int } else { 0int },
{
}

/// Over any run of events a submission sends again only within its retry
/// budget: the resends are exactly the retries taken, and these never
/// exceed the policy's bound.
pub proof fn lemma_run_within_retry_budget(s: Submission, evs: Seq<Event>)
    requires
        s.wf(),
    ensures
        run(s, evs).0.wf(),
        run(s, evs).0.policy == s.policy,
        count_sends(run(s, evs).1) == run(s, evs).0.retries - s.retries,
        count_sends(run(s, evs).1) <= s.policy.max_retries,
    decreases evs.len(),
{
    if evs.len() > 0 {
        lemma_run_within_retry_budget(s, evs.drop_last());
        let prev = run(s, evs.drop_last());
        lemma_step_counts_retries(prev.0, evs.last());
        assert(run(s, evs).1.drop_last() =~= prev.1);
    }
}

/// An attempt whose token expired is retried with the token fetched next,
/// and only when that token differs from the expired one.
pub proof fn lemma_expired_attempt_uses_new_token(s: Submission, height: u64, fetched: FreshnessToken)
    requires
        s.wf(),
        s.phase == Phase::Polling,
        s.token.expired_at(height),
        s.retries < s.policy.max_retries,
    ensures
        next(s, Event::Pending(height)).1 == Action::ReadToken,
        ({
            let s1 = next(s, Event::Pending(height)).0;
            let a2 = next(s1, Event::TokenFetched(fetched)).1;
            &&& (a2 is SignAndSend ==> a2 == Action::SignAndSend(fetched) && !fetched.same_hash(s.token))
            &&& (!fetched.same_hash(s.token) ==> a2 == Action::SignAndSend(fetched))
        }),
{
}

/// Once the retry budget is spent, an expiry ends the submission as expired.
pub proof fn lemma_expiry_past_budget_is_final(s: Submission, height: u64)
    requires
        s.wf(),
        s.phase == Phase::Polling,
        s.token.expired_at(height),
        s.retries == s.policy.max_retries,
    ensures
        next(s, Event::Pending(height)).0.phase == Phase::Done,
        next(s, Event::Pending(height)).1 == Action::Finish(Outcome::Expired),
{
}

} // verus!
