//! Bounded retry with exponential backoff for requests to the upstream API.
//! The caller performs each attempt and reports its outcome; the policy
//! decides whether to wait and try again, accept the response, or give up.
use crate::error::MonitorError;
use vstd::prelude::*;

verus! {

/// How often and how patiently a request is retried.
#[derive(Debug, Clone, Copy)]
pub struct RetryPolicy {
    pub max_attempts: usize,
    /// Delay before the first retry; it doubles after each retry.
    pub base_delay_ms: u64,
}

impl RetryPolicy {
    /// A policy; fails with `NoAttemptsAllowed` when `max_attempts` is 0.
    pub fn new(max_attempts: usize, base_delay_ms: u64) -> (r: Result<RetryPolicy, MonitorError>)
        ensures
            max_attempts == 0 ==> r == Err::<RetryPolicy, MonitorError>(
                MonitorError::NoAttemptsAllowed,
            ),
            max_attempts > 0 ==> (r matches Ok(p) && p.max_attempts == max_attempts
                && p.base_delay_ms == base_delay_ms),
    {
        if max_attempts == 0 {
            Err(MonitorError::NoAttemptsAllowed)
        } else {
            Ok(RetryPolicy { max_attempts, base_delay_ms })
        }
    }

    /// Three attempts, starting with a 500 ms delay.
    pub fn standard() -> (r: RetryPolicy)
        ensures
            r.max_attempts == 3,
            r.base_delay_ms == 500,
    {
        RetryPolicy { max_attempts: 3, base_delay_ms: 500 }
    }
}

/// What one attempt of a request came to.
#[derive(Debug, Clone)]
pub enum AttemptOutcome {
    /// The server answered with this status.
    Response { status: u16 },
    /// No answer: DNS, connection or timeout failure.
    TransportFailure { error: String },
}

/// What to do after an attempt.
#[derive(Debug, Clone, PartialEq, Eq)]
pub enum RetryDecision {
    /// Wait this long, then try again.
    RetryAfter { delay_ms: u64 },
    /// Hand the last response, with this status, to the caller.
    Accept { status: u16, attempts: usize },
    /// Stop with this error.
    Fail { error: MonitorError },
}

/// A 5xx status.
pub open spec fn is_server_error(status: u16) -> bool {
    500 <= status <= 599
}

/// `d` doubled, or `d` itself where doubling overflows.
pub open spec fn doubled(d: u64) -> u64 {
    if d * 2 <= u64::MAX {
        (d * 2) as u64
    } else {
        d
    }
}

/// The decision after attempt number `made + 1` of at most `max`, with
/// `delay` the current backoff: a server error is retried while attempts
/// remain, any other response is accepted; a transport failure is retried
/// while attempts remain, and otherwise ends in `RetrievalFailed`.
pub open spec fn decide(max: int, made: int, delay: u64, outcome: AttemptOutcome) -> RetryDecision {
    let n = made + 1;
    match outcome {
        AttemptOutcome::Response { status } => if is_server_error(status) && n < max {
            RetryDecision::RetryAfter { delay_ms: delay }
        } else {
            RetryDecision::Accept { status, attempts: n as usize }
        },
        AttemptOutcome::TransportFailure { error } => if n >= max {
            RetryDecision::Fail {
                error: MonitorError::RetrievalFailed { attempts: n as usize, last_error: error },
            }
        } else {
            RetryDecision::RetryAfter { delay_ms: delay }
        },
    }
}

/// Progress of one request under a policy.
#[derive(Debug, Clone, Copy)]
pub struct RetryState {
    /// Attempts made so far.
    pub attempts: usize,
    /// Delay before the next retry.
    pub delay_ms: u64,
}

impl RetryState {
    /// No attempt made yet.
    pub fn new(policy: &RetryPolicy) -> (r: RetryState)
        ensures
            r.attempts == 0,
            r.delay_ms == policy.base_delay_ms,
    {
        RetryState { attempts: 0, delay_ms: policy.base_delay_ms }
    }

    /// Records the outcome of the next attempt and decides what follows.
    pub fn record(&mut self, policy: &RetryPolicy, outcome: AttemptOutcome) -> (r: RetryDecision)
        requires
            old(self).attempts < policy.max_attempts,
        ensures
            r == decide(
                policy.max_attempts as int,
                old(self).attempts as int,
                old(self).delay_ms,
                outcome,
            ),
            final(self).attempts == old(self).attempts + 1,
            final(self).delay_ms == if r is RetryAfter {
                doubled(old(self).delay_ms)
            } else {
                old(self).delay_ms
            },
            r is RetryAfter ==> final(self).attempts < policy.max_attempts,
    {
        self.attempts = self.attempts + 1;
        let n = self.attempts;
        match outcome {
            AttemptOutcome::Response { status } => {
                if 500 <= status && status <= 599 && n < policy.max_attempts {
                    self.backoff()
                } else {
                    RetryDecision::Accept { status, attempts: n }
                }
            },
            AttemptOutcome::TransportFailure { error } => {
                if n >= policy.max_attempts {
                    RetryDecision::Fail {
                        error: MonitorError::RetrievalFailed { attempts: n, last_error: error },
                    }
                } else {
                    self.backoff()
                }
            },
        }
    }

    fn backoff(&mut self) -> (r: RetryDecision)
        ensures
            r == (RetryDecision::RetryAfter { delay_ms: old(self).delay_ms }),
            final(self).attempts == old(self).attempts,
            final(self).delay_ms == doubled(old(self).delay_ms),
    {
        let d = self.delay_ms;
        self.delay_ms = match d.checked_mul(2) {
            Some(x) => x,
            None => d,
        };
        RetryDecision::RetryAfter { delay_ms: d }
    }
}

/// The final decision for a request whose attempts come out as `outcomes`,
/// `made` attempts having been made before; `None` when the outcomes run out
/// while the policy still asks for another attempt.
pub open spec fn run_attempts(max: int, made: int, outcomes: Seq<AttemptOutcome>) -> Option<
    RetryDecision,
>
    decreases outcomes.len(),
{
    if outcomes.len() == 0 {
        None
    } else {
        let d = decide(max, made, 0, outcomes[0]);
        if d is RetryAfter {
            run_attempts(max, made + 1, outcomes.drop_first())
        } else {
            Some(d)
        }
    }
}

/// Server errors answering every attempt.
pub open spec fn server_errors(statuses: Seq<u16>) -> Seq<AttemptOutcome> {
    statuses.map_values(|s: u16| AttemptOutcome::Response { status: s })
}

/// Server errors on fewer than the allowed attempts, followed by any other
/// response: that response is accepted, after one attempt per server error
/// and one more.
pub proof fn lemma_retry_reaches_response(max: int, statuses: Seq<u16>, last: u16)
    requires
        forall|i: int| 0 <= i < statuses.len() ==> is_server_error(#[trigger] statuses[i]),
        !is_server_error(last),
        statuses.len() + 1 <= max <= usize::MAX,
    ensures
        run_attempts(max, 0, server_errors(statuses).push(AttemptOutcome::Response { status: last }))
            == Some(RetryDecision::Accept { status: last, attempts: (statuses.len() + 1) as usize }),
{
    lemma_run_after_errors(max, 0, statuses, AttemptOutcome::Response { status: last });
}

/// As many server errors as attempts allowed: the last of them is accepted
/// as the response, and no transport error is raised.
pub proof fn lemma_retry_exhausted_returns_last(max: int, statuses: Seq<u16>)
    requires
        forall|i: int| 0 <= i < statuses.len() ==> is_server_error(#[trigger] statuses[i]),
        statuses.len() == max,
        1 <= max <= usize::MAX,
    ensures
        run_attempts(max, 0, server_errors(statuses)) == Some(
            RetryDecision::Accept { status: statuses.last(), attempts: max as usize },
        ),
{
    let init = statuses.drop_last();
    assert(server_errors(statuses) == server_errors(init).push(
        AttemptOutcome::Response { status: statuses.last() },
    ));
    lemma_run_after_errors(max, 0, init, AttemptOutcome::Response { status: statuses.last() });
}

proof fn lemma_run_after_errors(max: int, made: int, statuses: Seq<u16>, last: AttemptOutcome)
    requires
        forall|i: int| 0 <= i < statuses.len() ==> is_server_error(#[trigger] statuses[i]),
        0 <= made,
        made + statuses.len() + 1 <= max,
    ensures
        !(decide(max, made + statuses.len(), 0, last) is RetryAfter) ==> run_attempts(
            max,
            made,
            server_errors(statuses).push(last),
        ) == Some(decide(max, made + statuses.len(), 0, last)),
    decreases statuses.len(),
{
    let seq = server_errors(statuses).push(last);
    if statuses.len() > 0 {
        let rest = statuses.drop_first();
        assert(seq.drop_first() == server_errors(rest).push(last));
        assert(is_server_error(statuses[0]));
        lemma_run_after_errors(max, made + 1, rest, last);
    } else {
        assert(seq.drop_first().len() == 0);
    }
}

} // verus!
