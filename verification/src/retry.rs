//! Retry policy for the fetch step: exponential backoff with a per-attempt
//! delay ceiling and a total elapsed-time budget. A transport failure or a
//! non-success status is retryable; the visit is abandoned once the budget
//! is spent.

use vstd::prelude::*;

verus! {

/// How one fetch attempt ended: the transport failed outright, or a
/// response with the given status code came back.
#[derive(Clone, Copy, Debug, PartialEq, Eq)]
pub enum AttemptResult {
    TransportError,
    Status(u16),
}

/// What the scheduler does next after one fetch attempt.
#[derive(Clone, Copy, Debug, PartialEq, Eq)]
pub enum AttemptDecision {
    /// The attempt succeeded: materialize and dispatch.
    Proceed,
    /// Retryable failure with budget left: wait this many milliseconds,
    /// then send again.
    RetryAfter(u64),
    /// Retryable failure, budget spent: log the terminal error and abandon
    /// this visit.
    GiveUp,
}

/// Exponential-backoff configuration. Delays grow by the rational factor
/// `multiplier_num / multiplier_den`, never exceed `max_delay_ms`, and
/// retrying stops once the summed delays pass `max_elapsed_ms`.
#[derive(Clone, Copy, Debug, PartialEq, Eq)]
pub struct RetryPolicy {
    pub initial_delay_ms: u64,
    pub multiplier_num: u64,
    pub multiplier_den: u64,
    pub max_delay_ms: u64,
    pub max_elapsed_ms: u64,
}

/// Mutable per-visit retry progress: the delay the next retry would use,
/// and the delay time already spent.
#[derive(Clone, Copy, Debug, PartialEq, Eq)]
pub struct RetryState {
    pub next_delay_ms: u64,
    pub elapsed_ms: u64,
}

pub const MAX_DELAY_CEILING_MS: u64 = 0x1_0000_0000;
pub const MAX_MULTIPLIER: u64 = 1000;

impl RetryPolicy {
    /// Bounds under which the backoff arithmetic cannot overflow and
    /// retrying terminates: the growth factor is at least one, the first
    /// delay is positive (so every retry charges the budget and a visit
    /// that keeps failing gives up after finitely many attempts), and
    /// delays and the budget stay far below the range of the counters.
    pub open spec fn wf(&self) -> bool {
        &&& 0 < self.multiplier_den <= self.multiplier_num <= MAX_MULTIPLIER
        &&& 0 < self.initial_delay_ms <= self.max_delay_ms <= MAX_DELAY_CEILING_MS
        &&& self.max_elapsed_ms <= MAX_DELAY_CEILING_MS
    }

    /// The stock policy: half a second to start, delays growing by half
    /// each time up to one minute, and a total budget of fifteen minutes.
    pub fn standard() -> (r: RetryPolicy)
        ensures
            r.wf(),
            r.initial_delay_ms == 500,
            r.multiplier_num == 3,
            r.multiplier_den == 2,
            r.max_delay_ms == 60000,
            r.max_elapsed_ms == 900000,
    {
        RetryPolicy {
            initial_delay_ms: 500,
            multiplier_num: 3,
            multiplier_den: 2,
            max_delay_ms: 60000,
            max_elapsed_ms: 900000,
        }
    }
}

impl RetryState {
    /// The state a fresh visit starts from under `policy`.
    pub fn fresh(policy: &RetryPolicy) -> (r: RetryState)
        ensures
            r.next_delay_ms == policy.initial_delay_ms,
            r.elapsed_ms == 0,
    {
        RetryState { next_delay_ms: policy.initial_delay_ms, elapsed_ms: 0 }
    }

    /// The state's counters are within the policy's bounds.
    pub open spec fn wf(&self, policy: RetryPolicy) -> bool {
        &&& self.next_delay_ms <= policy.max_delay_ms
        &&& self.elapsed_ms <= policy.max_elapsed_ms + policy.max_delay_ms
    }
}

/// A fetch attempt succeeded when the transport delivered a response whose
/// status is in the success range; everything else is retryable.
pub open spec fn spec_attempt_succeeded(result: AttemptResult) -> bool {
    match result {
        AttemptResult::TransportError => false,
        AttemptResult::Status(code) => 200 <= code < 300,
    }
}

/// Classify one fetch attempt: transport errors and non-success statuses
/// are retryable, success-range statuses are not.
pub fn attempt_succeeded(result: &AttemptResult) -> (r: bool)
    ensures
        r == spec_attempt_succeeded(*result),
{
    match result {
        AttemptResult::TransportError => false,
        AttemptResult::Status(code) => 200 <= *code && *code < 300,
    }
}

/// The delay the next retry uses: the grown delay, capped by the policy's
/// per-attempt ceiling.
pub open spec fn spec_grown_delay(policy: RetryPolicy, delay: u64) -> u64
    recommends
        policy.wf(),
        delay <= policy.max_delay_ms,
{
    let grown = (delay * policy.multiplier_num) as int / policy.multiplier_den as int;
    if grown > policy.max_delay_ms {
        policy.max_delay_ms
    } else {
        grown as u64
    }
}

/// Law: under a well-formed policy the retry delay never shrinks, so every
/// retryable failure consumes at least the initial delay of the elapsed
/// budget and a visit that keeps failing gives up after finitely many
/// attempts, with exactly one terminal decision.
pub proof fn lemma_delay_never_shrinks(policy: RetryPolicy, delay: u64)
    requires
        policy.wf(),
        delay <= policy.max_delay_ms,
    ensures
        spec_grown_delay(policy, delay) >= delay,
{
    let num = policy.multiplier_num as int;
    let den = policy.multiplier_den as int;
    assert((delay * num) / den >= delay) by (nonlinear_arith)
        requires
            0 < den <= num,
            delay >= 0,
    ;
}

/// Decide what follows one fetch attempt. On success the state is left
/// alone and the visit proceeds to materialization. On a retryable failure
/// within budget, the attempt's delay is charged to the budget and the
/// next delay grows exponentially up to the ceiling; once the charged
/// delays pass the budget, the visit gives up.
pub fn on_attempt(policy: &RetryPolicy, state: &mut RetryState, result: &AttemptResult) -> (r:
    AttemptDecision)
    requires
        policy.wf(),
        old(state).wf(*policy),
    ensures
        final(state).wf(*policy),
        spec_attempt_succeeded(*result) ==> r == AttemptDecision::Proceed && *final(state) == *old(
            state,
        ),
        !spec_attempt_succeeded(*result) && old(state).elapsed_ms > policy.max_elapsed_ms ==> r
            == AttemptDecision::GiveUp && *final(state) == *old(state),
        !spec_attempt_succeeded(*result) && old(state).elapsed_ms <= policy.max_elapsed_ms ==> {
            &&& r == AttemptDecision::RetryAfter(old(state).next_delay_ms)
            &&& final(state).elapsed_ms == old(state).elapsed_ms + old(state).next_delay_ms
            &&& final(state).next_delay_ms == spec_grown_delay(*policy, old(state).next_delay_ms)
        },
{
    if attempt_succeeded(result) {
        AttemptDecision::Proceed
    } else if state.elapsed_ms > policy.max_elapsed_ms {
        AttemptDecision::GiveUp
    } else {
        let delay = state.next_delay_ms;
        state.elapsed_ms = state.elapsed_ms + delay;
        proof {
            assert(delay * policy.multiplier_num <= MAX_DELAY_CEILING_MS * MAX_MULTIPLIER)
                by (nonlinear_arith)
                requires
                    delay <= MAX_DELAY_CEILING_MS,
                    policy.multiplier_num <= MAX_MULTIPLIER,
            ;
        }
        let grown = (delay * policy.multiplier_num) / policy.multiplier_den;
        state.next_delay_ms = if grown > policy.max_delay_ms {
            policy.max_delay_ms
        } else {
            grown
        };
        AttemptDecision::RetryAfter(delay)
    }
}

} // verus!
