//! Retry-until-satisfied-or-deadline decisions, free of clocks and sleeps.
//!
//! The caller evaluates its own condition and reads its own clock; this
//! module only decides, after each evaluation, whether the wait has
//! converged, has timed out, or goes on after another pause. It knows
//! nothing of what the condition checks.

use vstd::prelude::*;

verus! {

/// Result of waiting for a condition.
#[derive(Clone, Copy, Debug, PartialEq, Eq, Structural)]
pub enum PollOutcome {
    /// The condition was found to hold.
    Converged,
    /// The deadline passed while the condition still did not hold.
    TimedOut,
}

/// How long to pause between two evaluations of a condition and how long
/// to go on in all, both in milliseconds.
#[derive(Clone, Copy, Debug, PartialEq, Eq, Structural)]
pub struct PollPolicy {
    pub interval_ms: u64,
    pub deadline_ms: u64,
}

impl PollPolicy {
    /// The policy of the installation lock and of the service: an
    /// evaluation every half second, for five seconds.
    pub fn standard() -> (policy: PollPolicy)
        ensures
            policy == (PollPolicy { interval_ms: 500, deadline_ms: 5000 }),
    {
        PollPolicy { interval_ms: 500, deadline_ms: 5000 }
    }
}

/// What to do after one evaluation of the condition.
#[derive(Clone, Copy, Debug, PartialEq, Eq, Structural)]
pub enum PollStep {
    /// Stop waiting, with this outcome.
    Done(PollOutcome),
    /// Pause for this many milliseconds, then evaluate the condition again.
    Sleep(u64),
}

/// The decision after an evaluation made `elapsed_ms` after the first one
/// that found the condition `satisfied` or not: a condition that holds
/// ends the wait at once; one that does not ends it once the deadline has
/// been reached, and otherwise calls for a pause of one interval.
pub open spec fn poll_decision(policy: PollPolicy, elapsed_ms: int, satisfied: bool) -> PollStep {
    if satisfied {
        PollStep::Done(PollOutcome::Converged)
    } else if elapsed_ms >= policy.deadline_ms {
        PollStep::Done(PollOutcome::TimedOut)
    } else {
        PollStep::Sleep(policy.interval_ms)
    }
}

/// Decides how a wait goes on after one evaluation of its condition.
pub fn poll_step(policy: PollPolicy, elapsed_ms: u64, satisfied: bool) -> (step: PollStep)
    ensures
        step == poll_decision(policy, elapsed_ms as int, satisfied),
        satisfied <==> step == PollStep::Done(PollOutcome::Converged),
        step == PollStep::Done(PollOutcome::TimedOut) <==> !satisfied && elapsed_ms
            >= policy.deadline_ms,
{
    if satisfied {
        PollStep::Done(PollOutcome::Converged)
    } else if elapsed_ms >= policy.deadline_ms {
        PollStep::Done(PollOutcome::TimedOut)
    } else {
        PollStep::Sleep(policy.interval_ms)
    }
}

/// The time that has passed at `now_ms` since a wait's first evaluation at
/// `origin`; none where this is the first evaluation, or where the clock
/// reads less than it did then.
pub open spec fn elapsed_since(origin: Option<u64>, now_ms: u64) -> int {
    match origin {
        Some(first) if now_ms >= first => now_ms - first,
        _ => 0,
    }
}

/// The time of a wait's first evaluation, given that one is made now.
pub open spec fn origin_after(origin: Option<u64>, now_ms: u64) -> Option<u64> {
    match origin {
        Some(first) => Some(first),
        None => Some(now_ms),
    }
}

/// A wait in progress: its policy and the reading of the clock at its
/// first evaluation, once that has been made.
#[derive(Clone, Copy, Debug, PartialEq, Eq, Structural)]
pub struct Poll {
    pub policy: PollPolicy,
    pub origin: Option<u64>,
}

impl Poll {
    /// A wait that has not yet evaluated its condition.
    pub fn new(policy: PollPolicy) -> (poll: Poll)
        ensures
            poll == (Poll { policy, origin: None }),
    {
        Poll { policy, origin: None }
    }

    /// Takes note of an evaluation of the condition made when the clock
    /// read `now_ms`, and decides how the wait goes on. The first
    /// evaluation fixes the time from which the deadline counts.
    pub fn observe(&mut self, now_ms: u64, satisfied: bool) -> (step: PollStep)
        ensures
            step == poll_decision(
                old(self).policy,
                elapsed_since(old(self).origin, now_ms),
                satisfied,
            ),
            *final(self) == (Poll {
                policy: old(self).policy,
                origin: origin_after(old(self).origin, now_ms),
            }),
    {
        let elapsed = match self.origin {
            Some(first) => if now_ms >= first {
                now_ms - first
            } else {
                0
            },
            None => {
                self.origin = Some(now_ms);
                0
            },
        };
        poll_step(self.policy, elapsed, satisfied)
    }
}

/// The number of pauses after which a condition that never holds is given
/// up, where each pause lasts exactly one interval: the least number of
/// intervals that reach the deadline.
pub open spec fn pauses_until_timeout(policy: PollPolicy) -> int
    recommends
        policy.interval_ms > 0,
{
    (policy.deadline_ms + policy.interval_ms - 1) / (policy.interval_ms as int)
}

/// A condition that holds at the first evaluation ends the wait as
/// `Converged` with no pause at all.
pub proof fn lemma_satisfied_at_once_converges(policy: PollPolicy)
    ensures
        poll_decision(policy, 0, true) == PollStep::Done(PollOutcome::Converged),
{
}

/// A condition that never holds, evaluated after pauses of exactly one
/// interval each, is given up as `TimedOut` at the first evaluation made
/// at or after the deadline, and so less than one interval after it:
/// every earlier evaluation calls for another pause.
pub proof fn lemma_never_satisfied_times_out(policy: PollPolicy)
    requires
        policy.interval_ms > 0,
    ensures
        ({
            let n = pauses_until_timeout(policy);
            let interval = policy.interval_ms as int;
            &&& n >= 0
            &&& policy.deadline_ms <= n * interval < policy.deadline_ms + interval
            &&& poll_decision(policy, n * interval, false) == PollStep::Done(PollOutcome::TimedOut)
            &&& forall|k: int|
                0 <= k < n ==> #[trigger] poll_decision(policy, k * interval, false)
                    == PollStep::Sleep(policy.interval_ms)
        }),
{
    let n = pauses_until_timeout(policy);
    let interval = policy.interval_ms as int;
    let deadline = policy.deadline_ms as int;
    assert(n >= 0 && deadline <= n * interval < deadline + interval) by (nonlinear_arith)
        requires
            interval > 0,
            deadline >= 0,
            n == (deadline + interval - 1) / interval,
    ;
    assert forall|k: int| 0 <= k < n implies #[trigger] poll_decision(policy, k * interval, false)
        == PollStep::Sleep(policy.interval_ms) by {
        assert(k * interval < deadline) by (nonlinear_arith)
            requires
                interval > 0,
                0 <= k < n,
                n == (deadline + interval - 1) / interval,
        ;
    }
}

/// No wait is given up before its deadline: whatever the clock did, an
/// evaluation that ends the wait as `TimedOut` was made at or after it.
pub proof fn lemma_timeout_not_before_deadline(policy: PollPolicy, elapsed_ms: int, satisfied: bool)
    requires
        poll_decision(policy, elapsed_ms, satisfied) == PollStep::Done(PollOutcome::TimedOut),
    ensures
        elapsed_ms >= policy.deadline_ms,
        !satisfied,
{
}

} // verus!
