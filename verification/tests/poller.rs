use ci_cd_worker::poller::{poll_step, Poll, PollOutcome, PollPolicy, PollStep};

const HALF_SECOND_FOR_FIVE: PollPolicy = PollPolicy { interval_ms: 500, deadline_ms: 5000 };

/// Evaluates `condition` under `policy` with a clock that advances by `cost_ms` for each
/// evaluation and by the pause asked for. Returns the outcome, the number of pauses and the
/// time elapsed since the first evaluation when the wait ended.
fn wait(policy: PollPolicy, start_ms: u64, cost_ms: u64, mut condition: impl FnMut(u64) -> bool) -> (PollOutcome, u64, u64) {
    let mut poll = Poll::new(policy);
    let mut now = start_ms;
    let mut pauses = 0;
    let mut first = None;
    loop {
        let satisfied = condition(now);
        let at = now;
        first.get_or_insert(at);
        match poll.observe(at, satisfied) {
            PollStep::Done(outcome) => return (outcome, pauses, at - first.unwrap()),
            PollStep::Sleep(ms) => {
                pauses += 1;
                now += ms + cost_ms;
            }
        }
        assert!(pauses < 100_000);
    }
}

#[test]
fn standard_policy_is_half_a_second_for_five() {
    assert_eq!(PollPolicy::standard(), HALF_SECOND_FOR_FIVE);
}

#[test]
fn poll_step_converges_whenever_the_condition_holds() {
    for elapsed in [0, 1, 4999, 5000, 5001, u64::MAX] {
        assert_eq!(poll_step(HALF_SECOND_FOR_FIVE, elapsed, true), PollStep::Done(PollOutcome::Converged));
    }
}

#[test]
fn poll_step_times_out_at_the_deadline_and_not_before() {
    assert_eq!(poll_step(HALF_SECOND_FOR_FIVE, 0, false), PollStep::Sleep(500));
    assert_eq!(poll_step(HALF_SECOND_FOR_FIVE, 4999, false), PollStep::Sleep(500));
    assert_eq!(poll_step(HALF_SECOND_FOR_FIVE, 5000, false), PollStep::Done(PollOutcome::TimedOut));
    assert_eq!(poll_step(HALF_SECOND_FOR_FIVE, 9000, false), PollStep::Done(PollOutcome::TimedOut));
}

#[test]
fn poll_step_uses_the_interval_and_deadline_it_is_given() {
    let policy = PollPolicy { interval_ms: 20, deadline_ms: 70 };
    assert_eq!(poll_step(policy, 69, false), PollStep::Sleep(20));
    assert_eq!(poll_step(policy, 70, false), PollStep::Done(PollOutcome::TimedOut));
    let no_time = PollPolicy { interval_ms: 20, deadline_ms: 0 };
    assert_eq!(poll_step(no_time, 0, false), PollStep::Done(PollOutcome::TimedOut));
    assert_eq!(poll_step(no_time, 0, true), PollStep::Done(PollOutcome::Converged));
}

#[test]
fn always_true_converges_without_sleeping() {
    let (outcome, pauses, elapsed) = wait(HALF_SECOND_FOR_FIVE, 123_456, 3, |_| true);
    assert_eq!((outcome, pauses, elapsed), (PollOutcome::Converged, 0, 0));
}

#[test]
fn always_false_times_out_between_the_deadline_and_one_interval_later() {
    for (interval_ms, deadline_ms) in [(500, 5000), (500, 4900), (500, 5001), (7, 100), (1000, 1), (3, 0), (1, 10)] {
        let policy = PollPolicy { interval_ms, deadline_ms };
        let (outcome, pauses, elapsed) = wait(policy, 42, 0, |_| false);
        assert_eq!(outcome, PollOutcome::TimedOut);
        assert!(deadline_ms <= elapsed && elapsed < deadline_ms + interval_ms, "{policy:?}: {elapsed}");
        assert_eq!(pauses, (deadline_ms + interval_ms - 1) / interval_ms);
    }
}

#[test]
fn always_false_with_the_usual_policy_pauses_ten_times() {
    let (outcome, pauses, elapsed) = wait(HALF_SECOND_FOR_FIVE, 0, 0, |_| false);
    assert_eq!((outcome, pauses, elapsed), (PollOutcome::TimedOut, 10, 5000));
}

#[test]
fn a_slow_clock_never_times_out_early() {
    let (outcome, pauses, elapsed) = wait(HALF_SECOND_FOR_FIVE, 1_000, 7, |_| false);
    assert_eq!(outcome, PollOutcome::TimedOut);
    assert_eq!(pauses, 10);
    assert_eq!(elapsed, 5070);
}

#[test]
fn a_condition_that_comes_to_hold_converges() {
    let (outcome, pauses, elapsed) = wait(HALF_SECOND_FOR_FIVE, 10, 0, |now| now >= 1_200);
    assert_eq!((outcome, pauses, elapsed), (PollOutcome::Converged, 3, 1500));
}

#[test]
fn observe_counts_from_the_first_evaluation() {
    let mut poll = Poll::new(HALF_SECOND_FOR_FIVE);
    assert_eq!(poll.origin, None);
    assert_eq!(poll.observe(90_000, false), PollStep::Sleep(500));
    assert_eq!(poll.origin, Some(90_000));
    assert_eq!(poll.observe(94_999, false), PollStep::Sleep(500));
    assert_eq!(poll.origin, Some(90_000));
    assert_eq!(poll.observe(95_000, false), PollStep::Done(PollOutcome::TimedOut));
}

#[test]
fn observe_takes_a_clock_that_went_back_for_no_time_passed() {
    let mut poll = Poll { policy: HALF_SECOND_FOR_FIVE, origin: Some(10_000) };
    assert_eq!(poll.observe(9_000, false), PollStep::Sleep(500));
    assert_eq!(poll.origin, Some(10_000));
}
