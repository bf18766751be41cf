use vstd::prelude::*;

use crate::model::{
    check_transition, verdict, CheckStep, NodeCheckStrategy, NodeModel, NodeStatus,
    ProbeOutcome,
};
use crate::text::is_substring;

verus! {

/// A transport failure makes a target down, whatever its strategy.
pub proof fn lemma_transport_error_is_down(strategy: NodeCheckStrategy)
    ensures
        verdict(strategy, ProbeOutcome::TransportError) == NodeStatus::Down,
{
}

/// Under the status-code strategy an answer is healthy exactly when its code
/// lies in `200..=399`, and down otherwise.
pub proof fn lemma_status_code_rule(status_code: u16, body: Option<String>)
    ensures
        verdict(NodeCheckStrategy::StatusCode, ProbeOutcome::Response { status_code, body })
            == if 200 <= status_code <= 399 {
            NodeStatus::Healthy
        } else {
            NodeStatus::Down
        },
{
}

/// Under the body-content strategy an answer whose text was read is healthy
/// exactly when the pattern occurs in it, and down otherwise; an answer whose
/// text could not be read is down.
pub proof fn lemma_body_contains_rule(pattern: String, status_code: u16, body: Option<String>)
    ensures
        verdict(NodeCheckStrategy::BodyContains(pattern), ProbeOutcome::Response { status_code, body })
            == match body {
            Some(text) => if is_substring(pattern@, text@) {
                NodeStatus::Healthy
            } else {
                NodeStatus::Down
            },
            None => NodeStatus::Down,
        },
{
}

/// Status requests keep a target's probe interval.
proof fn lemma_interval_kept(states: Seq<NodeModel>, times: Seq<u64>, steps: Seq<CheckStep>, k: int)
    requires
        steps.len() == times.len(),
        states.len() == times.len() + 1,
        forall|i: int|
            0 <= i < steps.len() ==> check_transition(states[i], times[i], states[i + 1], #[trigger] steps[i]),
        0 <= k <= steps.len(),
    ensures
        states[k].interval == states[0].interval,
    decreases k,
{
    if k > 0 {
        lemma_interval_kept(states, times, steps, k - 1);
        assert(check_transition(states[k - 1], times[k - 1], states[k], steps[k - 1]));
    }
}

proof fn lemma_cached_after_probe(
    states: Seq<NodeModel>,
    times: Seq<u64>,
    steps: Seq<CheckStep>,
    j: int,
    k: int,
)
    requires
        steps.len() == times.len(),
        states.len() == times.len() + 1,
        forall|i: int|
            0 <= i < steps.len() ==> check_transition(states[i], times[i], states[i + 1], #[trigger] steps[i]),
        forall|i: int| 0 <= i < times.len() - 1 ==> #[trigger] times[i] <= times[i + 1],
        times.len() > 0 ==> times[times.len() - 1] - times[0] < states[0].interval,
        0 <= j < k < steps.len(),
        steps[j] is Probe,
    ensures
        states[k] == states[j + 1],
        steps[k] == CheckStep::Cached(NodeStatus::Processing),
    decreases k - j,
{
    assert(check_transition(states[j], times[j], states[j + 1], steps[j]));
    lemma_interval_kept(states, times, steps, j);
    if k > j + 1 {
        lemma_cached_after_probe(states, times, steps, j, k - 1);
        assert(check_transition(states[k - 1], times[k - 1], states[k], steps[k - 1]));
    }
    lemma_times_ordered(times, j, k);
    lemma_times_ordered(times, 0, j);
    lemma_times_ordered(times, k, times.len() - 1);
    assert(check_transition(states[k], times[k], states[k + 1], steps[k]));
}

proof fn lemma_times_ordered(times: Seq<u64>, a: int, b: int)
    requires
        forall|i: int| 0 <= i < times.len() - 1 ==> #[trigger] times[i] <= times[i + 1],
        0 <= a <= b < times.len(),
    ensures
        times[a] <= times[b],
    decreases b - a,
{
    if a < b {
        lemma_times_ordered(times, a, b - 1);
    }
}

/// Status requests for one target that all fall within one probe interval
/// (taken from the first of them, at non-decreasing times) make at most one
/// network call: once one of them has started a probe, every later one
/// answers `Processing` from the cache without probing. So the first request
/// to a due target probes, and no other does.
pub proof fn lemma_one_probe_per_window(
    states: Seq<NodeModel>,
    times: Seq<u64>,
    steps: Seq<CheckStep>,
)
    requires
        steps.len() == times.len(),
        states.len() == times.len() + 1,
        forall|i: int|
            0 <= i < steps.len() ==> check_transition(states[i], times[i], states[i + 1], #[trigger] steps[i]),
        forall|i: int| 0 <= i < times.len() - 1 ==> #[trigger] times[i] <= times[i + 1],
        times.len() > 0 ==> times[times.len() - 1] - times[0] < states[0].interval,
    ensures
        forall|j: int, k: int|
            0 <= j < k < steps.len() && #[trigger] steps[j] is Probe ==> #[trigger] steps[k]
                == CheckStep::Cached(NodeStatus::Processing),
        steps.len() > 0 && states[0].is_due(times[0]) ==> steps[0] is Probe,
{
    assert forall|j: int, k: int|
        0 <= j < k < steps.len() && #[trigger] steps[j] is Probe implies #[trigger] steps[k]
            == CheckStep::Cached(NodeStatus::Processing) by {
        lemma_cached_after_probe(states, times, steps, j, k);
    }
    if steps.len() > 0 {
        assert(check_transition(states[0], times[0], states[1], steps[0]));
    }
}

} // verus!
