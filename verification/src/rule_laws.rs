//! What the checks, the starting state, the segment choice, the movement
//! hold and the RNG mean, stated directly over their inputs.
use vstd::prelude::*;

use crate::dynamics::{clamp_ticks, holding, initial, lcg, lcg_iter, upcoming_segment};
use crate::geometry::{crossing_candidate, ring_error, ShapeError, MAX_RING, MIN_RING};
use crate::phase_laws::held;
use crate::program::TargetKind;
use crate::types::{
    rules_error, state_error, Behavior, Lifecycle, Mode, Phase, Reason, RuleError, Rules,
    StateError,
};

verus! {

/// The mode runs with this many spatial dimensions: one or two for tracking,
/// none for hook and pressure.
pub open spec fn dimensions_fit(mode: Mode, dimensions: u8) -> bool {
    if mode == Mode::Tracking {
        dimensions == 1 || dimensions == 2
    } else {
        dimensions == 0
    }
}

/// Every constraint on a set of rules, each stated on its own.
pub open spec fn rules_hold(r: Rules) -> bool {
    &&& dimensions_fit(r.mode, r.dimensions)
    &&& !(r.polygon && r.dimensions != 2)
    &&& 1 <= r.max_ticks <= 36_000
    &&& r.pattern@.len() <= 16
    &&& r.nibble_count <= 8
    &&& !(r.mode == Mode::Hook && r.pattern@.len() > 0)
}

/// Rules are accepted exactly when every constraint holds.
pub proof fn lemma_rules_accepted(r: Rules)
    ensures
        r.wf() <==> rules_hold(r),
{
}

/// Hook and pressure take no spatial dimension and tracking takes one or
/// two; any other count is refused first, as a mechanism mismatch.
pub proof fn lemma_mechanism(r: Rules)
    ensures
        r.mode != Mode::Tracking && r.dimensions != 0 ==> rules_error(r) == Some(
            RuleError::Mechanism,
        ),
        r.mode == Mode::Tracking && r.dimensions != 1 && r.dimensions != 2 ==> rules_error(r)
            == Some(RuleError::Mechanism),
        dimensions_fit(r.mode, r.dimensions) ==> rules_error(r) != Some(RuleError::Mechanism),
{
}

/// Each refusal names the constraint that failed.
pub proof fn lemma_rule_errors(r: Rules)
    ensures
        rules_error(r) == Some(RuleError::Mechanism) ==> !dimensions_fit(r.mode, r.dimensions),
        rules_error(r) == Some(RuleError::PolygonDimensions) ==> r.polygon && r.dimensions != 2,
        rules_error(r) == Some(RuleError::TickLimit) ==> r.max_ticks == 0 || r.max_ticks > 36_000,
        rules_error(r) == Some(RuleError::PatternLength) ==> r.pattern@.len() > 16,
        rules_error(r) == Some(RuleError::NibbleCount) ==> r.nibble_count > 8,
        rules_error(r) == Some(RuleError::HookPattern) ==> r.mode == Mode::Hook && r.pattern@.len()
            > 0,
{
}

/// Each refused snapshot names the check that failed.
pub proof fn lemma_state_errors(l: Lifecycle, r: Rules)
    ensures
        l.version != 2 ==> state_error(l, r) == Some(StateError::Version),
        state_error(l, r) == Some(StateError::Version) ==> l.version != 2,
        state_error(l, r) == Some(StateError::Mechanism) ==> l.mode != r.mode || l.dimensions
            != r.dimensions,
        state_error(l, r) == Some(StateError::TimerBound) ==> l.tick > 36_000 || l.phase_ticks
            > 36_000 || l.duration > 36_000 || l.behavior_ticks > 36_000 || l.behavior_duration
            > 36_000,
        state_error(l, r) == Some(StateError::Elapsed) ==> l.phase_ticks > l.tick
            || l.behavior_ticks > l.tick,
        state_error(l, r) == Some(StateError::TickLimit) ==> l.tick > r.max_ticks || (l.tick
            == r.max_ticks && !ended(l.phase)),
        state_error(l, r) == Some(StateError::TerminalReason) ==> ended(l.phase) != (l.reason is Some),
        state_error(l, r) == Some(StateError::CaughtNotLanded) ==> l.phase == Phase::Caught
            && l.reason != Some(Reason::Landed),
        state_error(l, r) == Some(StateError::EscapedLanded) ==> l.phase == Phase::Escaped
            && l.reason == Some(Reason::Landed),
        state_error(l, r) == Some(StateError::HookStruggle) ==> l.phase == Phase::Struggle
            && r.mode == Mode::Hook,
        state_error(l, r) == Some(StateError::PhaseTimer) ==> (l.phase == Phase::Waiting || l.phase
            == Phase::Bite || l.phase == Phase::Nibble) && (l.duration == 0 || l.phase_ticks
            >= l.duration),
        state_error(l, r) == Some(StateError::Nibbles) ==> l.nibbles_left > r.nibble_count || (
        l.phase == Phase::Nibble && r.nibble_count == 0),
        state_error(l, r) == Some(StateError::SegmentIndex) ==> (r.pattern@.len() == 0
            && l.segment_index != 0) || (r.pattern@.len() > 0 && l.segment_index
            >= r.pattern@.len()),
        state_error(l, r) == Some(StateError::SegmentBehavior) ==> l.phase == Phase::Struggle
            && r.pattern@.len() > 0 && l.behavior != r.pattern@[l.segment_index as int].behavior,
        state_error(l, r) == Some(StateError::BehaviorTimer) ==> l.phase == Phase::Struggle && (
        l.behavior_duration == 0 || l.behavior_ticks >= l.behavior_duration),
{
}

/// The phase is caught or escaped.
pub open spec fn ended(p: Phase) -> bool {
    p == Phase::Caught || p == Phase::Escaped
}

/// Timer and tick constraints of a snapshot.
pub open spec fn clocks_hold(l: Lifecycle, r: Rules) -> bool {
    &&& l.tick <= 36_000 && l.phase_ticks <= 36_000 && l.duration <= 36_000
    &&& l.behavior_ticks <= 36_000 && l.behavior_duration <= 36_000
    &&& l.phase_ticks <= l.tick && l.behavior_ticks <= l.tick
    &&& l.tick <= r.max_ticks
    &&& (l.tick == r.max_ticks ==> ended(l.phase))
    &&& ((l.phase == Phase::Waiting || l.phase == Phase::Bite || l.phase == Phase::Nibble)
        ==> 0 < l.duration && l.phase_ticks < l.duration)
    &&& (l.phase == Phase::Struggle ==> 0 < l.behavior_duration && l.behavior_ticks
        < l.behavior_duration)
}

/// Outcome, false-bite and segment constraints of a snapshot.
pub open spec fn course_holds(l: Lifecycle, r: Rules) -> bool {
    &&& (ended(l.phase) <==> l.reason is Some)
    &&& (l.phase == Phase::Caught ==> l.reason == Some(Reason::Landed))
    &&& (l.phase == Phase::Escaped ==> l.reason != Some(Reason::Landed))
    &&& (l.phase == Phase::Struggle ==> r.mode != Mode::Hook)
    &&& l.nibbles_left <= r.nibble_count
    &&& (l.phase == Phase::Nibble ==> r.nibble_count > 0)
    &&& (r.pattern@.len() == 0 ==> l.segment_index == 0)
    &&& (r.pattern@.len() > 0 ==> l.segment_index < r.pattern@.len())
    &&& (l.phase == Phase::Struggle && r.pattern@.len() > 0 ==> l.behavior
        == r.pattern@[l.segment_index as int].behavior)
}

/// A snapshot is valid exactly when it has the current schema revision and
/// the rules' mechanism, and its clocks, outcome, false bites and segment fit.
pub proof fn lemma_valid_snapshot(l: Lifecycle, r: Rules)
    ensures
        l.valid(r) <==> l.version == 2 && l.mode == r.mode && l.dimensions == r.dimensions
            && clocks_hold(l, r) && course_holds(l, r),
{
}

/// A created encounter is ready at tick zero with every timer at zero, the
/// seed as its RNG, no outcome, the first segment, all configured false bites
/// still to come, and the rules' mechanism.
pub proof fn lemma_initial(seed: u32, r: Rules)
    ensures
        initial(seed, r).phase == Phase::Ready,
        initial(seed, r).tick == 0 && initial(seed, r).phase_ticks == 0 && initial(
            seed,
            r,
        ).duration == 0,
        initial(seed, r).behavior_ticks == 0 && initial(seed, r).behavior_duration == 0,
        initial(seed, r).rng == seed,
        initial(seed, r).reason == None::<Reason>,
        initial(seed, r).segment_index == 0,
        initial(seed, r).nibbles_left == r.nibble_count,
        initial(seed, r).mode == r.mode && initial(seed, r).dimensions == r.dimensions,
        initial(seed, r).version == 2,
{
}

/// The behavior that follows `b` in the original rest, warning, surge cycle.
pub open spec fn cycle_next(b: Behavior) -> Behavior {
    if b == Behavior::Rest {
        Behavior::Warning
    } else if b == Behavior::Warning {
        Behavior::Surge
    } else {
        Behavior::Rest
    }
}

/// Active spatial axes of a rule set.
pub open spec fn axes(r: Rules) -> u8 {
    if r.mode == Mode::Tracking {
        r.dimensions
    } else {
        0
    }
}

/// The segment a hook enters is the first; the one a behavior change enters
/// is the next in the pattern (wrapping) or in the original cycle. Entering
/// draws once for the duration except for the original cycle's warning. A
/// pattern segment draws one target per active axis exactly when its rule
/// wanders or goes opposite, whatever its label; in the original cycle rest
/// and warning draw one target per active axis and surge draws none.
pub proof fn lemma_upcoming(l: Lifecycle, r: Rules)
    ensures
        l.phase != Phase::Struggle ==> upcoming_segment(l, r).index == 0,
        l.phase != Phase::Struggle && r.pattern@.len() == 0 ==> upcoming_segment(l, r).behavior
            == Behavior::Rest,
        r.pattern@.len() > 0 ==> upcoming_segment(l, r).index < r.pattern@.len()
            && upcoming_segment(l, r).behavior == r.pattern@[upcoming_segment(
            l,
            r,
        ).index as int].behavior,
        l.phase == Phase::Struggle && 0 < r.pattern@.len() <= 16 && l.segment_index
            < r.pattern@.len() ==> upcoming_segment(l, r).index == (l.segment_index + 1) % (r.pattern@.len() as int),
        l.phase == Phase::Struggle && r.pattern@.len() == 0 ==> upcoming_segment(l, r).index == 0
            && upcoming_segment(l, r).behavior == cycle_next(l.behavior),
        r.pattern@.len() > 0 ==> upcoming_segment(l, r).duration_draw,
        r.pattern@.len() == 0 ==> (upcoming_segment(l, r).duration_draw <==> upcoming_segment(
            l,
            r,
        ).behavior != Behavior::Warning),
        r.pattern@.len() > 0 && (r.pattern@[upcoming_segment(l, r).index as int].target
            == TargetKind::Wander || r.pattern@[upcoming_segment(l, r).index as int].target
            == TargetKind::Opposite) ==> upcoming_segment(l, r).target_draws == axes(r),
        r.pattern@.len() > 0 && r.pattern@[upcoming_segment(l, r).index as int].target
            != TargetKind::Wander && r.pattern@[upcoming_segment(l, r).index as int].target
            != TargetKind::Opposite ==> upcoming_segment(l, r).target_draws == 0,
        r.pattern@.len() == 0 && upcoming_segment(l, r).behavior == Behavior::Surge
            ==> upcoming_segment(l, r).target_draws == 0,
        r.pattern@.len() == 0 && upcoming_segment(l, r).behavior != Behavior::Surge
            ==> upcoming_segment(l, r).target_draws == axes(r),
{
    let len = r.pattern@.len() as int;
    if l.phase == Phase::Struggle && 0 < len <= 16 && l.segment_index < len {
        if l.segment_index + 1 < len {
            vstd::arithmetic::div_mod::lemma_small_mod((l.segment_index + 1) as nat, len as nat);
        } else {
            vstd::arithmetic::div_mod::lemma_mod_self_0(len);
        }
    }
}

/// In the original cycle the fish holds position exactly during a warning;
/// in a pattern, exactly during a segment whose target rule holds.
pub proof fn lemma_holding(l: Lifecycle, r: Rules)
    ensures
        r.pattern@.len() == 0 ==> (holding(l, r) <==> l.behavior == Behavior::Warning),
        r.pattern@.len() > 0 && l.segment_index < r.pattern@.len() ==> (holding(l, r)
            <==> r.pattern@[l.segment_index as int].target == TargetKind::Hold),
{
}

/// One draw is the wrapping `u32` step `rng * 1664525 + 1013904223`, and
/// successive draws apply it once each.
pub proof fn lemma_rng_step(rng: u32, n: nat)
    ensures
        lcg(rng) as int == (rng as int * 1664525 + 1013904223) % 4294967296,
        lcg_iter(rng, n + 1) == lcg(lcg_iter(rng, n)),
        lcg_iter(rng, 0) == rng,
{
}

/// A timer holds its rounded duration, saturated into `1..=36000` ticks.
pub proof fn lemma_ticks_saturate(raw: u32)
    ensures
        clamp_ticks(raw) == held(raw),
        1 <= clamp_ticks(raw) <= 36_000,
        1 <= raw <= 36_000 ==> clamp_ticks(raw) == raw,
{
}

/// A capture has one outer ring and at most one hole, each of 3..=48 vertices.
pub proof fn lemma_rings(sizes: Seq<usize>)
    ensures
        (ring_error(sizes) == Some(ShapeError::RingCount)) <==> (sizes.len() == 0 || sizes.len()
            > 2),
        (ring_error(sizes) is None) <==> (1 <= sizes.len() <= 2 && forall|k: int|
            0 <= k < sizes.len() ==> 3 <= #[trigger] sizes[k] <= 48),
{
    assert(MIN_RING == 3 && MAX_RING == 48);
}

/// Edges tested for crossings share no vertex: an edge is never paired with
/// itself or a neighbor, and the first and last edges are neighbors.
pub proof fn lemma_crossing_candidates(n: int, i: int, j: int)
    ensures
        crossing_candidate(n, i, j) ==> 0 <= i && i + 2 <= j && j < n,
        !crossing_candidate(n, i, i + 1),
        !crossing_candidate(n, 0, n - 1),
        0 <= i && i + 2 <= j && j < n && !(i == 0 && j == n - 1) ==> crossing_candidate(n, i, j),
{
}

} // verus!
