//! Properties of the lifecycle that hold for every state, rule set and tick.
use vstd::prelude::*;

use crate::dynamics::{
    clamp_ticks, idle, initial, lcg, lcg_iter, successor, transition, upcoming_segment, Entry, Tick,
};
use crate::types::{end_event, Behavior, Event, Lifecycle, Mode, Phase, Reason, Rules, MAX_TICKS};

verus! {

/// Every tick duration a timer can hold is positive and within the ceiling.
proof fn lemma_clamp_ticks_bounds(raw: u32)
    ensures
        1 <= clamp_ticks(raw) <= MAX_TICKS,
{
}

/// The segment a tick enters exists in the pattern, and a nonempty pattern
/// supplies its behavior.
proof fn lemma_upcoming_in_pattern(l: Lifecycle, r: Rules)
    ensures
        r.pattern@.len() == 0 ==> upcoming_segment(l, r).index == 0,
        r.pattern@.len() > 0 ==> upcoming_segment(l, r).index < r.pattern@.len()
            && upcoming_segment(l, r).behavior
            == r.pattern@[upcoming_segment(l, r).index as int].behavior,
{
}

/// A newly created encounter satisfies every snapshot check of its rules.
pub proof fn lemma_created_state_is_valid(seed: u32, r: Rules)
    requires
        r.wf(),
    ensures
        initial(seed, r).valid(r),
{
}

/// Stepping a valid snapshot yields a valid snapshot: timers stay within
/// their bounds, elapsed times within the total, the tick within the limit
/// (reaching it only by ending), reasons match terminal phases, false bites
/// and segment indices stay within the rules.
pub proof fn lemma_step_keeps_valid(l: Lifecycle, r: Rules, t: Tick)
    requires
        r.wf(),
        l.valid(r),
    ensures
        transition(l, r, t).0.valid(r),
{
    lemma_clamp_ticks_bounds(t.timing.wait);
    lemma_clamp_ticks_bounds(t.timing.bite);
    lemma_clamp_ticks_bounds(t.timing.nibble);
    lemma_clamp_ticks_bounds(t.timing.gap);
    lemma_clamp_ticks_bounds(t.timing.segment);
    lemma_upcoming_in_pattern(l, r);
}

/// Terminal states absorb input: any tick leaves a caught or escaped state
/// unchanged, consumes no tick and reports no event.
pub proof fn lemma_terminal_absorbs(l: Lifecycle, r: Rules, t: Tick)
    requires
        l.phase.terminal(),
    ensures
        transition(l, r, t) == (l, Seq::<Event>::empty(), false, None::<Entry>),
{
}

/// Waiting at ready consumes nothing: without a fresh press the state,
/// its tick and its RNG are unchanged and no event is reported.
pub proof fn lemma_ready_waits_for_press(l: Lifecycle, r: Rules, t: Tick)
    requires
        l.phase == Phase::Ready,
        !t.pressed,
    ensures
        transition(l, r, t) == (l, Seq::<Event>::empty(), false, None::<Entry>),
{
}

/// Every other tick advances the encounter clock by exactly one.
pub proof fn lemma_advancing_tick(l: Lifecycle, r: Rules, t: Tick)
    requires
        r.wf(),
        l.valid(r),
        !idle(l, t),
    ensures
        transition(l, r, t).2,
        transition(l, r, t).0.tick == l.tick + 1,
{
}

/// The RNG state after `a` draws and then `b` more is the state after `a + b` draws.
pub proof fn lemma_draws_compose(rng: u32, a: nat, b: nat)
    ensures
        lcg_iter(lcg_iter(rng, a), b) == lcg_iter(rng, a + b),
    decreases b,
{
    if b > 0 {
        lemma_draws_compose(rng, a, (b - 1) as nat);
    }
}

/// Number of RNG draws a tick consumes: one to time a cast; on entering a
/// segment, one for its duration (except the original cycle's warning) and
/// one per active axis whose target rule draws; none otherwise.
pub open spec fn draws_consumed(l: Lifecycle, r: Rules, t: Tick) -> nat {
    if idle(l, t) {
        0
    } else if l.phase == Phase::Ready {
        1
    } else {
        match transition(l, r, t).3 {
            Some(e) => (if upcoming_segment(l, r).duration_draw {
                1nat
            } else {
                0nat
            }) + e.target_draws as nat,
            None => 0,
        }
    }
}

/// The RNG state changes only by the draws a tick consumes.
pub proof fn lemma_rng_advances_by_draws(l: Lifecycle, r: Rules, t: Tick)
    requires
        r.wf(),
        l.valid(r),
    ensures
        transition(l, r, t).0.rng == lcg_iter(l.rng, draws_consumed(l, r, t)),
{
    let u = upcoming_segment(l, r);
    assert(lcg_iter(l.rng, 1) == lcg(l.rng)) by {
        reveal_with_fuel(lcg_iter, 2);
    }
    if u.duration_draw {
        lemma_draws_compose(l.rng, 1, u.target_draws as nat);
    }
}

/// A tick ends the encounter exactly when it reports the end: a terminal
/// result from a live state has a last event announcing its phase, and a
/// live result reports neither `Caught` nor `Escaped`.
pub proof fn lemma_end_is_announced(l: Lifecycle, r: Rules, t: Tick)
    requires
        r.wf(),
        l.valid(r),
        !l.phase.terminal(),
    ensures
        transition(l, r, t).0.phase.terminal() ==> transition(l, r, t).1.len() > 0
            && transition(l, r, t).1.last() == end_event(transition(l, r, t).0.phase),
        !transition(l, r, t).0.phase.terminal() ==> !transition(l, r, t).1.contains(Event::Caught)
            && !transition(l, r, t).1.contains(Event::Escaped),
        transition(l, r, t).0.phase == Phase::Caught <==> transition(l, r, t).0.reason == Some(
            Reason::Landed,
        ),
{
    let out = transition(l, r, t);
    lemma_step_keeps_valid(l, r, t);
    if !out.0.phase.terminal() {
        assert forall|i: int| 0 <= i < out.1.len() implies out.1[i] != Event::Caught && out.1[i]
            != Event::Escaped by {}
    }
}

/// Hooking needs a fresh press during a live bite: holding the control never
/// hooks, and a false bite is lost only to a fresh press.
pub proof fn lemma_hook_needs_fresh_press(l: Lifecycle, r: Rules, t: Tick)
    requires
        r.wf(),
        l.valid(r),
    ensures
        transition(l, r, t).1.contains(Event::Hooked) ==> t.pressed && l.phase == Phase::Bite
            && l.phase_ticks + 1 < l.duration,
        transition(l, r, t).0.reason == Some(Reason::EarlyHook) && l.reason is None ==> t.pressed
            && l.phase == Phase::Nibble,
{
    let out = transition(l, r, t);
    if out.1.contains(Event::Hooked) {
        let i = choose|i: int| 0 <= i < out.1.len() && out.1[i] == Event::Hooked;
    }
}

/// Deadlines take precedence over input: a bite whose window runs out this
/// tick is missed even with a fresh press, and a false bite that runs out
/// returns to waiting (or times out) even with a fresh press.
pub proof fn lemma_expiry_precedes_input(l: Lifecycle, r: Rules, t: Tick)
    requires
        r.wf(),
        l.valid(r),
        l.phase == Phase::Bite || l.phase == Phase::Nibble,
        l.phase_ticks + 1 >= l.duration,
    ensures
        l.phase == Phase::Bite ==> transition(l, r, t).0.reason == Some(Reason::MissedBite),
        l.phase == Phase::Nibble ==> transition(l, r, t).0.phase == Phase::Waiting || transition(
            l,
            r,
            t,
        ).0.reason == Some(Reason::Timeout),
{
}

/// Loss thresholds come before landing: a broken line ends the struggle as
/// broken whatever progress did, and a fish that got away is not landed.
pub proof fn lemma_loss_precedes_landing(l: Lifecycle, r: Rules, t: Tick)
    requires
        r.wf(),
        l.valid(r),
        l.phase == Phase::Struggle,
    ensures
        t.crossed.line_broke ==> transition(l, r, t).0.reason == Some(Reason::LineBroke),
        !t.crossed.line_broke && t.crossed.got_away ==> transition(l, r, t).0.reason == Some(
            Reason::GotAway,
        ),
        !t.crossed.line_broke && !t.crossed.got_away && t.crossed.landed ==> transition(
            l,
            r,
            t,
        ).0.reason == Some(Reason::Landed),
{
}

/// False bites come first: the count of false bites left never grows, each
/// nibble entered uses one, and the real bite begins only when none are left.
pub proof fn lemma_bite_follows_all_nibbles(l: Lifecycle, r: Rules, t: Tick)
    requires
        r.wf(),
        l.valid(r),
    ensures
        transition(l, r, t).0.nibbles_left <= l.nibbles_left,
        transition(l, r, t).0.phase == Phase::Nibble && l.phase != Phase::Nibble
            ==> transition(l, r, t).0.nibbles_left == l.nibbles_left - 1,
        transition(l, r, t).0.phase == Phase::Bite && l.phase != Phase::Bite ==> l.nibbles_left
            == 0,
{
}

/// Segments cycle in order: hooking enters the first segment (rest in the
/// original cycle); a behavior change enters the next segment of the
/// pattern, wrapping after the last, or the next of rest, warning, surge.
pub proof fn lemma_segments_cycle(l: Lifecycle, r: Rules, t: Tick)
    requires
        r.wf(),
        l.valid(r),
        transition(l, r, t).3 is Some,
    ensures
        l.phase == Phase::Bite ==> transition(l, r, t).0.segment_index == 0 && (if r.pattern@.len()
            == 0 {
            transition(l, r, t).0.behavior == Behavior::Rest
        } else {
            transition(l, r, t).0.behavior == r.pattern@[0].behavior
        }),
        l.phase == Phase::Struggle && r.pattern@.len() > 0 ==> transition(l, r, t).0.segment_index
            == (l.segment_index + 1) % (r.pattern@.len() as int),
        l.phase == Phase::Struggle && r.pattern@.len() == 0 ==> transition(l, r, t).0.behavior
            == successor(l.behavior),
        transition(l, r, t).0.behavior_duration == clamp_ticks(t.timing.segment),
        transition(l, r, t).3->0.index == upcoming_segment(l, r).index,
        transition(l, r, t).3->0.behavior == upcoming_segment(l, r).behavior,
{
    let len = r.pattern@.len() as int;
    if l.phase == Phase::Struggle && len > 0 {
        if l.segment_index + 1 < len {
            vstd::arithmetic::div_mod::lemma_small_mod(
                (l.segment_index + 1) as nat,
                len as nat,
            );
        } else {
            assert(l.segment_index + 1 == len);
            vstd::arithmetic::div_mod::lemma_mod_self_0(len);
        }
    }
}

/// The lifecycle only moves forward: ready, waiting (alternating with false
/// bites), bite, an optional struggle, then caught or escaped.
pub open spec fn may_follow(a: Phase, b: Phase) -> bool {
    match a {
        Phase::Ready => b == Phase::Ready || b == Phase::Waiting || b == Phase::Escaped,
        Phase::Waiting => b == Phase::Waiting || b == Phase::Nibble || b == Phase::Bite || b
            == Phase::Escaped,
        Phase::Nibble => b == Phase::Nibble || b == Phase::Waiting || b == Phase::Escaped,
        Phase::Bite => b == Phase::Bite || b == Phase::Struggle || b.terminal(),
        Phase::Struggle => b == Phase::Struggle || b.terminal(),
        _ => b == a,
    }
}

/// Every tick moves the lifecycle along the order of [`may_follow`]; hook
/// mode never struggles.
pub proof fn lemma_lifecycle_order(l: Lifecycle, r: Rules, t: Tick)
    requires
        r.wf(),
        l.valid(r),
    ensures
        may_follow(l.phase, transition(l, r, t).0.phase),
        r.mode == Mode::Hook ==> transition(l, r, t).0.phase != Phase::Struggle,
{
    lemma_step_keeps_valid(l, r, t);
}

/// In hook mode a fresh press before the bite deadline lands the fish at once.
pub proof fn lemma_hook_mode_lands_on_press(l: Lifecycle, r: Rules, t: Tick)
    requires
        r.wf(),
        l.valid(r),
        r.mode == Mode::Hook,
        l.phase == Phase::Bite,
        l.phase_ticks + 1 < l.duration,
        t.pressed,
    ensures
        transition(l, r, t).0.phase == Phase::Caught,
        transition(l, r, t).0.reason == Some(Reason::Landed),
        transition(l, r, t).1 == seq![Event::Hooked, Event::Caught],
{
}

/// The state after a sequence of ticks.
pub open spec fn run(l: Lifecycle, r: Rules, ts: Seq<Tick>) -> Lifecycle
    decreases ts.len(),
{
    if ts.len() == 0 {
        l
    } else {
        run(transition(l, r, ts[0]).0, r, ts.drop_first())
    }
}

/// How many ticks of a sequence advance the encounter clock.
pub open spec fn advancing(l: Lifecycle, r: Rules, ts: Seq<Tick>) -> nat
    decreases ts.len(),
{
    if ts.len() == 0 {
        0
    } else {
        (if transition(l, r, ts[0]).2 {
            1nat
        } else {
            0nat
        }) + advancing(transition(l, r, ts[0]).0, r, ts.drop_first())
    }
}

/// Encounters are bounded: along any sequence of ticks from a valid state,
/// every snapshot stays valid, the clock counts exactly the advancing ticks,
/// and it never passes the rules' tick limit.
pub proof fn lemma_runs_are_bounded(l: Lifecycle, r: Rules, ts: Seq<Tick>)
    requires
        r.wf(),
        l.valid(r),
    ensures
        run(l, r, ts).valid(r),
        run(l, r, ts).tick == l.tick + advancing(l, r, ts),
        run(l, r, ts).tick <= r.max_ticks,
    decreases ts.len(),
{
    if ts.len() > 0 {
        let out = transition(l, r, ts[0]);
        lemma_step_keeps_valid(l, r, ts[0]);
        if !out.2 {
            assert(idle(l, ts[0]));
        } else {
            assert(!idle(l, ts[0]));
            lemma_advancing_tick(l, r, ts[0]);
        }
        lemma_runs_are_bounded(out.0, r, ts.drop_first());
    }
}

/// From creation, every reachable snapshot is valid, and an encounter has
/// ended by the time it has advanced as many ticks as its limit allows.
pub proof fn lemma_encounters_end_within_limit(seed: u32, r: Rules, ts: Seq<Tick>)
    requires
        r.wf(),
    ensures
        run(initial(seed, r), r, ts).valid(r),
        advancing(initial(seed, r), r, ts) <= r.max_ticks,
        advancing(initial(seed, r), r, ts) == r.max_ticks ==> run(
            initial(seed, r),
            r,
            ts,
        ).phase.terminal(),
{
    lemma_created_state_is_valid(seed, r);
    lemma_runs_are_bounded(initial(seed, r), r, ts);
}

} // verus!
