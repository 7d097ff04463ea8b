//! What one tick does in each phase, stated over the inputs and the result
//! of [`transition`]: the next phase, the events it reports, the timers it
//! sets and the draws it takes.
use vstd::prelude::*;

use crate::dynamics::{lcg, lcg_iter, transition, upcoming_segment, Entry, Tick};
use crate::types::{Behavior, Event, Lifecycle, Mode, Phase, Reason, Rules};

verus! {

/// The number of ticks a timer holds for a rounded duration of `raw` ticks:
/// at least one, at most the 36 000-tick ceiling.
pub open spec fn held(raw: u32) -> u32 {
    if raw == 0 {
        1
    } else if raw > 36_000 {
        36_000
    } else {
        raw
    }
}

/// Event `e` announces behavior `b`.
pub open spec fn announces(e: Event, b: Behavior) -> bool {
    ||| b == Behavior::Rest && e == Event::Rest
    ||| b == Behavior::Warning && e == Event::Warning
    ||| b == Behavior::Surge && e == Event::Surge
}

/// The tick stays below the limit, so no timeout intervenes.
pub open spec fn below_limit(l: Lifecycle, r: Rules) -> bool {
    l.tick + 1 < r.max_ticks
}

/// The phase deadline is reached on this tick.
pub open spec fn runs_out(l: Lifecycle) -> bool {
    l.phase_ticks + 1 >= l.duration
}

/// The behavior's time is up on this tick.
pub open spec fn behavior_runs_out(l: Lifecycle) -> bool {
    l.behavior_ticks + 1 >= l.behavior_duration
}

/// No threshold was crossed by this tick's integration.
pub open spec fn calm(t: Tick) -> bool {
    !t.crossed.line_broke && !t.crossed.got_away && !t.crossed.landed
}

/// `n` is `l` one tick later with nothing else changed.
pub open spec fn counted_down(l: Lifecycle, n: Lifecycle) -> bool {
    &&& n.tick == l.tick + 1
    &&& n.phase_ticks == l.phase_ticks + 1
    &&& n.phase == l.phase
    &&& n.duration == l.duration
    &&& n.behavior == l.behavior
    &&& n.behavior_ticks == l.behavior_ticks
    &&& n.behavior_duration == l.behavior_duration
    &&& n.rng == l.rng
    &&& n.reason == l.reason
    &&& n.segment_index == l.segment_index
    &&& n.nibbles_left == l.nibbles_left
    &&& n.version == l.version
    &&& n.mode == l.mode
    &&& n.dimensions == l.dimensions
}

/// `n` is `l` one struggle tick later: the behavior clock advances too.
pub open spec fn struggled_on(l: Lifecycle, n: Lifecycle) -> bool {
    &&& n.tick == l.tick + 1
    &&& n.phase_ticks == l.phase_ticks + 1
    &&& n.behavior_ticks == l.behavior_ticks + 1
    &&& n.phase == l.phase
    &&& n.behavior == l.behavior
    &&& n.behavior_duration == l.behavior_duration
    &&& n.rng == l.rng
    &&& n.segment_index == l.segment_index
    &&& n.reason == l.reason
}

/// `n` ended in `phase` for `reason`.
pub open spec fn ended_as(n: Lifecycle, phase: Phase, reason: Reason) -> bool {
    n.phase == phase && n.reason == Some(reason)
}

/// `n` has just entered `phase` with a fresh timer of `raw` rounded ticks.
pub open spec fn entered_timed(n: Lifecycle, phase: Phase, raw: u32) -> bool {
    n.phase == phase && n.phase_ticks == 0 && n.duration == held(raw)
}

/// `n` has just entered a segment lasting `raw` rounded ticks, announced by `events`.
pub open spec fn entered_segment(n: Lifecycle, events: Seq<Event>, raw: u32) -> bool {
    &&& n.phase == Phase::Struggle
    &&& events.len() >= 1
    &&& announces(events.last(), n.behavior)
    &&& n.behavior_ticks == 0
    &&& n.behavior_duration == held(raw)
}

/// A tick that reaches the tick limit ends the encounter; a timeout reports
/// only the escape.
pub proof fn lemma_limit_ends(l: Lifecycle, r: Rules, t: Tick)
    requires
        r.wf(),
        l.valid(r),
        l.phase != Phase::Caught && l.phase != Phase::Escaped,
        l.phase != Phase::Ready || t.pressed,
        !below_limit(l, r),
    ensures
        transition(l, r, t).0.tick == r.max_ticks,
        transition(l, r, t).0.phase == Phase::Caught || transition(l, r, t).0.phase
            == Phase::Escaped,
        transition(l, r, t).0.reason == Some(Reason::Timeout) ==> transition(l, r, t).1 == seq![
            Event::Escaped,
        ],
{
}

/// A fresh press at ready casts: one draw, the waiting time of this tick's
/// draw, and the `Cast` event.
pub proof fn lemma_cast(l: Lifecycle, r: Rules, t: Tick)
    requires
        r.wf(),
        l.valid(r),
        l.phase == Phase::Ready,
        t.pressed,
        below_limit(l, r),
    ensures
        entered_timed(transition(l, r, t).0, Phase::Waiting, t.timing.wait),
        transition(l, r, t).1 == seq![Event::Cast],
        transition(l, r, t).0.tick == l.tick + 1,
        transition(l, r, t).0.rng == lcg(l.rng),
        transition(l, r, t).0.nibbles_left == l.nibbles_left,
        transition(l, r, t).0.reason == None::<Reason>,
        transition(l, r, t).3 == None::<Entry>,
{
}

/// Waiting counts down; when it runs out, the next false bite begins if any
/// is left, otherwise the real bite, each announced by its own event. A bite
/// entered from waiting is always announced by exactly `[Bite]`.
pub proof fn lemma_waiting(l: Lifecycle, r: Rules, t: Tick)
    requires
        r.wf(),
        l.valid(r),
        l.phase == Phase::Waiting,
    ensures
        transition(l, r, t).0.phase == Phase::Bite ==> transition(l, r, t).1 == seq![Event::Bite],
        transition(l, r, t).0.phase == Phase::Nibble ==> transition(l, r, t).1 == seq![
            Event::Nibble,
        ],
        transition(l, r, t).0.rng == l.rng,
        transition(l, r, t).3 == None::<Entry>,
        below_limit(l, r) && !runs_out(l) ==> counted_down(l, transition(l, r, t).0),
        below_limit(l, r) && !runs_out(l) ==> transition(l, r, t).1 == Seq::<Event>::empty(),
        below_limit(l, r) && runs_out(l) && l.nibbles_left > 0 ==> entered_timed(
            transition(l, r, t).0,
            Phase::Nibble,
            t.timing.nibble,
        ),
        below_limit(l, r) && runs_out(l) && l.nibbles_left > 0 ==> transition(l, r, t).0.nibbles_left
            == l.nibbles_left - 1,
        below_limit(l, r) && runs_out(l) && l.nibbles_left == 0 ==> entered_timed(
            transition(l, r, t).0,
            Phase::Bite,
            t.timing.bite,
        ),
        below_limit(l, r) && runs_out(l) && l.nibbles_left == 0 ==> transition(l, r, t).1 == seq![
            Event::Bite,
        ],
{
}

/// A false bite runs out into the gap before the next wait, silently; a
/// fresh press before it runs out loses the fish; otherwise it counts down.
pub proof fn lemma_nibble(l: Lifecycle, r: Rules, t: Tick)
    requires
        r.wf(),
        l.valid(r),
        l.phase == Phase::Nibble,
    ensures
        transition(l, r, t).0.rng == l.rng,
        transition(l, r, t).0.nibbles_left == l.nibbles_left,
        transition(l, r, t).3 == None::<Entry>,
        below_limit(l, r) && runs_out(l) ==> entered_timed(
            transition(l, r, t).0,
            Phase::Waiting,
            t.timing.gap,
        ),
        below_limit(l, r) && runs_out(l) ==> transition(l, r, t).1 == Seq::<Event>::empty(),
        !runs_out(l) && t.pressed ==> ended_as(
            transition(l, r, t).0,
            Phase::Escaped,
            Reason::EarlyHook,
        ),
        !runs_out(l) && t.pressed ==> transition(l, r, t).1 == seq![Event::Escaped],
        below_limit(l, r) && !runs_out(l) && !t.pressed ==> counted_down(l, transition(l, r, t).0),
        below_limit(l, r) && !runs_out(l) && !t.pressed ==> transition(l, r, t).1 == Seq::<
            Event,
        >::empty(),
{
}

/// A bite is missed when its window runs out; a fresh press before then
/// lands the fish in hook mode, or hooks it into a struggle that enters the
/// first segment and announces it; otherwise the bite counts down.
pub proof fn lemma_bite(l: Lifecycle, r: Rules, t: Tick)
    requires
        r.wf(),
        l.valid(r),
        l.phase == Phase::Bite,
    ensures
        runs_out(l) ==> ended_as(transition(l, r, t).0, Phase::Escaped, Reason::MissedBite),
        runs_out(l) ==> transition(l, r, t).1 == seq![Event::Escaped],
        !runs_out(l) && t.pressed && r.mode == Mode::Hook ==> ended_as(
            transition(l, r, t).0,
            Phase::Caught,
            Reason::Landed,
        ),
        !runs_out(l) && t.pressed && r.mode == Mode::Hook ==> transition(l, r, t).1 == seq![
            Event::Hooked,
            Event::Caught,
        ],
        below_limit(l, r) && !runs_out(l) && !t.pressed ==> counted_down(l, transition(l, r, t).0),
        below_limit(l, r) && !runs_out(l) && !t.pressed ==> transition(l, r, t).1 == Seq::<
            Event,
        >::empty(),
        below_limit(l, r) && !runs_out(l) && t.pressed && r.mode != Mode::Hook ==> entered_segment(
            transition(l, r, t).0,
            transition(l, r, t).1,
            t.timing.segment,
        ),
        below_limit(l, r) && !runs_out(l) && t.pressed && r.mode != Mode::Hook ==> transition(
            l,
            r,
            t,
        ).1.len() == 2 && transition(l, r, t).1[0] == Event::Hooked,
        below_limit(l, r) && !runs_out(l) && t.pressed && r.mode != Mode::Hook ==> transition(
            l,
            r,
            t,
        ).0.segment_index == 0 && transition(l, r, t).0.phase_ticks == 0 && transition(
            l,
            r,
            t,
        ).0.duration == 0,
        below_limit(l, r) && !runs_out(l) && t.pressed && r.mode != Mode::Hook && r.pattern@.len()
            == 0 ==> transition(l, r, t).0.behavior == Behavior::Rest,
        below_limit(l, r) && !runs_out(l) && t.pressed && r.mode != Mode::Hook && r.pattern@.len()
            > 0 ==> transition(l, r, t).0.behavior == r.pattern@[0].behavior,
{
}

/// In a struggle, crossed thresholds end the encounter; otherwise the
/// behavior counts down and, when it runs out, the next segment begins and
/// is announced by exactly its event.
pub proof fn lemma_struggle(l: Lifecycle, r: Rules, t: Tick)
    requires
        r.wf(),
        l.valid(r),
        l.phase == Phase::Struggle,
    ensures
        t.crossed.line_broke || t.crossed.got_away ==> transition(l, r, t).0.phase
            == Phase::Escaped,
        t.crossed.line_broke || t.crossed.got_away ==> transition(l, r, t).1 == seq![
            Event::Escaped,
        ],
        !t.crossed.line_broke && !t.crossed.got_away && t.crossed.landed ==> ended_as(
            transition(l, r, t).0,
            Phase::Caught,
            Reason::Landed,
        ),
        !t.crossed.line_broke && !t.crossed.got_away && t.crossed.landed ==> transition(
            l,
            r,
            t,
        ).1 == seq![Event::Caught],
        below_limit(l, r) && calm(t) && !behavior_runs_out(l) ==> struggled_on(
            l,
            transition(l, r, t).0,
        ),
        below_limit(l, r) && calm(t) && !behavior_runs_out(l) ==> transition(l, r, t).1 == Seq::<
            Event,
        >::empty(),
        below_limit(l, r) && calm(t) && behavior_runs_out(l) ==> entered_segment(
            transition(l, r, t).0,
            transition(l, r, t).1,
            t.timing.segment,
        ),
        below_limit(l, r) && calm(t) && behavior_runs_out(l) ==> transition(l, r, t).1.len() == 1,
{
}

/// The record of an entered segment names the segment [`upcoming_segment`]
/// announced and where its target draws start: after the duration draw if
/// one is taken; the state's RNG ends after those target draws.
pub proof fn lemma_entry_record(l: Lifecycle, r: Rules, t: Tick)
    requires
        r.wf(),
        l.valid(r),
        transition(l, r, t).3 is Some,
    ensures
        transition(l, r, t).3->0.index == upcoming_segment(l, r).index,
        transition(l, r, t).3->0.behavior == upcoming_segment(l, r).behavior,
        transition(l, r, t).3->0.behavior == transition(l, r, t).0.behavior,
        transition(l, r, t).3->0.index == transition(l, r, t).0.segment_index,
        transition(l, r, t).3->0.target_draws == upcoming_segment(l, r).target_draws,
        upcoming_segment(l, r).duration_draw ==> transition(l, r, t).3->0.seed == lcg(l.rng),
        !upcoming_segment(l, r).duration_draw ==> transition(l, r, t).3->0.seed == l.rng,
        transition(l, r, t).0.rng == lcg_iter(
            transition(l, r, t).3->0.seed,
            transition(l, r, t).3->0.target_draws as nat,
        ),
        l.phase == Phase::Bite || l.phase == Phase::Struggle,
{
}

} // verus!
