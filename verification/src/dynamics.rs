//! Fixed-step lifecycle: casting, waiting, false bites, the bite deadline,
//! hooking, the fish behavior cycle, terminal outcomes and the tick limit.
//!
//! The host integrates the resource dynamics and converts seconds into tick
//! counts; every decision about phases, timers, counters, events and RNG draws
//! is made here.
use vstd::prelude::*;

use crate::program::TargetKind;
use crate::types::{
    behavior_event, end_event, rules_error, state_error, Behavior, Event, Lifecycle, Mode, Phase,
    Reason, RuleError, Rules, StateError, MAX_TICKS, VERSION,
};

verus! {

/// Modulus of the 32-bit RNG.
pub open spec fn rng_modulus() -> int {
    0x1_0000_0000
}

/// The linear congruential step of the explicit RNG, in wrapping `u32` arithmetic.
pub open spec fn lcg(rng: u32) -> u32 {
    ((rng as int * 1664525 + 1013904223) % rng_modulus()) as u32
}

/// The RNG state after `n` draws from `rng`.
pub open spec fn lcg_iter(rng: u32, n: nat) -> u32
    decreases n,
{
    if n == 0 {
        rng
    } else {
        lcg(lcg_iter(rng, (n - 1) as nat))
    }
}

/// Advance the explicit RNG by one draw. The draw's value in `[0, 1)` is the
/// returned state divided by 2^32.
pub fn random(rng: u32) -> (next: u32)
    ensures
        next == lcg(rng),
{
    let product = rng.wrapping_mul(1664525);
    let next = product.wrapping_add(1013904223);
    proof {
        let m = rng_modulus();
        assert(product as int == (rng as int * 1664525) % m);
        vstd::arithmetic::div_mod::lemma_add_mod_noop(rng as int * 1664525, 1013904223, m);
        vstd::arithmetic::div_mod::lemma_small_mod(1013904223nat, m as nat);
        assert(((product as int) + 1013904223) % m == (rng as int * 1664525 + 1013904223) % m);
        if (product as int) + 1013904223 > u32::MAX {
            vstd::arithmetic::div_mod::lemma_mod_sub_multiples_vanish(
                (product as int) + 1013904223,
                m,
            );
            vstd::arithmetic::div_mod::lemma_small_mod(
                ((product as int) + 1013904223 - m) as nat,
                m as nat,
            );
        } else {
            vstd::arithmetic::div_mod::lemma_small_mod(
                ((product as int) + 1013904223) as nat,
                m as nat,
            );
        }
    }
    next
}

/// Advance the RNG by `n` draws.
fn draw_n(rng: u32, n: u8) -> (r: u32)
    ensures
        r == lcg_iter(rng, n as nat),
{
    let mut s = rng;
    let mut i: u8 = 0;
    while i < n
        invariant
            i <= n,
            s == lcg_iter(rng, i as nat),
        decreases n - i,
    {
        s = random(s);
        i = i + 1;
    }
    s
}

/// A duration in ticks saturated into `1..=MAX_TICKS`.
pub open spec fn clamp_ticks(raw: u32) -> u32 {
    if raw < 1 {
        1
    } else if raw > MAX_TICKS {
        MAX_TICKS
    } else {
        raw
    }
}

/// Saturate a rounded tick count into `1..=MAX_TICKS`: every timed phase and
/// behavior lasts at least one tick and at most the absolute ceiling.
pub fn ticks(raw: u32) -> (r: u32)
    ensures
        r == clamp_ticks(raw),
{
    if raw < 1 {
        1
    } else if raw > MAX_TICKS {
        MAX_TICKS
    } else {
        raw
    }
}

/// The state an encounter starts from.
pub open spec fn initial(seed: u32, r: Rules) -> Lifecycle {
    Lifecycle {
        version: VERSION,
        mode: r.mode,
        dimensions: r.dimensions,
        tick: 0,
        phase: Phase::Ready,
        phase_ticks: 0,
        duration: 0,
        behavior: Behavior::Rest,
        behavior_ticks: 0,
        behavior_duration: 0,
        rng: seed,
        reason: None,
        segment_index: 0,
        nibbles_left: r.nibble_count,
    }
}

/// Validate the rules and create a ready state seeded with `seed`.
pub fn create_state(seed: u32, r: &Rules) -> (out: Result<Lifecycle, RuleError>)
    ensures
        match out {
            Ok(l) => r.wf() && l == initial(seed, *r),
            Err(e) => rules_error(*r) == Some(e),
        },
{
    r.validate()?;
    Ok(
        Lifecycle {
            version: VERSION,
            mode: r.mode,
            dimensions: r.dimensions,
            tick: 0,
            phase: Phase::Ready,
            phase_ticks: 0,
            duration: 0,
            behavior: Behavior::Rest,
            behavior_ticks: 0,
            behavior_duration: 0,
            rng: seed,
            reason: None,
            segment_index: 0,
            nibbles_left: r.nibble_count,
        },
    )
}

/// Which loss or win thresholds this tick's raw (unclamped) integration
/// reached: strain at or above 1, progress at or below 0, progress at or above 1.
#[derive(Debug, Clone, Copy, PartialEq, Eq, Structural)]
pub struct Crossed {
    /// Raw strain reached or exceeded 1.
    pub line_broke: bool,
    /// Raw progress reached or fell below 0.
    pub got_away: bool,
    /// Raw progress reached or exceeded 1.
    pub landed: bool,
}

/// Rounded tick counts for every duration a tick may start, before saturation.
/// `wait` and `segment` already use this tick's draw where one is consumed.
#[derive(Debug, Clone, Copy, PartialEq, Eq, Structural)]
pub struct Timing {
    /// Waiting time entered by a cast.
    pub wait: u32,
    /// Hook window entered by a bite.
    pub bite: u32,
    /// Length of a false bite.
    pub nibble: u32,
    /// Waiting time after a false bite.
    pub gap: u32,
    /// Duration of the segment that [`upcoming`] names.
    pub segment: u32,
}

/// Everything one tick contributes besides the state and the rules.
#[derive(Debug, Clone, Copy, PartialEq, Eq, Structural)]
pub struct Tick {
    /// A zero-to-positive edge of the primary control.
    pub pressed: bool,
    /// Thresholds reached by this tick's struggle dynamics; ignored in other phases.
    pub crossed: Crossed,
    /// Candidate durations in ticks.
    pub timing: Timing,
}

/// The fish segment a tick would enter: the first one on hooking, else the next in the cycle.
#[derive(Debug, Clone, Copy, PartialEq, Eq, Structural)]
pub struct Upcoming {
    /// Index in the pattern; zero for the original cycle.
    pub index: u8,
    /// Behavior and event label of the segment.
    pub behavior: Behavior,
    /// Whether entering consumes one draw for the jittered duration.
    pub duration_draw: bool,
    /// Number of target draws that follow, one per active axis where the rule draws.
    pub target_draws: u8,
}

/// A segment entered during a tick, and where its target draws start.
#[derive(Debug, Clone, Copy, PartialEq, Eq, Structural)]
pub struct Entry {
    /// Index in the pattern; zero for the original cycle.
    pub index: u8,
    /// Behavior and event label of the segment.
    pub behavior: Behavior,
    /// RNG state after the duration draw, before the target draws.
    pub seed: u32,
    /// Number of target draws consumed from `seed`.
    pub target_draws: u8,
}

/// The next behavior of the original rest, warning, surge cycle.
pub open spec fn successor(b: Behavior) -> Behavior {
    match b {
        Behavior::Rest => Behavior::Warning,
        Behavior::Warning => Behavior::Surge,
        Behavior::Surge => Behavior::Rest,
    }
}

/// The segment that a hook (from a bite) or a behavior expiry (in a struggle) enters.
pub open spec fn upcoming_segment(l: Lifecycle, r: Rules) -> Upcoming {
    let len = r.pattern@.len();
    let index: u8 = if len == 0 || l.phase != Phase::Struggle || l.segment_index + 1 >= len {
        0
    } else {
        (l.segment_index + 1) as u8
    };
    let behavior = if len > 0 {
        r.pattern@[index as int].behavior
    } else if l.phase == Phase::Struggle {
        successor(l.behavior)
    } else {
        Behavior::Rest
    };
    let axes: u8 = if r.mode == Mode::Tracking {
        r.dimensions
    } else {
        0
    };
    let aims = if len > 0 {
        r.pattern@[index as int].target.draws()
    } else {
        behavior != Behavior::Surge
    };
    Upcoming {
        index,
        behavior,
        duration_draw: len > 0 || behavior != Behavior::Warning,
        target_draws: if aims {
            axes
        } else {
            0
        },
    }
}

/// Name the segment the next hook or behavior change of `l` would enter, so
/// that its duration can be computed before the tick.
pub fn upcoming(l: &Lifecycle, r: &Rules) -> (u: Upcoming)
    ensures
        u == upcoming_segment(*l, *r),
{
    let len = r.pattern.len();
    let struggle = matches!(l.phase, Phase::Struggle);
    let index: u8 = if len == 0 || !struggle {
        0
    } else {
        let k = l.segment_index as usize + 1;
        if k < len {
            k as u8
        } else {
            0
        }
    };
    let behavior = if len > 0 {
        r.pattern[index as usize].behavior
    } else if struggle {
        match l.behavior {
            Behavior::Rest => Behavior::Warning,
            Behavior::Warning => Behavior::Surge,
            Behavior::Surge => Behavior::Rest,
        }
    } else {
        Behavior::Rest
    };
    let axes: u8 = if matches!(r.mode, Mode::Tracking) {
        r.dimensions
    } else {
        0
    };
    let aims = if len > 0 {
        matches!(r.pattern[index as usize].target, TargetKind::Wander | TargetKind::Opposite)
    } else {
        !matches!(behavior, Behavior::Surge)
    };
    let duration_draw = len > 0 || !matches!(behavior, Behavior::Warning);
    Upcoming {
        index,
        behavior,
        duration_draw,
        target_draws: if aims {
            axes
        } else {
            0
        },
    }
}

/// Whether the fish decelerates in place during the current segment: the
/// original cycle's warning, or a pattern segment whose target rule holds.
pub open spec fn holding(l: Lifecycle, r: Rules) -> bool {
    if r.pattern@.len() == 0 {
        l.behavior == Behavior::Warning
    } else {
        l.segment_index < r.pattern@.len() && r.pattern@[l.segment_index as int].target
            == TargetKind::Hold
    }
}

/// Whether fish movement aims at the fish's own position this tick.
pub fn holds_position(l: &Lifecycle, r: &Rules) -> (b: bool)
    ensures
        b == holding(*l, *r),
{
    if r.pattern.len() == 0 {
        matches!(l.behavior, Behavior::Warning)
    } else {
        (l.segment_index as usize) < r.pattern.len() && matches!(
            r.pattern[l.segment_index as usize].target,
            TargetKind::Hold
        )
    }
}

/// RNG state after the duration draw of entering `u`.
pub open spec fn entry_seed(rng: u32, u: Upcoming) -> u32 {
    if u.duration_draw {
        lcg(rng)
    } else {
        rng
    }
}

/// `n` after entering segment `u` with a rounded duration of `raw` ticks.
pub open spec fn enter_segment(n: Lifecycle, u: Upcoming, raw: u32) -> Lifecycle {
    Lifecycle {
        segment_index: u.index,
        behavior: u.behavior,
        behavior_ticks: 0,
        behavior_duration: clamp_ticks(raw),
        rng: lcg_iter(entry_seed(n.rng, u), u.target_draws as nat),
        ..n
    }
}

/// The record of entering segment `u` from `n`.
pub open spec fn segment_entry(n: Lifecycle, u: Upcoming) -> Entry {
    Entry {
        index: u.index,
        behavior: u.behavior,
        seed: entry_seed(n.rng, u),
        target_draws: u.target_draws,
    }
}

/// `n` ended in a terminal phase for `reason`.
pub open spec fn ended(n: Lifecycle, phase: Phase, reason: Reason) -> Lifecycle {
    Lifecycle { phase, phase_ticks: 0, duration: 0, reason: Some(reason), ..n }
}

/// Whether a tick leaves the state untouched: terminal states absorb input
/// and a ready state waits for a fresh press without consuming a tick.
pub open spec fn idle(l: Lifecycle, t: Tick) -> bool {
    l.phase.terminal() || (l.phase == Phase::Ready && !t.pressed)
}

/// The effect of the phase rules on an advancing tick, before the tick limit.
pub open spec fn phase_rule(l: Lifecycle, r: Rules, t: Tick) -> (Lifecycle, Seq<Event>, Option<Entry>) {
    let n = Lifecycle { tick: (l.tick + 1) as u32, phase_ticks: (l.phase_ticks + 1) as u32, ..l };
    let expired = n.phase_ticks >= l.duration;
    match l.phase {
        Phase::Ready => (
            Lifecycle {
                rng: lcg(l.rng),
                phase: Phase::Waiting,
                phase_ticks: 0,
                duration: clamp_ticks(t.timing.wait),
                ..n
            },
            seq![Event::Cast],
            None,
        ),
        Phase::Waiting => if !expired {
            (n, seq![], None)
        } else if l.nibbles_left > 0 {
            (
                Lifecycle {
                    phase: Phase::Nibble,
                    phase_ticks: 0,
                    duration: clamp_ticks(t.timing.nibble),
                    nibbles_left: (l.nibbles_left - 1) as u8,
                    ..n
                },
                seq![Event::Nibble],
                None,
            )
        } else {
            (
                Lifecycle {
                    phase: Phase::Bite,
                    phase_ticks: 0,
                    duration: clamp_ticks(t.timing.bite),
                    ..n
                },
                seq![Event::Bite],
                None,
            )
        },
        Phase::Nibble => if expired {
            (
                Lifecycle {
                    phase: Phase::Waiting,
                    phase_ticks: 0,
                    duration: clamp_ticks(t.timing.gap),
                    ..n
                },
                seq![],
                None,
            )
        } else if t.pressed {
            (ended(n, Phase::Escaped, Reason::EarlyHook), seq![Event::Escaped], None)
        } else {
            (n, seq![], None)
        },
        Phase::Bite => if expired {
            (ended(n, Phase::Escaped, Reason::MissedBite), seq![Event::Escaped], None)
        } else if !t.pressed {
            (n, seq![], None)
        } else if r.mode == Mode::Hook {
            (ended(n, Phase::Caught, Reason::Landed), seq![Event::Hooked, Event::Caught], None)
        } else {
            let h = Lifecycle { phase: Phase::Struggle, phase_ticks: 0, duration: 0, ..n };
            let u = upcoming_segment(l, r);
            (
                enter_segment(h, u, t.timing.segment),
                seq![Event::Hooked, behavior_event(u.behavior)],
                Some(segment_entry(h, u)),
            )
        },
        Phase::Struggle => {
            let m = Lifecycle { behavior_ticks: (l.behavior_ticks + 1) as u32, ..n };
            if t.crossed.line_broke {
                (ended(m, Phase::Escaped, Reason::LineBroke), seq![Event::Escaped], None)
            } else if t.crossed.got_away {
                (ended(m, Phase::Escaped, Reason::GotAway), seq![Event::Escaped], None)
            } else if t.crossed.landed {
                (ended(m, Phase::Caught, Reason::Landed), seq![Event::Caught], None)
            } else if m.behavior_ticks >= l.behavior_duration {
                let u = upcoming_segment(l, r);
                (
                    enter_segment(m, u, t.timing.segment),
                    seq![behavior_event(u.behavior)],
                    Some(segment_entry(m, u)),
                )
            } else {
                (m, seq![], None)
            }
        },
        _ => (l, seq![], None),
    }
}

/// One tick: the next state, the ordered events, whether a tick was consumed,
/// and the segment entered. A tick that reaches the limit without ending
/// the encounter ends it by timeout and reports only the escape.
pub open spec fn transition(l: Lifecycle, r: Rules, t: Tick) -> (
    Lifecycle,
    Seq<Event>,
    bool,
    Option<Entry>,
) {
    if idle(l, t) {
        (l, seq![], false, None)
    } else {
        let (m, events, e) = phase_rule(l, r, t);
        if !m.phase.terminal() && m.tick >= r.max_ticks {
            (ended(m, Phase::Escaped, Reason::Timeout), seq![Event::Escaped], true, e)
        } else {
            (m, events, true, e)
        }
    }
}

/// Next state and ordered events produced by one call to [`step`].
#[derive(Debug, Clone, PartialEq, Eq)]
pub struct Advance {
    /// Next state; the input state remains unchanged.
    pub state: Lifecycle,
    /// Ordered events for this tick, empty when no transition occurs.
    pub events: Vec<Event>,
    /// Whether the tick advanced the encounter clock.
    pub advanced: bool,
    /// The segment entered during this tick, whose target draws start at its seed.
    pub entered: Option<Entry>,
}

/// Why a tick was refused.
#[derive(Debug, Clone, Copy, PartialEq, Eq, Structural)]
pub enum StepError {
    /// The rules are invalid.
    Rules(RuleError),
    /// The state does not fit the rules.
    State(StateError),
}

/// The event announcing behavior `b`.
fn announce(b: Behavior) -> (e: Event)
    ensures
        e == behavior_event(b),
{
    match b {
        Behavior::Rest => Event::Rest,
        Behavior::Warning => Event::Warning,
        Behavior::Surge => Event::Surge,
    }
}

/// End the encounter in `phase` for `reason`.
fn finish(n: Lifecycle, phase: Phase, reason: Reason, entered: Option<Entry>) -> (a: Advance)
    ensures
        a.state == ended(n, phase, reason),
        a.events@ == seq![end_event(phase)],
        a.advanced,
        a.entered == entered,
{
    let mut s = n;
    s.phase = phase;
    s.phase_ticks = 0;
    s.duration = 0;
    s.reason = Some(reason);
    let e = if matches!(phase, Phase::Caught) {
        Event::Caught
    } else {
        Event::Escaped
    };
    Advance { state: s, events: vec![e], advanced: true, entered }
}

/// Enter segment `u` with a rounded duration of `raw` ticks, consuming its draws.
fn enter(n: &mut Lifecycle, u: Upcoming, raw: u32) -> (e: Entry)
    ensures
        *final(n) == enter_segment(*old(n), u, raw),
        e == segment_entry(*old(n), u),
{
    let seed = if u.duration_draw {
        random(n.rng)
    } else {
        n.rng
    };
    n.segment_index = u.index;
    n.behavior = u.behavior;
    n.behavior_ticks = 0;
    n.behavior_duration = ticks(raw);
    n.rng = draw_n(seed, u.target_draws);
    Entry { index: u.index, behavior: u.behavior, seed, target_draws: u.target_draws }
}

/// Advance one tick. Validates the rules and the state first. Expiry takes
/// precedence over input; loss thresholds take precedence over landing; a
/// behavior change follows integration; the tick limit is checked last.
pub fn step(l: &Lifecycle, r: &Rules, t: &Tick) -> (out: Result<Advance, StepError>)
    ensures
        match out {
            Ok(a) => r.wf() && l.valid(*r) && (a.state, a.events@, a.advanced, a.entered)
                == transition(*l, *r, *t),
            Err(StepError::Rules(e)) => rules_error(*r) == Some(e),
            Err(StepError::State(e)) => r.wf() && state_error(*l, *r) == Some(e),
        },
{
    if let Err(e) = r.validate() {
        return Err(StepError::Rules(e));
    }
    if let Err(e) = l.validate(r) {
        return Err(StepError::State(e));
    }
    if l.is_terminal() || (matches!(l.phase, Phase::Ready) && !t.pressed) {
        return Ok(Advance { state: *l, events: Vec::new(), advanced: false, entered: None });
    }
    let ghost rule = phase_rule(*l, *r, *t);
    let mut n = *l;
    n.tick = l.tick + 1;
    n.phase_ticks = l.phase_ticks + 1;
    let mut events: Vec<Event> = Vec::new();
    let mut entered: Option<Entry> = None;
    match l.phase {
        Phase::Ready => {
            n.rng = random(l.rng);
            n.phase = Phase::Waiting;
            n.phase_ticks = 0;
            n.duration = ticks(t.timing.wait);
            events.push(Event::Cast);
        },
        Phase::Waiting => {
            if n.phase_ticks >= l.duration {
                if l.nibbles_left > 0 {
                    n.phase = Phase::Nibble;
                    n.phase_ticks = 0;
                    n.duration = ticks(t.timing.nibble);
                    n.nibbles_left = l.nibbles_left - 1;
                    events.push(Event::Nibble);
                } else {
                    n.phase = Phase::Bite;
                    n.phase_ticks = 0;
                    n.duration = ticks(t.timing.bite);
                    events.push(Event::Bite);
                }
            }
        },
        Phase::Nibble => {
            if n.phase_ticks >= l.duration {
                n.phase = Phase::Waiting;
                n.phase_ticks = 0;
                n.duration = ticks(t.timing.gap);
            } else if t.pressed {
                return Ok(finish(n, Phase::Escaped, Reason::EarlyHook, None));
            }
        },
        Phase::Bite => {
            if n.phase_ticks >= l.duration {
                return Ok(finish(n, Phase::Escaped, Reason::MissedBite, None));
            }
            if t.pressed {
                if matches!(r.mode, Mode::Hook) {
                    let mut a = finish(n, Phase::Caught, Reason::Landed, None);
                    a.events = vec![Event::Hooked, Event::Caught];
                    return Ok(a);
                }
                n.phase = Phase::Struggle;
                n.phase_ticks = 0;
                n.duration = 0;
                let u = upcoming(l, r);
                let e = enter(&mut n, u, t.timing.segment);
                entered = Some(e);
                events.push(Event::Hooked);
                events.push(announce(u.behavior));
            }
        },
        Phase::Struggle => {
            n.behavior_ticks = l.behavior_ticks + 1;
            if t.crossed.line_broke {
                return Ok(finish(n, Phase::Escaped, Reason::LineBroke, None));
            }
            if t.crossed.got_away {
                return Ok(finish(n, Phase::Escaped, Reason::GotAway, None));
            }
            if t.crossed.landed {
                return Ok(finish(n, Phase::Caught, Reason::Landed, None));
            }
            if n.behavior_ticks >= l.behavior_duration {
                let u = upcoming(l, r);
                let e = enter(&mut n, u, t.timing.segment);
                entered = Some(e);
                events.push(announce(u.behavior));
            }
        },
        _ => {},
    }
    assert(n == rule.0 && events@ == rule.1 && entered == rule.2);
    if n.tick >= r.max_ticks {
        return Ok(finish(n, Phase::Escaped, Reason::Timeout, entered));
    }
    Ok(Advance { state: n, events, advanced: true, entered })
}

} // verus!
