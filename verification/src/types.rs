//! Discrete wire types, encounter rules and snapshot validation.
//!
//! The numeric tuning, resources and spatial state of an encounter are real
//! numbers and live with the host; this module holds every integer, flag and
//! enumeration that decides the lifecycle of an encounter.
use vstd::prelude::*;

use crate::program::{SegmentKind, MAX_SEGMENTS};

verus! {

/// State schema revision, independent of the crate version.
pub const VERSION: u32 = 2;

/// Fixed simulation frequency in ticks per second.
pub const HZ: u32 = 60;

/// Absolute tick ceiling (600 simulated seconds); each config sets its own lower limit.
pub const MAX_TICKS: u32 = 36_000;

/// Largest number of false bites an encounter may have.
pub const MAX_NIBBLES: u8 = 8;

/// Encounter tick limit used when a configuration omits one (60 seconds).
pub fn default_max_ticks() -> (r: u32)
    ensures
        r == 3600,
{
    3600
}

/// A false-bite sequence may hold at most [`MAX_NIBBLES`] nibbles.
pub fn nibble_count_ok(count: u8) -> (r: bool)
    ensures
        r == (count <= MAX_NIBBLES),
{
    count <= MAX_NIBBLES
}

/// Mechanism used during an encounter; combine with [`Rules::dimensions`].
#[derive(Debug, Clone, Copy, PartialEq, Eq, Structural)]
pub enum Mode {
    /// A fresh press during the bite lands the fish immediately.
    Hook,
    /// Reel/release directly controls the resource dynamics; no spatial state.
    Pressure,
    /// Spatial overlap drives reeling and resource dynamics.
    Tracking,
}

/// Lifecycle phase. Caught and escaped are absorbing terminal states.
#[derive(Debug, Clone, Copy, PartialEq, Eq, Structural)]
pub enum Phase {
    /// Idle until a fresh primary press casts.
    Ready,
    /// Cast is waiting for a bite.
    Waiting,
    /// A fresh primary press can hook before the deadline.
    Bite,
    /// False bite: wait for it to end; a fresh hook here loses the fish.
    Nibble,
    /// Active pressure or tracking loop.
    Struggle,
    /// Fish landed; further input leaves the state unchanged.
    Caught,
    /// Encounter lost; further input leaves the state unchanged.
    Escaped,
}

/// Fish effort cycle during struggle: rest, warning, then surge.
#[derive(Debug, Clone, Copy, PartialEq, Eq, Structural)]
pub enum Behavior {
    /// Fish recovers with reduced pull and slower movement.
    Rest,
    /// Telegraph before a surge; spatial fish decelerate.
    Warning,
    /// Fish pulls harder and moves faster.
    Surge,
}

/// Why an encounter ended; available in [`Lifecycle::reason`].
#[derive(Debug, Clone, Copy, PartialEq, Eq, Structural)]
pub enum Reason {
    /// Hook deadline expired.
    MissedBite,
    /// A fresh hook was attempted during a nibble.
    EarlyHook,
    /// Raw strain reached or exceeded 1.
    LineBroke,
    /// Raw progress reached or fell below 0.
    GotAway,
    /// Fish successfully caught.
    Landed,
    /// Encounter reached the advancing-tick limit.
    Timeout,
}

/// Ordered transition notifications. Hosts decide how to present them.
#[derive(Debug, Clone, Copy, PartialEq, Eq, Structural)]
pub enum Event {
    /// Cast entered the waiting phase.
    Cast,
    /// A fresh primary press can hook before the deadline.
    Bite,
    /// False bite: wait for it to end; a fresh hook here loses the fish.
    Nibble,
    /// A fresh hook input was accepted.
    Hooked,
    /// Fish recovers with reduced pull and slower movement.
    Rest,
    /// Telegraph before a surge; spatial fish decelerate.
    Warning,
    /// Fish pulls harder and moves faster.
    Surge,
    /// Fish landed; further input leaves the state unchanged.
    Caught,
    /// Encounter lost; further input leaves the state unchanged.
    Escaped,
}

impl Phase {
    /// Caught and escaped absorb all further input.
    pub open spec fn terminal(self) -> bool {
        self == Phase::Caught || self == Phase::Escaped
    }

    /// Waiting, nibble and bite run against a deadline.
    pub open spec fn timed(self) -> bool {
        self == Phase::Waiting || self == Phase::Bite || self == Phase::Nibble
    }
}

/// The event announcing that the fish entered `b`.
pub open spec fn behavior_event(b: Behavior) -> Event {
    match b {
        Behavior::Rest => Event::Rest,
        Behavior::Warning => Event::Warning,
        Behavior::Surge => Event::Surge,
    }
}

/// The event announcing a terminal phase.
pub open spec fn end_event(phase: Phase) -> Event {
    if phase == Phase::Caught {
        Event::Caught
    } else {
        Event::Escaped
    }
}

/// Whether a mechanism may run with this many spatial dimensions:
/// tracking takes one or two, hook and pressure take none.
pub open spec fn mechanism_matches(mode: Mode, dimensions: u8) -> bool {
    match mode {
        Mode::Tracking => dimensions == 1 || dimensions == 2,
        _ => dimensions == 0,
    }
}

/// The discrete part of a resolved configuration: everything in it that
/// decides phases, timers, counters and draws. Keep it fixed for the entire run.
#[derive(Debug, Clone, PartialEq, Eq)]
pub struct Rules {
    /// Hook-only, pressure/release, or spatial tracking.
    pub mode: Mode,
    /// 0 for hook/pressure; 1 or 2 for tracking.
    pub dimensions: u8,
    /// Whether the capture shape is a polygon rather than the rectangle.
    pub polygon: bool,
    /// Encounter tick limit in 1..=MAX_TICKS.
    pub max_ticks: u32,
    /// Number of false bites before the real bite, 0..=8.
    pub nibble_count: u8,
    /// Ordered fish segments; empty selects the original rest/warning/surge cycle.
    pub pattern: Vec<SegmentKind>,
}

/// Why a set of rules was refused.
#[derive(Debug, Clone, Copy, PartialEq, Eq, Structural)]
pub enum RuleError {
    /// The mode does not take this many dimensions.
    Mechanism,
    /// A polygon capture needs two-dimensional tracking.
    PolygonDimensions,
    /// The tick limit is zero or above [`MAX_TICKS`].
    TickLimit,
    /// The pattern has more than 16 segments.
    PatternLength,
    /// More than 8 false bites.
    NibbleCount,
    /// Hook mode has no struggle, so no pattern.
    HookPattern,
}

/// The first rule that `r` breaks, in the order the checks are made.
pub open spec fn rules_error(r: Rules) -> Option<RuleError> {
    if !mechanism_matches(r.mode, r.dimensions) {
        Some(RuleError::Mechanism)
    } else if r.dimensions != 2 && r.polygon {
        Some(RuleError::PolygonDimensions)
    } else if r.max_ticks == 0 || r.max_ticks > MAX_TICKS {
        Some(RuleError::TickLimit)
    } else if r.pattern@.len() > MAX_SEGMENTS {
        Some(RuleError::PatternLength)
    } else if r.nibble_count > MAX_NIBBLES {
        Some(RuleError::NibbleCount)
    } else if r.mode == Mode::Hook && r.pattern@.len() > 0 {
        Some(RuleError::HookPattern)
    } else {
        None
    }
}

impl Rules {
    /// Rules that every operation accepts.
    pub open spec fn wf(self) -> bool {
        rules_error(self) is None
    }

    /// Check the mechanism, capture dimensions, tick limit, pattern length,
    /// nibble count and the hook-mode pattern. Returns the first violation.
    pub fn validate(&self) -> (r: Result<(), RuleError>)
        ensures
            r == (match rules_error(*self) {
                None => Ok(()),
                Some(e) => Err(e),
            }),
    {
        let matches = match self.mode {
            Mode::Tracking => self.dimensions == 1 || self.dimensions == 2,
            _ => self.dimensions == 0,
        };
        if !matches {
            return Err(RuleError::Mechanism);
        }
        if self.dimensions != 2 && self.polygon {
            return Err(RuleError::PolygonDimensions);
        }
        if self.max_ticks == 0 || self.max_ticks > MAX_TICKS {
            return Err(RuleError::TickLimit);
        }
        if !crate::program::pattern_length_ok(self.pattern.len()) {
            return Err(RuleError::PatternLength);
        }
        if !nibble_count_ok(self.nibble_count) {
            return Err(RuleError::NibbleCount);
        }
        if matches!(self.mode, Mode::Hook) && self.pattern.len() > 0 {
            return Err(RuleError::HookPattern);
        }
        Ok(())
    }
}

/// The discrete part of a resumable simulation state: phase, timers,
/// counters and the explicit RNG. No hidden state exists.
#[derive(Debug, Clone, Copy, PartialEq, Eq, Structural)]
pub struct Lifecycle {
    /// Wire schema revision; currently [`VERSION`].
    pub version: u32,
    /// Hook-only, pressure/release, or spatial tracking.
    pub mode: Mode,
    /// 0 for hook/pressure; 1 or 2 for tracking.
    pub dimensions: u8,
    /// Advancing ticks since creation, bounded by [`MAX_TICKS`].
    pub tick: u32,
    /// Current lifecycle phase.
    pub phase: Phase,
    /// Advancing ticks elapsed in the current phase.
    pub phase_ticks: u32,
    /// Current waiting/nibble/bite duration in ticks; zero for untimed phases.
    pub duration: u32,
    /// Current fish effort behavior.
    pub behavior: Behavior,
    /// Ticks elapsed in the current fish behavior.
    pub behavior_ticks: u32,
    /// Current fish behavior duration in ticks.
    pub behavior_duration: u32,
    /// Explicit 32-bit RNG state, updated only when a draw is consumed.
    pub rng: u32,
    /// Terminal outcome reason; `None` while nonterminal.
    pub reason: Option<Reason>,
    /// Index in the custom fish pattern; zero for the original cycle.
    pub segment_index: u8,
    /// Number of false bites still to enter in this encounter.
    pub nibbles_left: u8,
}

/// Why a snapshot does not fit its rules.
#[derive(Debug, Clone, Copy, PartialEq, Eq, Structural)]
pub enum StateError {
    /// The schema revision is not [`VERSION`].
    Version,
    /// Mode or dimensions differ from the rules.
    Mechanism,
    /// A timer exceeds [`MAX_TICKS`].
    TimerBound,
    /// Time in the phase or behavior exceeds the total time.
    Elapsed,
    /// Past the tick limit, or at it without having ended.
    TickLimit,
    /// A reason is present exactly when the phase is terminal.
    TerminalReason,
    /// Caught requires the landed reason.
    CaughtNotLanded,
    /// Escaped cannot carry the landed reason.
    EscapedLanded,
    /// Hook mode has no struggle.
    HookStruggle,
    /// A timed phase needs a positive duration not yet reached.
    PhaseTimer,
    /// More false bites left than configured, or a nibble without any.
    Nibbles,
    /// The segment index does not name a pattern segment.
    SegmentIndex,
    /// The struggle behavior differs from the current segment's.
    SegmentBehavior,
    /// The struggle needs a positive behavior duration not yet reached.
    BehaviorTimer,
}

/// The first check that `l` fails against `r`, in the order the checks are made.
pub open spec fn state_error(l: Lifecycle, r: Rules) -> Option<StateError> {
    if l.version != VERSION {
        Some(StateError::Version)
    } else if l.mode != r.mode || l.dimensions != r.dimensions {
        Some(StateError::Mechanism)
    } else if l.tick > MAX_TICKS || l.phase_ticks > MAX_TICKS || l.duration > MAX_TICKS
        || l.behavior_ticks > MAX_TICKS || l.behavior_duration > MAX_TICKS {
        Some(StateError::TimerBound)
    } else if l.phase_ticks > l.tick || l.behavior_ticks > l.tick {
        Some(StateError::Elapsed)
    } else if l.tick > r.max_ticks || (!l.phase.terminal() && l.tick == r.max_ticks) {
        Some(StateError::TickLimit)
    } else if l.phase.terminal() != (l.reason is Some) {
        Some(StateError::TerminalReason)
    } else if l.phase == Phase::Caught && l.reason != Some(Reason::Landed) {
        Some(StateError::CaughtNotLanded)
    } else if l.phase == Phase::Escaped && l.reason == Some(Reason::Landed) {
        Some(StateError::EscapedLanded)
    } else if l.phase == Phase::Struggle && r.mode == Mode::Hook {
        Some(StateError::HookStruggle)
    } else if l.phase.timed() && (l.duration == 0 || l.phase_ticks >= l.duration) {
        Some(StateError::PhaseTimer)
    } else if l.nibbles_left > r.nibble_count || (l.phase == Phase::Nibble && r.nibble_count
        == 0) {
        Some(StateError::Nibbles)
    } else if (r.pattern@.len() == 0 && l.segment_index != 0) || (r.pattern@.len() > 0
        && l.segment_index >= r.pattern@.len()) {
        Some(StateError::SegmentIndex)
    } else if l.phase == Phase::Struggle && r.pattern@.len() > 0 && l.behavior
        != r.pattern@[l.segment_index as int].behavior {
        Some(StateError::SegmentBehavior)
    } else if l.phase == Phase::Struggle && (l.behavior_duration == 0 || l.behavior_ticks
        >= l.behavior_duration) {
        Some(StateError::BehaviorTimer)
    } else {
        None
    }
}

impl Lifecycle {
    /// The snapshot fits the rules: every check of [`Lifecycle::validate`] passes.
    pub open spec fn valid(self, r: Rules) -> bool {
        state_error(self, r) is None
    }

    /// Whether this state absorbs further input (caught or escaped).
    pub fn is_terminal(&self) -> (r: bool)
        ensures
            r == self.phase.terminal(),
    {
        matches!(self.phase, Phase::Caught | Phase::Escaped)
    }

    /// Check snapshot invariants against the rules; meaningful for rules that pass [`Rules::validate`].
    /// This checks structural validity, not reachability from a particular seed.
    pub fn validate(&self, r: &Rules) -> (out: Result<(), StateError>)
        ensures
            out == (match state_error(*self, *r) {
                None => Ok(()),
                Some(e) => Err(e),
            }),
    {
        if self.version != VERSION {
            return Err(StateError::Version);
        }
        if self.mode != r.mode || self.dimensions != r.dimensions {
            return Err(StateError::Mechanism);
        }
        if self.tick > MAX_TICKS || self.phase_ticks > MAX_TICKS || self.duration > MAX_TICKS
            || self.behavior_ticks > MAX_TICKS || self.behavior_duration > MAX_TICKS {
            return Err(StateError::TimerBound);
        }
        if self.phase_ticks > self.tick || self.behavior_ticks > self.tick {
            return Err(StateError::Elapsed);
        }
        let terminal = self.is_terminal();
        if self.tick > r.max_ticks || (!terminal && self.tick == r.max_ticks) {
            return Err(StateError::TickLimit);
        }
        let has_reason = self.reason.is_some();
        if terminal != has_reason {
            return Err(StateError::TerminalReason);
        }
        let landed = matches!(self.reason, Some(Reason::Landed));
        if matches!(self.phase, Phase::Caught) && !landed {
            return Err(StateError::CaughtNotLanded);
        }
        if matches!(self.phase, Phase::Escaped) && landed {
            return Err(StateError::EscapedLanded);
        }
        let struggle = matches!(self.phase, Phase::Struggle);
        if struggle && matches!(r.mode, Mode::Hook) {
            return Err(StateError::HookStruggle);
        }
        let timed = matches!(self.phase, Phase::Waiting | Phase::Bite | Phase::Nibble);
        if timed && (self.duration == 0 || self.phase_ticks >= self.duration) {
            return Err(StateError::PhaseTimer);
        }
        if self.nibbles_left > r.nibble_count || (matches!(self.phase, Phase::Nibble)
            && r.nibble_count == 0) {
            return Err(StateError::Nibbles);
        }
        let len = r.pattern.len();
        if (len == 0 && self.segment_index != 0) || (len > 0 && self.segment_index as usize
            >= len) {
            return Err(StateError::SegmentIndex);
        }
        if struggle && len > 0 && self.behavior != r.pattern[self.segment_index as usize].behavior {
            return Err(StateError::SegmentBehavior);
        }
        if struggle && (self.behavior_duration == 0 || self.behavior_ticks
            >= self.behavior_duration) {
            return Err(StateError::BehaviorTimer);
        }
        Ok(())
    }
}

} // verus!
