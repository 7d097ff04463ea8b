//! Pure, bounded lifecycle state machine for casual fishing minigames: the
//! discrete rules of casting, waiting, false bites, hooking, the fish behavior
//! cycle, terminal outcomes and tick limits, with an explicit 32-bit RNG.
pub mod dynamics;
pub mod geometry;
pub mod laws;
pub mod loadout;
pub mod phase_laws;
pub mod program;
pub mod rule_laws;
pub mod types;

pub use dynamics::{
    create_state, holds_position, random, step, ticks, upcoming, Advance, Crossed, Entry, StepError, Tick,
    Timing, Upcoming,
};
pub use loadout::{default_limit, TimingPolicy};
pub use program::{pattern_length_ok, SegmentKind, TargetKind, MAX_SEGMENTS};
pub use types::{
    default_max_ticks, nibble_count_ok, Behavior, Event, Lifecycle, Mode, Phase, Reason, RuleError, Rules,
    StateError, HZ, MAX_NIBBLES, MAX_TICKS, VERSION,
};
