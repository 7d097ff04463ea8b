//! Discrete decisions of profile resolution and weighted pond selection:
//! which profile attributes a mechanism uses, which pattern a fish brings,
//! the pool bounds, and how a draw picks an entry from cumulative odds.
use vstd::prelude::*;

use crate::types::Mode;

verus! {

/// Largest pond a selection draws from.
pub const MAX_POOL: usize = 64;

/// How profile resolution obtains waiting and hook timing.
#[derive(Debug, Clone, Copy, PartialEq, Eq, Structural)]
pub enum TimingPolicy {
    /// Original 1.5–3 second wait and prototype timing caps, preserving old recipes.
    Classic,
    /// Use the definition's wait range, scaled by bait, with broad structural caps.
    Configured,
}

impl Default for TimingPolicy {
    fn default() -> (r: Self)
        ensures
            r == TimingPolicy::Classic,
    {
        TimingPolicy::Classic
    }
}

/// Encounter tick limit used when a definition omits one (60 seconds).
pub fn default_limit() -> (r: u32)
    ensures
        r == 3600,
{
    3600
}

/// Fish effort, durations, fatigue and recovery, and the rod's reel rate and
/// line capacity, replace the base tuning in every mechanism with a struggle.
pub fn uses_struggle_attributes(mode: Mode) -> (r: bool)
    ensures
        r == (mode != Mode::Hook),
{
    !matches!(mode, Mode::Hook)
}

/// Fish movement and the rod's window and tackle handling replace the base
/// tuning only in spatial tracking.
pub fn uses_spatial_attributes(mode: Mode) -> (r: bool)
    ensures
        r == (mode == Mode::Tracking),
{
    matches!(mode, Mode::Tracking)
}

/// A nonempty fish pattern overrides the definition's pattern in struggle modes.
pub fn uses_fish_pattern(mode: Mode, fish_pattern_len: usize) -> (r: bool)
    ensures
        r == (mode != Mode::Hook && fish_pattern_len > 0),
{
    !matches!(mode, Mode::Hook) && fish_pattern_len > 0
}

/// A pond holds 1..=64 fish.
pub fn pool_size_ok(n: usize) -> (r: bool)
    ensures
        r == (1 <= n <= MAX_POOL),
{
    1 <= n && n <= MAX_POOL
}

/// Pick the entry a draw selects, given for each entry whether the draw lies
/// below the cumulative odds up to and including it: the first such entry, or
/// the last entry when rounding leaves the draw above every cumulative sum.
pub fn first_hit(hits: &Vec<bool>) -> (index: usize)
    requires
        hits@.len() > 0,
    ensures
        index < hits@.len(),
        hits@[index as int] || index == hits@.len() - 1,
        forall|k: int| 0 <= k < index ==> !hits@[k],
{
    let mut i: usize = 0;
    while i < hits.len()
        invariant
            i <= hits@.len(),
            forall|k: int| 0 <= k < i ==> !hits@[k],
        decreases hits.len() - i,
    {
        if hits[i] {
            return i;
        }
        i = i + 1;
    }
    hits.len() - 1
}

} // verus!
