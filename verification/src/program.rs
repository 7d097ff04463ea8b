//! Bounded declarative fish behaviors: the discrete shape of each segment.
use vstd::prelude::*;

use crate::types::Behavior;

verus! {

/// Largest number of segments in a fish pattern.
pub const MAX_SEGMENTS: usize = 16;

/// A pattern may hold at most [`MAX_SEGMENTS`] segments.
pub fn pattern_length_ok(len: usize) -> (r: bool)
    ensures
        r == (len <= MAX_SEGMENTS),
{
    len <= MAX_SEGMENTS
}

/// How a segment chooses its movement target on entry. The numeric payloads
/// of wander distances and fixed points belong to the host's tuning.
#[derive(Debug, Clone, Copy, PartialEq, Eq, Structural)]
pub enum TargetKind {
    /// Continue toward the previous target, without consuming a target draw.
    Keep,
    /// Decelerate in place throughout this segment; no target draws.
    Hold,
    /// Choose a random displacement independently on each active axis.
    Wander,
    /// Aim at a fixed point, without consuming a target draw.
    Point,
    /// Choose a random target in the opposite half, like the original warning.
    Opposite,
}

impl TargetKind {
    /// Whether entering a segment with this rule draws one target per active axis.
    pub open spec fn draws(self) -> bool {
        self == TargetKind::Wander || self == TargetKind::Opposite
    }
}

/// The discrete part of one pattern segment: its event label and target rule.
#[derive(Debug, Clone, Copy, PartialEq, Eq, Structural)]
pub struct SegmentKind {
    /// Event label and visible behavior, independent of numeric effort.
    pub behavior: Behavior,
    /// Rule evaluated when entering this segment.
    pub target: TargetKind,
}

} // verus!
