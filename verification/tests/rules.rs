use fishing::geometry::{check_rings, edge_pairs, ShapeError};
use fishing::loadout::{
    first_hit, pool_size_ok, uses_fish_pattern, uses_spatial_attributes, uses_struggle_attributes,
};
use fishing::{
    create_state, default_limit, default_max_ticks, Behavior, Mode, RuleError, Rules, SegmentKind,
    TargetKind, TimingPolicy, MAX_TICKS,
};

fn rules(mode: Mode, dimensions: u8) -> Rules {
    Rules {
        mode,
        dimensions,
        polygon: false,
        max_ticks: default_max_ticks(),
        nibble_count: 0,
        pattern: vec![],
    }
}

fn segment() -> SegmentKind {
    SegmentKind {
        behavior: Behavior::Rest,
        target: TargetKind::Keep,
    }
}

#[test]
fn defaults_match_the_documented_values() {
    assert_eq!(default_max_ticks(), 3600);
    assert_eq!(default_limit(), 3600);
    assert_eq!(TimingPolicy::default(), TimingPolicy::Classic);
}

#[test]
fn mismatched_mechanisms_are_rejected() {
    for (mode, dimensions) in [
        (Mode::Hook, 1),
        (Mode::Pressure, 2),
        (Mode::Tracking, 0),
        (Mode::Tracking, 3),
    ] {
        assert_eq!(create_state(42, &rules(mode, dimensions)), Err(RuleError::Mechanism));
    }
    for (mode, dimensions) in [
        (Mode::Hook, 0),
        (Mode::Pressure, 0),
        (Mode::Tracking, 1),
        (Mode::Tracking, 2),
    ] {
        assert_eq!(rules(mode, dimensions).validate(), Ok(()));
    }
}

#[test]
fn tick_limits_and_pattern_bounds_are_checked() {
    let mut r = rules(Mode::Pressure, 0);
    r.max_ticks = 0;
    assert_eq!(r.validate(), Err(RuleError::TickLimit));
    r.max_ticks = MAX_TICKS + 1;
    assert_eq!(r.validate(), Err(RuleError::TickLimit));
    r.max_ticks = MAX_TICKS;
    assert_eq!(r.validate(), Ok(()));
    r.pattern = vec![segment(); 17];
    assert_eq!(r.validate(), Err(RuleError::PatternLength));
    r.pattern = vec![segment(); 16];
    assert_eq!(r.validate(), Ok(()));
    r.nibble_count = 9;
    assert_eq!(r.validate(), Err(RuleError::NibbleCount));
    r.nibble_count = 8;
    assert_eq!(r.validate(), Ok(()));
    let mut hook = rules(Mode::Hook, 0);
    hook.pattern = vec![segment()];
    assert_eq!(hook.validate(), Err(RuleError::HookPattern));
    let mut flat = rules(Mode::Tracking, 1);
    flat.polygon = true;
    assert_eq!(flat.validate(), Err(RuleError::PolygonDimensions));
    flat.dimensions = 2;
    assert_eq!(flat.validate(), Ok(()));
}

#[test]
fn capture_ring_structure_is_bounded() {
    assert_eq!(check_rings(&vec![4]), Ok(()));
    assert_eq!(check_rings(&vec![4, 3]), Ok(()));
    assert_eq!(check_rings(&vec![48, 48]), Ok(()));
    assert_eq!(check_rings(&vec![]), Err(ShapeError::RingCount));
    assert_eq!(check_rings(&vec![4, 4, 4]), Err(ShapeError::RingCount));
    assert_eq!(check_rings(&vec![2]), Err(ShapeError::RingSize));
    assert_eq!(check_rings(&vec![4, 49]), Err(ShapeError::RingSize));
}

#[test]
fn only_non_adjacent_edges_are_tested_for_crossings() {
    assert_eq!(edge_pairs(3), vec![]);
    assert_eq!(edge_pairs(4), vec![(0, 2), (1, 3)]);
    assert_eq!(
        edge_pairs(5),
        vec![(0, 2), (0, 3), (1, 3), (1, 4), (2, 4)]
    );
    // n edges each face n - 3 non-adjacent edges, every pair counted once.
    assert_eq!(edge_pairs(48).len(), 48 * 45 / 2);
}

#[test]
fn mechanisms_choose_the_profile_attributes_they_use() {
    assert!(!uses_struggle_attributes(Mode::Hook));
    assert!(uses_struggle_attributes(Mode::Pressure));
    assert!(uses_struggle_attributes(Mode::Tracking));
    assert!(!uses_spatial_attributes(Mode::Pressure));
    assert!(uses_spatial_attributes(Mode::Tracking));
    assert!(uses_fish_pattern(Mode::Tracking, 1));
    assert!(!uses_fish_pattern(Mode::Tracking, 0));
    assert!(!uses_fish_pattern(Mode::Hook, 3));
}

#[test]
fn weighted_draw_picks_the_first_cumulative_hit_or_the_last_entry() {
    assert!(!pool_size_ok(0));
    assert!(pool_size_ok(1));
    assert!(pool_size_ok(64));
    assert!(!pool_size_ok(65));
    assert_eq!(first_hit(&vec![false, true, true]), 1);
    assert_eq!(first_hit(&vec![true, true]), 0);
    assert_eq!(first_hit(&vec![false, false, false]), 2);
    assert_eq!(first_hit(&vec![false]), 0);
}
