use fishing::{
    create_state, random, step, ticks, upcoming, Behavior, Crossed, Event, Lifecycle, Mode,
    Phase, Reason, Rules, SegmentKind, StepError, TargetKind, Tick, Timing, MAX_TICKS,
};

fn rules(mode: Mode, dimensions: u8) -> Rules {
    Rules {
        mode,
        dimensions,
        polygon: false,
        max_ticks: 3600,
        nibble_count: 0,
        pattern: vec![],
    }
}

const CALM: Crossed = Crossed {
    line_broke: false,
    got_away: false,
    landed: false,
};

// Rounded durations of the default tuning: 1.5 s wait, 1.1 s bite window,
// 0.25 s false bite, 0.6 s gap, 1.2 s rest.
const DEFAULT_TIMING: Timing = Timing {
    wait: 90,
    bite: 66,
    nibble: 15,
    gap: 36,
    segment: 72,
};

fn tick(pressed: bool, timing: Timing) -> Tick {
    Tick {
        pressed,
        crossed: CALM,
        timing,
    }
}

fn advance(s: &Lifecycle, r: &Rules, pressed: bool, timing: Timing) -> fishing::Advance {
    step(s, r, &tick(pressed, timing)).unwrap()
}

fn draws(seed: u32, n: usize) -> u32 {
    let mut s = seed;
    for _ in 0..n {
        s = random(s);
    }
    s
}

/// Cast, wait for the bite, then press once.
fn hooked(s: &Lifecycle, r: &Rules, timing: Timing) -> Lifecycle {
    let mut s = advance(s, r, true, timing).state;
    while s.phase != Phase::Bite {
        s = advance(&s, r, false, timing).state;
    }
    advance(&s, r, true, timing).state
}

#[test]
fn specified_rng_uses_wrapping_u32_arithmetic() {
    assert_eq!(random(0), 1_013_904_223);
    assert_eq!(random(u32::MAX), 1_012_239_698);
    for seed in [0, 1, 42, u32::MAX] {
        // The draw is the next state read as a fraction of 2^32.
        let draw = random(seed) as f64 / 4294967296.0;
        assert!((0.0..1.0).contains(&draw));
    }
    assert_eq!(random(1), 1_015_568_748);
}

#[test]
fn tick_counts_saturate_between_one_and_the_ceiling() {
    assert_eq!(ticks(0), 1);
    assert_eq!(ticks(1), 1);
    assert_eq!(ticks(90), 90);
    assert_eq!(ticks(MAX_TICKS), MAX_TICKS);
    assert_eq!(ticks(72_000), MAX_TICKS);
    assert_eq!(ticks(u32::MAX), MAX_TICKS);
}

#[test]
fn created_state_is_ready_and_valid() {
    let mut r = rules(Mode::Tracking, 2);
    r.nibble_count = 3;
    let s = create_state(42, &r).unwrap();
    assert_eq!(s.phase, Phase::Ready);
    assert_eq!(s.tick, 0);
    assert_eq!(s.rng, 42);
    assert_eq!(s.nibbles_left, 3);
    assert_eq!(s.reason, None);
    assert_eq!(s.version, fishing::VERSION);
    assert_eq!(s.validate(&r), Ok(()));
}

#[test]
fn ready_waits_for_a_fresh_press_without_consuming_ticks() {
    let r = rules(Mode::Pressure, 0);
    let s = create_state(42, &r).unwrap();
    let a = advance(&s, &r, false, DEFAULT_TIMING);
    assert_eq!(a.state, s);
    assert!(a.events.is_empty());
    assert!(!a.advanced);
}

#[test]
fn cast_consumes_exactly_one_draw() {
    let r = rules(Mode::Hook, 0);
    let s = create_state(42, &r).unwrap();
    let a = advance(&s, &r, true, DEFAULT_TIMING);
    assert_eq!(a.events, vec![Event::Cast]);
    assert_eq!(a.state.phase, Phase::Waiting);
    assert_eq!(a.state.duration, 90);
    assert_eq!(a.state.phase_ticks, 0);
    assert_eq!(a.state.tick, 1);
    assert_eq!(a.state.rng, random(42));
    assert!(a.advanced);
}

#[test]
fn terminal_states_absorb_further_input() {
    let r = rules(Mode::Hook, 0);
    let s = hooked(&create_state(0, &r).unwrap(), &r, DEFAULT_TIMING);
    assert_eq!(s.phase, Phase::Caught);
    for pressed in [false, true] {
        let mut t = tick(pressed, DEFAULT_TIMING);
        t.crossed.line_broke = true;
        let a = step(&s, &r, &t).unwrap();
        assert_eq!(a.state, s);
        assert!(a.events.is_empty());
        assert!(!a.advanced);
        assert_eq!(a.entered, None);
    }
}

#[test]
fn fresh_hook_edges_and_deadlines_are_explicit() {
    let r = rules(Mode::Hook, 0);
    let mut state = create_state(0, &r).unwrap();
    // Press: a fresh edge casts.
    state = advance(&state, &r, true, DEFAULT_TIMING).state;
    // Holding continuously cannot auto-hook when the bite arrives.
    while state.phase == Phase::Waiting {
        state = advance(&state, &r, false, DEFAULT_TIMING).state;
    }
    assert_eq!(advance(&state, &r, false, DEFAULT_TIMING).state.phase, Phase::Bite);
    // Release, then press again.
    state = advance(&state, &r, false, DEFAULT_TIMING).state;
    let caught = advance(&state, &r, true, DEFAULT_TIMING);
    assert_eq!(caught.events, vec![Event::Hooked, Event::Caught]);
    assert_eq!(caught.state.reason, Some(Reason::Landed));
    state.phase_ticks = state.duration - 1;
    state.tick = state.tick.max(state.phase_ticks);
    let missed = advance(&state, &r, true, DEFAULT_TIMING);
    assert_eq!(missed.state.reason, Some(Reason::MissedBite));
    assert_eq!(missed.events, vec![Event::Escaped]);
}

#[test]
fn holding_through_the_bite_misses_it() {
    let r = rules(Mode::Hook, 0);
    let mut s = create_state(42, &r).unwrap();
    s = advance(&s, &r, true, DEFAULT_TIMING).state;
    while !s.is_terminal() {
        // The host reports no fresh edge while the control stays held.
        s = advance(&s, &r, false, DEFAULT_TIMING).state;
    }
    assert_eq!(s.reason, Some(Reason::MissedBite));
    assert_eq!(s.tick, 1 + 90 + 66);
}

#[test]
fn broad_timing_lands_at_the_expected_tick() {
    let mut r = rules(Mode::Hook, 0);
    r.max_ticks = 2400;
    let timing = Timing {
        wait: 1200,
        bite: 240,
        ..DEFAULT_TIMING
    };
    let s = hooked(&create_state(42, &r).unwrap(), &r, timing);
    assert_eq!(s.phase, Phase::Caught);
    assert_eq!(s.tick, 1202);
}

#[test]
fn nibbles_are_false_bites_with_explicit_expiry_and_resume() {
    let mut r = rules(Mode::Hook, 0);
    r.nibble_count = 2;
    let timing = Timing {
        wait: 1,
        nibble: 3,
        gap: 1,
        ..DEFAULT_TIMING
    };
    let cast = advance(&create_state(7, &r).unwrap(), &r, true, timing).state;
    let a = advance(&cast, &r, false, timing);
    assert_eq!(a.events, vec![Event::Nibble]);
    let nibble = a.state;
    assert_eq!(nibble.phase, Phase::Nibble);
    assert_eq!(nibble.nibbles_left, 1);
    assert_eq!(nibble.rng, random(7));
    let early = advance(&nibble, &r, true, timing);
    assert_eq!(early.state.reason, Some(Reason::EarlyHook));
    assert_eq!(early.events, vec![Event::Escaped]);
    let mut s = nibble;
    for _ in 0..3 {
        s = advance(&s, &r, false, timing).state;
    }
    assert_eq!(s.phase, Phase::Waiting);
    s = advance(&s, &r, false, timing).state;
    assert_eq!(s.phase, Phase::Nibble);
    assert_eq!(s.nibbles_left, 0);
    for _ in 0..4 {
        s = advance(&s, &r, false, timing).state;
    }
    assert_eq!(s.phase, Phase::Bite);
    // No draws beyond the cast.
    assert_eq!(s.rng, random(7));
    assert_eq!(advance(&s, &r, true, timing).state.phase, Phase::Caught);
    let mut end = nibble;
    end.phase_ticks = 2;
    end.tick += 2;
    // Expiry before press.
    assert_eq!(advance(&end, &r, true, timing).state.phase, Phase::Waiting);
}

#[test]
fn holding_through_nibbles_does_not_create_a_hook_edge() {
    let mut r = rules(Mode::Hook, 0);
    r.nibble_count = 2;
    let timing = Timing {
        wait: 1,
        nibble: 1,
        gap: 1,
        bite: 3,
        ..DEFAULT_TIMING
    };
    let mut s = advance(&create_state(42, &r).unwrap(), &r, true, timing).state;
    while !s.is_terminal() {
        s = advance(&s, &r, false, timing).state;
    }
    assert_eq!(s.reason, Some(Reason::MissedBite));
}

#[test]
fn custom_limit_times_out_with_a_single_escape_event() {
    let mut r = rules(Mode::Pressure, 0);
    r.max_ticks = 2;
    let s = advance(&create_state(0, &r).unwrap(), &r, true, DEFAULT_TIMING).state;
    let a = advance(&s, &r, false, DEFAULT_TIMING);
    assert_eq!(a.state.reason, Some(Reason::Timeout));
    assert_eq!(a.state.phase, Phase::Escaped);
    assert_eq!(a.state.tick, 2);
    assert_eq!(a.events, vec![Event::Escaped]);
    // A limit of one ends the encounter on the cast itself.
    r.max_ticks = 1;
    let cast = advance(&create_state(0, &r).unwrap(), &r, true, DEFAULT_TIMING);
    assert_eq!(cast.events, vec![Event::Escaped]);
    assert_eq!(cast.state.reason, Some(Reason::Timeout));
    assert_eq!(cast.state.rng, random(0));
}

#[test]
fn original_cycle_rests_warns_and_surges() {
    let r = rules(Mode::Tracking, 2);
    let timing = Timing {
        wait: 1,
        segment: 2,
        ..DEFAULT_TIMING
    };
    let s = hooked(&create_state(42, &r).unwrap(), &r, timing);
    assert_eq!(s.phase, Phase::Struggle);
    assert_eq!(s.behavior, Behavior::Rest);
    assert_eq!(s.behavior_duration, 2);
    // Cast, rest duration, then one target draw per axis.
    assert_eq!(s.rng, draws(42, 4));
    let s1 = advance(&s, &r, false, timing).state;
    assert_eq!(s1.behavior, Behavior::Rest);
    let w = advance(&s1, &r, false, timing);
    assert_eq!(w.events, vec![Event::Warning]);
    assert_eq!(w.state.behavior, Behavior::Warning);
    // A warning takes no duration draw, only the two target draws.
    assert_eq!(w.state.rng, draws(42, 6));
    let entry = w.entered.unwrap();
    assert_eq!(entry.seed, draws(42, 4));
    assert_eq!(entry.target_draws, 2);
    let w1 = advance(&w.state, &r, false, timing).state;
    let surge = advance(&w1, &r, false, timing);
    assert_eq!(surge.events, vec![Event::Surge]);
    // A surge takes a duration draw and no target draws.
    assert_eq!(surge.state.rng, draws(42, 7));
    assert_eq!(surge.entered.unwrap().target_draws, 0);
    let s2 = advance(&surge.state, &r, false, timing).state;
    let rest = advance(&s2, &r, false, timing);
    assert_eq!(rest.events, vec![Event::Rest]);
    assert_eq!(rest.state.rng, draws(42, 10));
}

#[test]
fn duplicate_segments_have_distinct_indices() {
    let mut r = rules(Mode::Tracking, 2);
    r.pattern = vec![
        SegmentKind {
            behavior: Behavior::Surge,
            target: TargetKind::Point,
        },
        SegmentKind {
            behavior: Behavior::Surge,
            target: TargetKind::Point,
        },
    ];
    let timing = Timing {
        wait: 1,
        segment: 1,
        ..DEFAULT_TIMING
    };
    let s = hooked(&create_state(42, &r).unwrap(), &r, timing);
    assert_eq!(s.segment_index, 0);
    assert_eq!(s.behavior, Behavior::Surge);
    let next = advance(&s, &r, false, timing);
    assert_eq!(next.state.segment_index, 1);
    assert_eq!(next.events, vec![Event::Surge]);
    assert_eq!(next.state.rng, random(s.rng));
    // After the last segment the pattern wraps to the first.
    let wrapped = advance(&next.state, &r, false, timing);
    assert_eq!(wrapped.state.segment_index, 0);
}

#[test]
fn every_target_rule_consumes_only_entry_draws() {
    let targets = [
        TargetKind::Keep,
        TargetKind::Hold,
        TargetKind::Wander,
        TargetKind::Point,
        TargetKind::Opposite,
    ];
    let timing = Timing {
        wait: 1,
        segment: MAX_TICKS,
        ..DEFAULT_TIMING
    };
    for dimensions in 0..=2u8 {
        for target in targets {
            let mut r = rules(
                if dimensions == 0 {
                    Mode::Pressure
                } else {
                    Mode::Tracking
                },
                dimensions,
            );
            r.pattern = vec![SegmentKind {
                behavior: Behavior::Rest,
                target,
            }];
            let s = hooked(&create_state(42, &r).unwrap(), &r, timing);
            // One waiting draw, one segment duration draw, then one target draw per active axis.
            let expected = 2 + if matches!(target, TargetKind::Wander | TargetKind::Opposite) {
                dimensions as usize
            } else {
                0
            };
            assert_eq!(s.rng, draws(42, expected));
            let next = advance(&s, &r, false, timing).state;
            assert_eq!(next.rng, s.rng);
            assert_eq!(next.validate(&r), Ok(()));
        }
    }
}

#[test]
fn upcoming_names_the_segment_that_a_tick_enters() {
    let mut r = rules(Mode::Tracking, 1);
    r.pattern = vec![
        SegmentKind {
            behavior: Behavior::Warning,
            target: TargetKind::Opposite,
        },
        SegmentKind {
            behavior: Behavior::Surge,
            target: TargetKind::Keep,
        },
    ];
    let timing = Timing {
        wait: 1,
        segment: 1,
        ..DEFAULT_TIMING
    };
    let mut s = advance(&create_state(5, &r).unwrap(), &r, true, timing).state;
    s = advance(&s, &r, false, timing).state;
    assert_eq!(s.phase, Phase::Bite);
    let u = upcoming(&s, &r);
    assert_eq!((u.index, u.behavior, u.duration_draw, u.target_draws), (0, Behavior::Warning, true, 1));
    let a = advance(&s, &r, true, timing);
    let e = a.entered.unwrap();
    assert_eq!((e.index, e.behavior, e.target_draws), (0, Behavior::Warning, 1));
    assert_eq!(e.seed, random(s.rng));
    assert_eq!(a.events, vec![Event::Hooked, Event::Warning]);
    let u = upcoming(&a.state, &r);
    assert_eq!((u.index, u.behavior, u.target_draws), (1, Behavior::Surge, 0));
}

#[test]
fn loss_thresholds_take_precedence_over_landing() {
    let r = rules(Mode::Pressure, 0);
    let timing = Timing {
        wait: 1,
        ..DEFAULT_TIMING
    };
    let s = hooked(&create_state(42, &r).unwrap(), &r, timing);
    assert_eq!(s.phase, Phase::Struggle);
    let cases = [
        ((true, true, true), Reason::LineBroke, Event::Escaped),
        ((false, true, true), Reason::GotAway, Event::Escaped),
        ((false, false, true), Reason::Landed, Event::Caught),
    ];
    for ((line_broke, got_away, landed), reason, event) in cases {
        let t = Tick {
            pressed: false,
            crossed: Crossed {
                line_broke,
                got_away,
                landed,
            },
            timing,
        };
        let a = step(&s, &r, &t).unwrap();
        assert_eq!(a.state.reason, Some(reason));
        assert_eq!(a.events, vec![event]);
        assert_eq!(a.state.behavior_ticks, s.behavior_ticks + 1);
        assert_eq!(a.state.validate(&r), Ok(()));
    }
}

#[test]
fn zero_rates_reach_the_absolute_bound() {
    let mut r = rules(Mode::Pressure, 0);
    r.max_ticks = MAX_TICKS;
    r.pattern = vec![SegmentKind {
        behavior: Behavior::Rest,
        target: TargetKind::Keep,
    }];
    // A 600 s segment with full jitter rounds past the ceiling and saturates.
    let timing = Timing {
        wait: 1,
        segment: 72_000,
        ..DEFAULT_TIMING
    };
    let mut s = hooked(&create_state(42, &r).unwrap(), &r, timing);
    assert_eq!(s.behavior_duration, MAX_TICKS);
    while !s.is_terminal() {
        s = advance(&s, &r, false, timing).state;
        assert_eq!(s.validate(&r), Ok(()));
    }
    assert_eq!(s.tick, MAX_TICKS);
    assert_eq!(s.reason, Some(Reason::Timeout));
    assert_eq!(advance(&s, &r, true, timing).state, s);
}

#[test]
fn replay_from_the_same_seed_is_identical() {
    let r = rules(Mode::Tracking, 1);
    let run = || {
        let mut s = create_state(99, &r).unwrap();
        let mut log = vec![];
        for i in 0..400u32 {
            let t = tick(i % 7 == 0, Timing {
                segment: 20 + i % 5,
                ..DEFAULT_TIMING
            });
            let a = step(&s, &r, &t).unwrap();
            log.push(a.clone());
            s = a.state;
        }
        log
    };
    assert_eq!(run(), run());
}

#[test]
fn invalid_snapshots_are_rejected() {
    let mut r = rules(Mode::Tracking, 1);
    r.pattern = vec![SegmentKind {
        behavior: Behavior::Rest,
        target: TargetKind::Keep,
    }];
    let timing = Timing {
        wait: 1,
        ..DEFAULT_TIMING
    };
    let s = hooked(&create_state(42, &r).unwrap(), &r, timing);
    assert_eq!(s.validate(&r), Ok(()));
    let cases: Vec<(Lifecycle, fishing::StateError)> = vec![
        (Lifecycle { version: 1, ..s }, fishing::StateError::Version),
        (Lifecycle { dimensions: 2, ..s }, fishing::StateError::Mechanism),
        (Lifecycle { behavior_duration: MAX_TICKS + 1, ..s }, fishing::StateError::TimerBound),
        (Lifecycle { behavior_ticks: s.tick + 1, ..s }, fishing::StateError::Elapsed),
        (Lifecycle { tick: r.max_ticks, ..s }, fishing::StateError::TickLimit),
        (Lifecycle { reason: Some(Reason::Landed), ..s }, fishing::StateError::TerminalReason),
        (
            Lifecycle { phase: Phase::Caught, reason: Some(Reason::Timeout), ..s },
            fishing::StateError::CaughtNotLanded,
        ),
        (
            Lifecycle { phase: Phase::Escaped, reason: Some(Reason::Landed), ..s },
            fishing::StateError::EscapedLanded,
        ),
        (Lifecycle { phase: Phase::Waiting, duration: 0, ..s }, fishing::StateError::PhaseTimer),
        (Lifecycle { nibbles_left: 1, ..s }, fishing::StateError::Nibbles),
        (Lifecycle { segment_index: 1, ..s }, fishing::StateError::SegmentIndex),
        (Lifecycle { behavior: Behavior::Surge, ..s }, fishing::StateError::SegmentBehavior),
        (Lifecycle { behavior_ticks: 0, behavior_duration: 0, ..s }, fishing::StateError::BehaviorTimer),
    ];
    for (bad, error) in cases {
        assert_eq!(bad.validate(&r), Err(error));
        assert_eq!(step(&bad, &r, &tick(false, timing)), Err(StepError::State(error)));
    }
    let hook = rules(Mode::Hook, 0);
    let struggling = Lifecycle {
        mode: Mode::Hook,
        dimensions: 0,
        ..s
    };
    assert_eq!(struggling.validate(&hook), Err(fishing::StateError::HookStruggle));
}

#[test]
fn fish_holds_position_during_warnings_and_hold_segments() {
    let r = rules(Mode::Tracking, 1);
    let timing = Timing {
        wait: 1,
        segment: 1,
        ..DEFAULT_TIMING
    };
    let rest = hooked(&create_state(3, &r).unwrap(), &r, timing);
    assert!(!fishing::holds_position(&rest, &r));
    let warning = advance(&rest, &r, false, timing).state;
    assert_eq!(warning.behavior, Behavior::Warning);
    assert!(fishing::holds_position(&warning, &r));
    let mut held = rules(Mode::Tracking, 1);
    held.pattern = vec![
        SegmentKind {
            behavior: Behavior::Warning,
            target: TargetKind::Keep,
        },
        SegmentKind {
            behavior: Behavior::Rest,
            target: TargetKind::Hold,
        },
    ];
    let first = hooked(&create_state(3, &held).unwrap(), &held, timing);
    assert!(!fishing::holds_position(&first, &held));
    let second = advance(&first, &held, false, timing).state;
    assert_eq!(second.segment_index, 1);
    assert!(fishing::holds_position(&second, &held));
}

fn may_follow(a: Phase, b: Phase) -> bool {
    let terminal = matches!(b, Phase::Caught | Phase::Escaped);
    match a {
        Phase::Ready => matches!(b, Phase::Ready | Phase::Waiting | Phase::Escaped),
        Phase::Waiting => matches!(b, Phase::Waiting | Phase::Nibble | Phase::Bite | Phase::Escaped),
        Phase::Nibble => matches!(b, Phase::Nibble | Phase::Waiting | Phase::Escaped),
        Phase::Bite => b == Phase::Bite || b == Phase::Struggle || terminal,
        Phase::Struggle => b == Phase::Struggle || terminal,
        _ => a == b,
    }
}

#[test]
fn scripted_encounters_move_forward_through_the_lifecycle() {
    for (mode, dimensions) in [
        (Mode::Hook, 0),
        (Mode::Pressure, 0),
        (Mode::Tracking, 1),
        (Mode::Tracking, 2),
    ] {
        let mut r = rules(mode, dimensions);
        r.nibble_count = 2;
        let mut s = create_state(42, &r).unwrap();
        let mut tick_count = 0;
        for i in 0..MAX_TICKS {
            let t = Tick {
                pressed: matches!(s.phase, Phase::Ready | Phase::Bite) && i % 3 == 0,
                crossed: Crossed {
                    line_broke: false,
                    got_away: false,
                    landed: s.behavior_ticks > 100,
                },
                timing: Timing {
                    wait: 5,
                    nibble: 2,
                    gap: 3,
                    ..DEFAULT_TIMING
                },
            };
            let a = step(&s, &r, &t).unwrap();
            assert!(may_follow(s.phase, a.state.phase));
            assert_eq!(a.state.validate(&r), Ok(()));
            if a.advanced {
                tick_count += 1;
            }
            assert_eq!(a.state.tick, tick_count);
            assert!(a.state.tick <= r.max_ticks);
            if mode == Mode::Hook {
                assert_ne!(a.state.phase, Phase::Struggle);
            }
            s = a.state;
            if s.is_terminal() {
                break;
            }
        }
        assert!(s.is_terminal());
        assert_eq!(s.nibbles_left, 0);
    }
}

#[test]
fn all_mechanisms_are_pure_bounded_and_replayable() {
    for (mode, dimensions) in [
        (Mode::Hook, 0),
        (Mode::Pressure, 0),
        (Mode::Tracking, 1),
        (Mode::Tracking, 2),
    ] {
        let r = rules(mode, dimensions);
        let initial = create_state(42, &r).unwrap();
        assert_eq!(
            step(&initial, &r, &tick(false, DEFAULT_TIMING)).unwrap().state,
            initial
        );
        let mut state = initial;
        let mut previous = 0.0;
        for i in 0..MAX_TICKS {
            // Fresh cast/hook edges, followed by alternating adversarial inputs.
            let primary = if matches!(state.phase, Phase::Ready | Phase::Bite)
                || (state.phase == Phase::Struggle && i % 2 == 0)
            {
                1.0
            } else {
                0.0
            };
            let t = tick(primary > 0.0 && previous == 0.0, DEFAULT_TIMING);
            let before = state;
            let next = step(&state, &r, &t).unwrap();
            assert_eq!(before, state);
            assert_eq!(next, step(&before, &r, &t).unwrap());
            assert_eq!(next.state.validate(&r), Ok(()));
            assert!(next.state.tick <= MAX_TICKS);
            if next.advanced {
                previous = primary;
            }
            state = next.state;
            if state.is_terminal() {
                break;
            }
        }
        assert!(state.is_terminal());
        let next = step(&state, &r, &tick(true, DEFAULT_TIMING)).unwrap();
        assert_eq!(next.state, state);
        assert!(next.events.is_empty());
    }
}
