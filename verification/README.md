# fishing

Pure, bounded state machines for casual fishing minigames, verified with Verus.

The encounter lifecycle is ready → waiting → bite → optional struggle →
caught/escaped, with optional false bites (nibbles) before the real bite, a fish
behavior cycle (the original rest/warning/surge cycle or a custom pattern of up
to 16 segments), an explicit 32-bit RNG and a per-configuration tick limit.

## Layout

- `src/` — the verified library. It holds every discrete decision: rule and
  snapshot validation (`types`), the tick transition, RNG draws, duration
  saturation and segment entry (`dynamics`), segment kinds (`program`), capture
  ring structure and the edge pairs tested for crossings (`geometry`), profile
  resolution choices and weighted picks (`loadout`), and the proved properties
  of the lifecycle (`laws`).
- `app/` — the real-valued side: tuning parameters, progress, tension, energy,
  motion, capture geometry, profile arithmetic, and the serde wire records. Its
  `step` integrates the dynamics of one tick, rounds seconds into ticks, and
  hands the library the press edge, the thresholds crossed and the candidate
  durations; the library returns the next lifecycle, the events, and the
  segment entered with its target draws.
- `tests/` — scenario tests of the library.
