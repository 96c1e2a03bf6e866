use buzzer::errors::BuzzerError;
use buzzer::tone::MAX_PULSE_TICKS;
use buzzer::tone::Tone;
use buzzer::tone::encode;

#[test]
fn tone_new_guards_zero_frequency() {
    assert_eq!(Tone::new(0, 10), Err(BuzzerError::InvalidToneParameters));
    let t = Tone::new(440, 10).unwrap();
    assert_eq!(t.frequency, 440);
    assert_eq!(t.duration_ms, 10);
}

#[test]
fn encode_produces_exact_cycle_count_and_half_ticks() {
    // 1 MHz tick rate at 440 Hz: 2272 ticks per cycle, 1136 per half.
    let s = encode(440, 1000, 1_000_000).unwrap();
    assert_eq!(s.pairs.len(), 440 * 1000 / 1000);
    for p in &s.pairs {
        assert_eq!(p.high_ticks, 1136);
        assert_eq!(p.low_ticks, 1136);
    }
}

#[test]
fn encode_exact_formula_small_case() {
    let s = encode(1000, 1, 1_000_000).unwrap();
    assert_eq!(s.pairs.len(), 1);
    assert_eq!(s.pairs[0].high_ticks, 500);
    assert_eq!(s.pairs[0].low_ticks, 500);
}

#[test]
fn encode_zero_duration_gives_empty_sequence() {
    let s = encode(440, 0, 1_000_000).unwrap();
    assert_eq!(s.pairs.len(), 0);
}

#[test]
fn encode_duration_truncates_partial_cycle() {
    // 440 Hz for 1 ms covers 0.44 cycles: truncated to none.
    let s = encode(440, 1, 1_000_000).unwrap();
    assert_eq!(s.pairs.len(), 0);
    // 3 ms covers 1.32 cycles: one full pair.
    let s = encode(440, 3, 1_000_000).unwrap();
    assert_eq!(s.pairs.len(), 1);
}

#[test]
fn encode_rejects_frequency_too_high_for_tick_rate() {
    // tick_rate / frequency < 2: the half cycle truncates to zero ticks.
    assert_eq!(
        encode(60000, 10, 100_000),
        Err(BuzzerError::InvalidToneParameters)
    );
    assert_eq!(encode(440, 10, 500), Err(BuzzerError::InvalidToneParameters));
}

#[test]
fn encode_boundary_of_degenerate_half_cycle() {
    // tick_rate / frequency == 2 is the smallest workable ratio.
    let s = encode(500, 2, 1000).unwrap();
    assert_eq!(s.pairs.len(), 1);
    assert_eq!(s.pairs[0].high_ticks, 1);
    // One tick less and the half cycle is zero.
    assert_eq!(encode(501, 2, 1000), Err(BuzzerError::InvalidToneParameters));
}

#[test]
fn encode_rejects_overflowing_pulse_width() {
    // 1 Hz at a 4 GHz tick rate wants 2_000_000_000 ticks per half cycle.
    assert_eq!(
        encode(1, 10, 4_000_000_000),
        Err(BuzzerError::InvalidToneParameters)
    );
    // The largest representable half cycle is accepted: 131068 / 2 / 2 ticks.
    let s = encode(2, 1000, 131068).unwrap();
    assert_eq!(s.pairs[0].high_ticks, MAX_PULSE_TICKS);
    // One more full tick pushes the half cycle past the representation.
    assert_eq!(
        encode(2, 1000, 131072),
        Err(BuzzerError::InvalidToneParameters)
    );
}

#[test]
fn encode_rejects_zero_frequency() {
    assert_eq!(encode(0, 10, 1_000_000), Err(BuzzerError::InvalidToneParameters));
}
