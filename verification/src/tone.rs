//! Tone synthesis: a frequency, duration and hardware tick rate become an
//! approximate 50% duty-cycle square wave, given as pulse pairs in hardware
//! ticks.

use vstd::prelude::*;
use crate::errors::BuzzerError;

verus! {

/// Largest representable pulse width, in hardware ticks: the transmit
/// peripheral's per-pulse duration counter is 15 bits wide.
pub const MAX_PULSE_TICKS: u16 = 32767;

/// A note to play: a positive frequency in hertz and a duration in
/// milliseconds.
#[derive(Clone, Copy, Debug, PartialEq, Eq, Structural)]
pub struct Tone {
    pub frequency: u16,
    pub duration_ms: u64,
}

impl Tone {
    /// A tone is well formed when its frequency is positive: the encoder
    /// divides by it.
    pub open spec fn wf(self) -> bool {
        self.frequency > 0
    }

    /// Builds a tone, guarding the invariant that the frequency is positive.
    pub fn new(frequency: u16, duration_ms: u64) -> (r: Result<Tone, BuzzerError>)
        ensures
            r is Ok <==> frequency > 0,
            r matches Ok(t) ==> t == (Tone { frequency, duration_ms }) && t.wf(),
            r matches Err(e) ==> e == BuzzerError::InvalidToneParameters,
    {
        if frequency > 0 {
            Ok(Tone { frequency, duration_ms })
        } else {
            Err(BuzzerError::InvalidToneParameters)
        }
    }
}

/// One full wave cycle: the output is held high for `high_ticks` hardware
/// ticks, then low for `low_ticks`.
#[derive(Clone, Copy, Debug, PartialEq, Eq, Structural)]
pub struct PulsePair {
    pub high_ticks: u16,
    pub low_ticks: u16,
}

/// An ordered sequence of pulse pairs, immutable once built; one is handed
/// whole to the playback driver.
#[derive(Debug, PartialEq, Eq)]
pub struct PulseSequence {
    pub pairs: Vec<PulsePair>,
}

impl View for PulseSequence {
    type V = Seq<PulsePair>;

    open spec fn view(&self) -> Seq<PulsePair> {
        self.pairs@
    }
}

/// Hardware ticks in one full wave cycle: `tick_rate / frequency`, truncated.
/// The truncation is the source of audible pitch quantization at high
/// frequencies or low tick rates, and is kept as a documented approximation.
pub open spec fn ticks_per_full_cycle(frequency: u16, tick_rate: u32) -> int
    recommends
        frequency > 0,
{
    tick_rate as int / frequency as int
}

/// Hardware ticks of each half of a cycle (high part, then low part).
pub open spec fn ticks_per_half_cycle(frequency: u16, tick_rate: u32) -> int
    recommends
        frequency > 0,
{
    ticks_per_full_cycle(frequency, tick_rate) / 2
}

/// Number of full wave cycles needed to cover the duration at the given
/// frequency, in widened integer arithmetic.
pub open spec fn cycle_count(frequency: u16, duration_ms: u64) -> int {
    frequency as int * duration_ms as int / 1000
}

/// True when the frequency/tick-rate combination yields a representable,
/// non-degenerate pulse width. The duration plays no part in it.
pub open spec fn encodable(frequency: u16, tick_rate: u32) -> bool {
    &&& frequency > 0
    &&& 1 <= ticks_per_half_cycle(frequency, tick_rate) <= MAX_PULSE_TICKS as int
}

/// True of the pulse sequence that renders the given note: exactly
/// `cycle_count` pairs, each holding the line high then low for
/// `ticks_per_half_cycle` ticks.
pub open spec fn is_note_sequence(
    s: Seq<PulsePair>,
    frequency: u16,
    duration_ms: u64,
    tick_rate: u32,
) -> bool {
    &&& s.len() == cycle_count(frequency, duration_ms)
    &&& forall|i: int|
        0 <= i < s.len() ==> s[i].high_ticks as int == ticks_per_half_cycle(frequency, tick_rate)
            && s[i].low_ticks as int == ticks_per_half_cycle(frequency, tick_rate)
}

/// Builds the pulse sequence for one note: exactly `cycle_count` pairs, each
/// holding the line high then low for `ticks_per_half_cycle` ticks.
///
/// Fails with `InvalidToneParameters`, and only then, when the frequency is
/// zero, the half cycle truncates to zero ticks (frequency too high for the
/// tick rate), or the half cycle overflows the pulse width representation
/// (frequency too low for the tick rate).
pub fn encode(frequency: u16, duration_ms: u64, tick_rate: u32) -> (r: Result<
    PulseSequence,
    BuzzerError,
>)
    requires
        cycle_count(frequency, duration_ms) <= usize::MAX as int,
    ensures
        r is Ok <==> encodable(frequency, tick_rate),
        r matches Ok(s) ==> is_note_sequence(s@, frequency, duration_ms, tick_rate),
        r matches Err(e) ==> e == BuzzerError::InvalidToneParameters,
{
    if frequency == 0 {
        return Err(BuzzerError::InvalidToneParameters);
    }
    let full: u32 = tick_rate / (frequency as u32);
    let half: u32 = full / 2;
    if half == 0 || half > MAX_PULSE_TICKS as u32 {
        return Err(BuzzerError::InvalidToneParameters);
    }
    let half_ticks: u16 = half as u16;
    proof {
        assert(frequency as int * duration_ms as int <= 65535 * 18446744073709551615)
            by (nonlinear_arith)
            requires
                frequency as int <= 65535,
                duration_ms as int <= 18446744073709551615,
        ;
    }
    let cycles_wide: u128 = (frequency as u128) * (duration_ms as u128) / 1000;
    let n: usize = cycles_wide as usize;
    let mut pairs: Vec<PulsePair> = Vec::new();
    let mut i: usize = 0;
    while i < n
        invariant
            i <= n,
            n as int == cycle_count(frequency, duration_ms),
            pairs@.len() == i as int,
            forall|j: int|
                0 <= j < i as int ==> pairs@[j] == (PulsePair {
                    high_ticks: half_ticks,
                    low_ticks: half_ticks,
                }),
        decreases n - i,
    {
        pairs.push(PulsePair { high_ticks: half_ticks, low_ticks: half_ticks });
        i += 1;
    }
    Ok(PulseSequence { pairs })
}

} // verus!
