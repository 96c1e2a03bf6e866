//! The periodic scheduler's decision. A hardware timer fires at a fixed
//! configured interval; each fire reads the shared activation state under
//! the lock, releases it, and only then synthesizes the fixed note for the
//! playback driver. A failed synthesis or transmission is fatal to that
//! tick alone: the caller reports it and keeps firing.
//!
//! While the driver transmits, the scheduler's context blocks; a tick that
//! fires while a previous note is still playing is skipped by the timer
//! runtime rather than queued or preempted.

use vstd::prelude::*;
use crate::activation::ActivationState;
use crate::activation::SharedActivation;
use crate::errors::BuzzerError;
use crate::tone::PulseSequence;
use crate::tone::Tone;
use crate::tone::cycle_count;
use crate::tone::encodable;
use crate::tone::encode;
use crate::tone::is_note_sequence;

verus! {

/// Frequency of the one canonical note, in hertz.
pub const NOTE_FREQUENCY_HZ: u16 = 440;

/// Duration of the one canonical note, in milliseconds.
pub const NOTE_DURATION_MS: u64 = 10;

/// The fixed note every tick plays while the state is `Sounding`. The
/// control channel never transmits arbitrary frequencies.
pub fn fixed_note() -> (t: Tone)
    ensures
        t == (Tone { frequency: NOTE_FREQUENCY_HZ, duration_ms: NOTE_DURATION_MS }),
        t.wf(),
{
    Tone { frequency: NOTE_FREQUENCY_HZ, duration_ms: NOTE_DURATION_MS }
}

/// What one scheduler fire does with an already-read activation state:
/// nothing while `Silent`; while `Sounding`, the pulse sequence of the fixed
/// note, or `InvalidToneParameters` when the tick rate cannot render it.
pub fn tick(active: ActivationState, tick_rate: u32) -> (r: Option<
    Result<PulseSequence, BuzzerError>,
>)
    ensures
        r is Some <==> active == ActivationState::Sounding,
        r matches Some(p) ==> (p is Ok <==> encodable(NOTE_FREQUENCY_HZ, tick_rate)),
        r matches Some(p) ==> (p matches Ok(s) ==> is_note_sequence(
            s@,
            NOTE_FREQUENCY_HZ,
            NOTE_DURATION_MS,
            tick_rate,
        )),
        r matches Some(p) ==> (p matches Err(e) ==> e == BuzzerError::InvalidToneParameters),
{
    match active {
        ActivationState::Silent => None,
        ActivationState::Sounding => {
            assert(cycle_count(NOTE_FREQUENCY_HZ, NOTE_DURATION_MS) <= usize::MAX as int);
            Some(encode(NOTE_FREQUENCY_HZ, NOTE_DURATION_MS, tick_rate))
        },
    }
}

/// One whole scheduler fire against the shared cell: read under the lock,
/// release, then synthesize. Whatever state the read returned, the result is
/// the fixed note's sequence or nothing; the lock is never held while the
/// note is built or played.
pub fn scheduler_step(shared: &SharedActivation, tick_rate: u32) -> (r: Option<
    Result<PulseSequence, BuzzerError>,
>)
    requires
        shared.wf(),
    ensures
        r matches Some(p) ==> (p is Ok <==> encodable(NOTE_FREQUENCY_HZ, tick_rate)),
        r matches Some(p) ==> (p matches Ok(s) ==> is_note_sequence(
            s@,
            NOTE_FREQUENCY_HZ,
            NOTE_DURATION_MS,
            tick_rate,
        )),
        r matches Some(p) ==> (p matches Err(e) ==> e == BuzzerError::InvalidToneParameters),
{
    let active = shared.read();
    tick(active, tick_rate)
}

} // verus!
