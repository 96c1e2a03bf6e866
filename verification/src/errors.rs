//! Error kinds of the buzzer core.

use vstd::prelude::*;

verus! {

/// Every failure the core can report.
///
/// - `InvalidToneParameters`: the frequency/tick-rate combination yields a
///   zero or overflowing pulse width; fatal to that playback attempt only.
/// - `HardwareTransmitFailure`: the transmit resource was busy or allocation
///   failed; fatal to that scheduler tick, not to the scheduler.
/// - `PayloadTooLarge`: an inbound frame exceeded the fixed maximum; fatal to
///   the connection.
/// - `TextDecodeFailure`: an inbound frame was not valid UTF-8; the
///   connection continues.
#[derive(Clone, Copy, Debug, PartialEq, Eq, Structural)]
pub enum BuzzerError {
    InvalidToneParameters,
    HardwareTransmitFailure,
    PayloadTooLarge,
    TextDecodeFailure,
}

} // verus!
