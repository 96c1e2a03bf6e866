//! The framed command protocol: a two-phase receive (one zero-length probe
//! for the payload length, then one sized read), a fixed frame-size bound,
//! UTF-8 decoding, and the command decision. The transport only moves bytes;
//! every decision about them is made here.

use vstd::prelude::*;
use vstd::string::StringSliceAdditionalSpecFns;
use vstd::utf8::valid_utf8;
use vstd::utf8::decode_utf8;
use crate::activation::ActivationState;
use crate::activation::activation_for_command;
use crate::activation::command_activation;
use crate::errors::BuzzerError;

verus! {

/// Largest accepted payload, in bytes. The receive buffer is sized to this
/// exactly; a longer frame tears the connection down.
pub const MAX_FRAME_LEN: usize = 8;

/// Lifecycle of one control connection.
#[derive(Clone, Copy, Debug, PartialEq, Eq, Structural)]
pub enum SessionState {
    Opening,
    Active,
    Closed,
}

/// One control connection: an opaque transport-assigned identifier and its
/// lifecycle state. Lifecycle transitions never touch the activation state.
#[derive(Clone, Copy, Debug, PartialEq, Eq, Structural)]
pub struct Session {
    pub id: i32,
    pub state: SessionState,
}

impl Session {
    /// A freshly accepted connection that has not exchanged application data
    /// yet.
    pub fn open(id: i32) -> (s: Session)
        ensures
            s == (Session { id, state: SessionState::Opening }),
    {
        Session { id, state: SessionState::Opening }
    }

    /// The connection greeting has been handled; frames may now arrive.
    pub fn activate(&mut self)
        requires
            old(self).state == SessionState::Opening,
        ensures
            *final(self) == (Session { id: old(self).id, state: SessionState::Active }),
    {
        self.state = SessionState::Active;
    }

    /// The connection is torn down; its state is discarded.
    pub fn close(&mut self)
        ensures
            *final(self) == (Session { id: old(self).id, state: SessionState::Closed }),
    {
        self.state = SessionState::Closed;
    }
}

/// Checks the probed payload length before the payload is read.
///
/// Up to `MAX_FRAME_LEN` bytes the frame is accepted and the sized read may
/// proceed. Beyond it the frame is rejected with `PayloadTooLarge`: the
/// caller must send the oversize diagnostic, then a close frame, then fail
/// the connection.
pub fn check_frame_length(len: usize) -> (r: Result<usize, BuzzerError>)
    ensures
        r is Ok <==> len <= MAX_FRAME_LEN,
        r matches Ok(l) ==> l == len,
        r matches Err(e) ==> e == BuzzerError::PayloadTooLarge,
{
    if len <= MAX_FRAME_LEN {
        Ok(len)
    } else {
        Err(BuzzerError::PayloadTooLarge)
    }
}

/// The diagnostic text sent before an oversized frame's connection is torn
/// down.
pub fn oversize_reply() -> (r: &'static str)
    ensures
        r@ == "Request too big"@,
{
    "Request too big"
}

/// The diagnostic text sent when a payload is not valid UTF-8; the
/// connection stays open.
pub fn decode_failure_reply() -> (r: &'static str)
    ensures
        r@ == "[UTF-8 Error]"@,
{
    "[UTF-8 Error]"
}

/// Relies on core::str::from_utf8: it succeeds exactly on valid UTF-8 input,
/// and the returned text is backed by the same bytes.
#[verifier::external_body]
pub(crate) fn bytes_to_text(bytes: &[u8]) -> (r: Option<&str>)
    ensures
        r is Some <==> valid_utf8(bytes@),
        r matches Some(s) ==> s.spec_bytes() == bytes@,
{
    core::str::from_utf8(bytes).ok()
}

/// Decides what an accepted payload means.
///
/// A payload that is not valid UTF-8 fails with `TextDecodeFailure`, and
/// only then: the caller sends the decode diagnostic and keeps the
/// connection. A decodable payload yields the new activation state that its
/// text commands.
pub fn handle_payload(payload: &[u8]) -> (r: Result<ActivationState, BuzzerError>)
    ensures
        r is Ok <==> valid_utf8(payload@),
        r matches Ok(a) ==> a == activation_for_command(decode_utf8(payload@)),
        r matches Err(e) ==> e == BuzzerError::TextDecodeFailure,
{
    match bytes_to_text(payload) {
        Option::Some(text) => {
            proof {
                vstd::utf8::encode_utf8_decode_utf8(text@);
            }
            Ok(command_activation(text))
        },
        Option::None => Err(BuzzerError::TextDecodeFailure),
    }
}

} // verus!
