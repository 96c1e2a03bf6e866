use buzzer::activation::ActivationState;
use buzzer::activation::SharedActivation;
use buzzer::activation::command_activation;
use buzzer::activation::is_start_command;
use buzzer::channel::MAX_FRAME_LEN;
use buzzer::channel::Session;
use buzzer::channel::SessionState;
use buzzer::channel::check_frame_length;
use buzzer::channel::decode_failure_reply;
use buzzer::channel::handle_payload;
use buzzer::channel::oversize_reply;
use buzzer::errors::BuzzerError;
use buzzer::scheduler::fixed_note;
use buzzer::scheduler::scheduler_step;
use buzzer::scheduler::tick;

#[test]
fn start_command_matches_exact_text_only() {
    assert!(is_start_command("start"));
    assert!(!is_start_command("stop"));
    assert!(!is_start_command("START"));
    assert!(!is_start_command("start "));
    // The decoded slice never carries a trailing NUL; a NUL-suffixed text is
    // a different command and silences the buzzer.
    assert!(!is_start_command("start\0"));
}

#[test]
fn command_decision_is_idempotent_no_toggle() {
    // Two decisions on `start` in a row both land on Sounding.
    assert_eq!(command_activation("start"), ActivationState::Sounding);
    assert_eq!(command_activation("start"), ActivationState::Sounding);
    // Any other text while sounding silences.
    assert_eq!(command_activation("stop"), ActivationState::Silent);
    assert_eq!(command_activation(""), ActivationState::Silent);
}

#[test]
fn frame_length_boundary() {
    // Exactly the maximum is accepted; one more byte tears the
    // connection down.
    assert_eq!(MAX_FRAME_LEN, 8);
    assert_eq!(check_frame_length(8), Ok(8));
    assert_eq!(check_frame_length(9), Err(BuzzerError::PayloadTooLarge));
    assert_eq!(check_frame_length(0), Ok(0));
    assert_eq!(oversize_reply(), "Request too big");
}

#[test]
fn payload_decisions() {
    assert_eq!(handle_payload(b"start"), Ok(ActivationState::Sounding));
    assert_eq!(handle_payload(b"stop"), Ok(ActivationState::Silent));
    assert_eq!(handle_payload(b"whatever"), Ok(ActivationState::Silent));
    assert_eq!(handle_payload(b"start\0"), Ok(ActivationState::Silent));
}

#[test]
fn decode_failure_is_recoverable() {
    let shared = SharedActivation::new();
    assert_eq!(shared.read(), ActivationState::Silent);
    // A non-UTF-8 frame of acceptable length yields the diagnostic and no
    // command: the handler writes nothing and the state is unchanged.
    let bad: [u8; 3] = [0xff, 0xfe, 0x01];
    assert_eq!(check_frame_length(bad.len()), Ok(3));
    assert_eq!(handle_payload(&bad), Err(BuzzerError::TextDecodeFailure));
    assert_eq!(decode_failure_reply(), "[UTF-8 Error]");
    assert_eq!(shared.read(), ActivationState::Silent);
    // The connection stays usable for a subsequent valid command.
    match handle_payload(b"start") {
        Ok(state) => shared.write(state),
        Err(_) => panic!("valid command after decode failure"),
    }
    assert_eq!(shared.read(), ActivationState::Sounding);
}

#[test]
fn session_lifecycle() {
    let mut s = Session::open(7);
    assert_eq!(s.id, 7);
    assert_eq!(s.state, SessionState::Opening);
    s.activate();
    assert_eq!(s.state, SessionState::Active);
    s.close();
    assert_eq!(s.state, SessionState::Closed);
    assert_eq!(s.id, 7);
}

#[test]
fn scheduler_plays_only_while_sounding() {
    assert!(tick(ActivationState::Silent, 1_000_000).is_none());
    let note = fixed_note();
    assert_eq!(note.frequency, 440);
    assert_eq!(note.duration_ms, 10);
    let played = tick(ActivationState::Sounding, 1_000_000).unwrap().unwrap();
    // 440 Hz for 10 ms: four full cycles of 1136 + 1136 ticks.
    assert_eq!(played.pairs.len(), 4);
    assert_eq!(played.pairs[0].high_ticks, 1136);
    assert_eq!(played.pairs[0].low_ticks, 1136);
}

#[test]
fn scheduler_failure_is_fatal_to_one_tick_only() {
    // A tick rate the note cannot be rendered at fails that tick alone.
    let failed = tick(ActivationState::Sounding, 500).unwrap();
    assert_eq!(failed, Err(BuzzerError::InvalidToneParameters));
    // The next fire works again once the rate is usable.
    assert!(tick(ActivationState::Sounding, 1_000_000).unwrap().is_ok());
}

#[test]
fn end_to_end_command_to_playback() {
    // Client connects.
    let shared = SharedActivation::new();
    let mut session = Session::open(1);
    session.activate();
    // Client sends "start" (5 bytes): activation becomes Sounding.
    let len = check_frame_length(5).unwrap();
    assert_eq!(len, 5);
    shared.write(handle_payload(b"start").unwrap());
    assert_eq!(shared.read(), ActivationState::Sounding);
    // The next scheduler tick plays the fixed note without error.
    let step = scheduler_step(&shared, 1_000_000);
    assert!(step.unwrap().is_ok());
    // Client sends "stop" (4 bytes): activation becomes Silent.
    let len = check_frame_length(4).unwrap();
    assert_eq!(len, 4);
    shared.write(handle_payload(b"stop").unwrap());
    assert_eq!(shared.read(), ActivationState::Silent);
    // Subsequent ticks read Silent and perform no playback call.
    assert!(scheduler_step(&shared, 1_000_000).is_none());
    assert!(scheduler_step(&shared, 1_000_000).is_none());
}

#[test]
fn interleaved_reads_never_disturb_last_write() {
    // Ticks between command writes: the state is always the value of the
    // most recently completed write.
    let shared = SharedActivation::new();
    shared.write(ActivationState::Sounding);
    let _ = shared.read();
    let _ = shared.read();
    assert_eq!(shared.read(), ActivationState::Sounding);
    shared.write(ActivationState::Silent);
    let _ = shared.read();
    shared.write(ActivationState::Sounding);
    shared.write(ActivationState::Silent);
    assert_eq!(shared.read(), ActivationState::Silent);
}
