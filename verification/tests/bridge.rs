//! End-to-end tests of the bridge's protocol logic: UID resolution over
//! simulated cards, the presence machine, transport decisions, hex
//! encoding and diagnostics.

use cardreader::apdu::diagnose;
use cardreader::apdu::extract_identifier;
use cardreader::apdu::make_end_session_command;
use cardreader::apdu::make_felica_poll_command;
use cardreader::apdu::make_start_session_command;
use cardreader::apdu::make_uid_command;
use cardreader::apdu::Diagnostic;
use cardreader::failure::Failure;
use cardreader::hexenc::encode_hex;
use cardreader::presence::presence_step;
use cardreader::presence::Action;
use cardreader::presence::Event;
use cardreader::presence::PresenceState;
use cardreader::presence::POLL_INTERVAL_MS;
use cardreader::presence::SETTLE_INTERVAL_MS;
use cardreader::presence::SUPERVISION_BACKOFF_MS;
use cardreader::resolve::initial_phase;
use cardreader::resolve::phase_command;
use cardreader::resolve::probe_indicates_felica;
use cardreader::resolve::resolve_step;
use cardreader::resolve::StepOutcome;
use cardreader::transport::choose_reader;
use cardreader::transport::classify_connect_error;
use cardreader::transport::classify_status_error;
use cardreader::transport::NO_SMARTCARD_CODE;
use cardreader::transport::REMOVED_CARD_CODE;

/// Drives a full resolution against canned responses, handed out in
/// order, and returns the commands that were issued alongside the result.
fn run_resolution(responses: &[Vec<u8>]) -> (Vec<Vec<u8>>, Result<Vec<u8>, ()>) {
    let mut phase = initial_phase();
    let mut issued: Vec<Vec<u8>> = Vec::new();
    let mut i: usize = 0;
    loop {
        issued.push(phase_command(&phase));
        assert!(i < responses.len(), "resolution asked for more exchanges than provided");
        let response = responses[i].clone();
        i += 1;
        match resolve_step(phase, response) {
            StepOutcome::Continue(next) => phase = next,
            StepOutcome::Resolved(id) => return (issued, Ok(id)),
            StepOutcome::Violation => return (issued, Err(())),
        }
    }
}

#[test]
fn strips_status_word_exactly() {
    let response = vec![0x01u8, 0x02, 0x03, 0x90, 0x00];
    let id = extract_identifier(&response).unwrap();
    assert_eq!(id, vec![0x01u8, 0x02, 0x03]);
}

#[test]
fn empty_payload_is_allowed() {
    let response = vec![0x90u8, 0x00];
    let id = extract_identifier(&response).unwrap();
    assert_eq!(id, Vec::<u8>::new());
}

#[test]
fn status_word_mismatch_is_violation() {
    let response = vec![0x01u8, 0x02, 0x6a, 0x81];
    assert_eq!(extract_identifier(&response), Err(Failure::ProtocolViolation));
}

#[test]
fn short_response_is_violation() {
    assert_eq!(extract_identifier(&vec![0x90u8]), Err(Failure::ProtocolViolation));
    assert_eq!(extract_identifier(&Vec::new()), Err(Failure::ProtocolViolation));
}

#[test]
fn command_byte_shapes() {
    assert_eq!(make_uid_command(), vec![0xffu8, 0xca, 0x00, 0x00, 0x00]);
    assert_eq!(
        make_start_session_command(),
        vec![0xffu8, 0xc2, 0x00, 0x00, 0x02, 0x81, 0x00, 0x00]
    );
    assert_eq!(
        make_end_session_command(),
        vec![0xffu8, 0xc2, 0x00, 0x00, 0x02, 0x82, 0x00, 0x00]
    );
    assert_eq!(
        make_felica_poll_command(),
        vec![0xffu8, 0xc2, 0x00, 0x02, 0x04, 0x8f, 0x02, 0x03, 0x01, 0x00]
    );
}

#[test]
fn probe_acknowledgment_check() {
    assert!(probe_indicates_felica(&vec![0xc0u8, 0x03, 0x00, 0x90, 0x00]));
    assert!(probe_indicates_felica(&vec![0xc0u8, 0x03, 0x00, 0x90, 0x00, 0xaa]));
    assert!(!probe_indicates_felica(&vec![0xc0u8, 0x03, 0x00, 0x90]));
    assert!(!probe_indicates_felica(&vec![0x6au8, 0x81]));
    assert!(!probe_indicates_felica(&vec![0xc0u8, 0x03, 0x00, 0x91, 0x00]));
    assert!(!probe_indicates_felica(&Vec::new()));
}

#[test]
fn non_felica_card_uses_first_generic_response() {
    // The generic UID command answers directly; the probe is not
    // acknowledged, so resolution falls back to the first response.
    let responses = [
        vec![0x04u8, 0xa1, 0xb2, 0xc3, 0x90, 0x00],
        vec![0x90u8, 0x00],
        vec![0x6au8, 0x81],
        vec![0x90u8, 0x00],
    ];
    let (issued, result) = run_resolution(&responses);
    assert_eq!(issued.len(), 4);
    assert_eq!(issued[0], make_uid_command());
    assert_eq!(issued[1], make_start_session_command());
    assert_eq!(issued[2], make_felica_poll_command());
    assert_eq!(issued[3], make_end_session_command());
    let id = result.unwrap();
    assert_eq!(id, vec![0x04u8, 0xa1, 0xb2, 0xc3]);
    assert_eq!(encode_hex(&id), "04a1b2c3");
}

#[test]
fn felica_card_uses_second_generic_response() {
    // The probe acknowledges FeliCa: exactly one more generic UID command
    // is issued, its payload is the identifier, and the first generic
    // response is discarded.
    let responses = [
        vec![0xdeu8, 0xad, 0x90, 0x00],
        vec![0x90u8, 0x00],
        vec![0xc0u8, 0x03, 0x00, 0x90, 0x00],
        vec![0x90u8, 0x00],
        vec![0x01u8, 0x02, 0x03, 0x04, 0x05, 0x06, 0x07, 0x08, 0x90, 0x00],
    ];
    let (issued, result) = run_resolution(&responses);
    assert_eq!(issued.len(), 5);
    assert_eq!(issued[4], make_uid_command());
    let id = result.unwrap();
    assert_eq!(id, vec![0x01u8, 0x02, 0x03, 0x04, 0x05, 0x06, 0x07, 0x08]);
    assert_eq!(encode_hex(&id), "0102030405060708");
}

#[test]
fn failed_probe_falls_back_to_generic_response() {
    // The probe's status word is an error: natural fallback to the
    // original generic response.
    let responses = [
        vec![0xaau8, 0xbb, 0x90, 0x00],
        vec![0x90u8, 0x00],
        vec![0x6au8, 0x81],
        vec![0x90u8, 0x00],
    ];
    let (issued, result) = run_resolution(&responses);
    assert_eq!(issued.len(), 4);
    assert_eq!(encode_hex(&result.unwrap()), "aabb");
}

#[test]
fn bad_final_status_word_never_yields_identifier() {
    // Fallback response carries a failure status word: the resolution
    // fails as a violation instead of producing a truncated identifier.
    let responses = [
        vec![0x04u8, 0xa1, 0x6f, 0x00],
        vec![0x90u8, 0x00],
        vec![0x6au8, 0x81],
        vec![0x90u8, 0x00],
    ];
    let (_, result) = run_resolution(&responses);
    assert_eq!(result, Err(()));
}

#[test]
fn bad_felica_final_status_word_is_violation() {
    let responses = [
        vec![0xdeu8, 0xad, 0x90, 0x00],
        vec![0x90u8, 0x00],
        vec![0xc0u8, 0x03, 0x00, 0x90, 0x00],
        vec![0x90u8, 0x00],
        vec![0x01u8, 0x02, 0x64, 0x01],
    ];
    let (issued, result) = run_resolution(&responses);
    assert_eq!(issued.len(), 5);
    assert_eq!(result, Err(()));
}

#[test]
fn hex_encoding_exact_values() {
    assert_eq!(encode_hex(&Vec::new()), "");
    assert_eq!(encode_hex(&vec![0x00u8]), "00");
    assert_eq!(encode_hex(&vec![0x0fu8, 0xa0]), "0fa0");
    assert_eq!(encode_hex(&vec![0xffu8, 0x10, 0x9c]), "ff109c");
}

#[test]
fn hex_encoding_matches_reference() {
    let samples: [&[u8]; 5] = [
        &[],
        &[0x00],
        &[0xde, 0xad, 0xbe, 0xef],
        &[0x01, 0x23, 0x45, 0x67, 0x89, 0xab, 0xcd, 0xef],
        &[0x90, 0x00],
    ];
    for bytes in samples {
        assert_eq!(encode_hex(&bytes.to_vec()), hex::encode(bytes));
    }
}

#[test]
fn diagnose_recognized_status_words() {
    assert_eq!(diagnose(&vec![0x64u8, 0x01]), Some(Diagnostic::NoResponse));
    assert_eq!(diagnose(&vec![0x67u8, 0x00]), Some(Diagnostic::InvalidLength));
    assert_eq!(diagnose(&vec![0x6au8, 0x81]), Some(Diagnostic::InvalidInstruction));
    assert_eq!(diagnose(&vec![0x6fu8, 0x00]), Some(Diagnostic::UnexpectedError));
}

#[test]
fn diagnose_ignores_everything_else() {
    assert_eq!(diagnose(&vec![0x90u8, 0x00]), None);
    assert_eq!(diagnose(&vec![0x64u8, 0x01, 0x00]), None);
    assert_eq!(diagnose(&vec![0x64u8]), None);
    assert_eq!(diagnose(&Vec::new()), None);
}

#[test]
fn diagnostic_texts() {
    assert_eq!(Diagnostic::NoResponse.text(), "no response");
    assert_eq!(Diagnostic::InvalidLength.text(), "invalid length");
    assert_eq!(Diagnostic::InvalidInstruction.text(), "invalid instruction");
    assert_eq!(Diagnostic::UnexpectedError.text(), "unexpected error");
}

#[test]
fn absence_codes_keep_polling() {
    assert_eq!(classify_connect_error(NO_SMARTCARD_CODE), Ok(()));
    assert_eq!(classify_connect_error(REMOVED_CARD_CODE), Ok(()));
}

#[test]
fn other_connect_code_is_connect_failure() {
    // SCARD_E_SHARING_VIOLATION-like code: a real failure of the cycle.
    assert_eq!(classify_connect_error(0x8010000B), Err(Failure::Connect));
    assert_eq!(classify_connect_error(0), Err(Failure::Connect));
}

#[test]
fn status_absence_is_removal_signal() {
    assert_eq!(classify_status_error(NO_SMARTCARD_CODE), Ok(()));
    assert_eq!(classify_status_error(REMOVED_CARD_CODE), Ok(()));
}

#[test]
fn other_status_code_is_status_failure() {
    assert_eq!(classify_status_error(0x80100017), Err(Failure::Status));
}

#[test]
fn chooses_first_reader() {
    let readers = vec![String::from("reader zero"), String::from("reader one")];
    assert_eq!(choose_reader(&readers), Ok(String::from("reader zero")));
}

#[test]
fn no_readers_is_fatal_failure() {
    let err = choose_reader(&Vec::new()).unwrap_err();
    assert_eq!(err, Failure::NoReaders);
    assert!(err.is_fatal());
}

#[test]
fn failure_texts_and_fatality() {
    assert!(Failure::NoReaders.is_fatal());
    assert!(Failure::ProtocolViolation.is_fatal());
    assert!(!Failure::Connect.is_fatal());
    assert!(!Failure::Transmit.is_fatal());
    assert!(!Failure::Status.is_fatal());
    assert_eq!(Failure::NoReaders.text(), "no readers are connected");
    assert_eq!(Failure::Connect.text(), "failed to connect to card");
    assert_eq!(Failure::Transmit.text(), "failed to transmit command to card");
    assert_eq!(Failure::Status.text(), "failed to get card status");
    assert_eq!(
        Failure::ProtocolViolation.text(),
        "response did not end in the success status word"
    );
}

#[test]
fn two_insertions_trigger_two_logins() {
    // connect -> resolve -> a few polls -> disconnect -> connect again:
    // exactly two triggers, each with its own identifier.
    let events = vec![
        Event::Resolved(vec![0x04u8, 0xa1]),
        Event::StillPresent,
        Event::StillPresent,
        Event::Departed,
        Event::Resolved(vec![0xbbu8, 0xcc]),
    ];
    let mut state = PresenceState::Idle;
    let mut triggered: Vec<Vec<u8>> = Vec::new();
    for event in events {
        let (next, action) = presence_step(state, event);
        state = next;
        if let Action::Trigger(id) = action {
            triggered.push(id);
        }
    }
    assert_eq!(triggered, vec![vec![0x04u8, 0xa1], vec![0xbbu8, 0xcc]]);
    assert_eq!(state, PresenceState::Connected);
}

#[test]
fn absent_card_backs_off_and_stays_idle() {
    let (state, action) = presence_step(PresenceState::Idle, Event::Absent);
    assert_eq!(state, PresenceState::Idle);
    assert_eq!(action, Action::Backoff);
}

#[test]
fn still_present_polls_again() {
    let (state, action) = presence_step(PresenceState::Connected, Event::StillPresent);
    assert_eq!(state, PresenceState::Connected);
    assert_eq!(action, Action::Poll);
}

#[test]
fn departed_card_resumes_detection() {
    let (state, action) = presence_step(PresenceState::Connected, Event::Departed);
    assert_eq!(state, PresenceState::Idle);
    assert_eq!(action, Action::Resume);
}

#[test]
fn interval_constants() {
    assert_eq!(POLL_INTERVAL_MS, 200);
    assert_eq!(SETTLE_INTERVAL_MS, 2000);
    assert_eq!(SUPERVISION_BACKOFF_MS, 1000);
}
