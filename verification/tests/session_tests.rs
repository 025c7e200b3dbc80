use connect_proxy::session::{
    ack_bytes, session_init, step, Action, Event, SessionEnd, State,
};

const ACK: &[u8] = b"HTTP/1.1 200 Connection established\r\n\r\n";

fn read_done(bytes: &[u8]) -> Event {
    Event::ReadDone { bytes: bytes.to_vec() }
}

fn target_of(state: &State) -> String {
    match state {
        State::AwaitDial { target } => target.iter().collect(),
        _ => panic!("expected a dialing session"),
    }
}

fn end_of(state: &State) -> SessionEnd {
    match state {
        State::Closed { end } => *end,
        _ => panic!("expected a closed session"),
    }
}

#[test]
fn ack_is_the_literal_response() {
    assert_eq!(ack_bytes(), ACK.to_vec());
}

#[test]
fn fresh_session_reads_first() {
    let (state, action) = session_init();
    assert!(matches!(state, State::AwaitRequest));
    assert!(matches!(action, Action::ReadRequest));
}

#[test]
fn connect_request_dials_its_authority() {
    let (state, _) = session_init();
    let (state, action) = step(state, read_done(b"CONNECT 93.184.216.34:80 HTTP/1.1\r\n\r\n"));
    assert_eq!(target_of(&state), "93.184.216.34:80");
    assert!(matches!(action, Action::Dial));
}

#[test]
fn established_tunnel_acknowledges_then_relays() {
    let (state, _) = session_init();
    let (state, _) = step(state, read_done(b"CONNECT 93.184.216.34:80 HTTP/1.1\r\n\r\n"));
    let (state, action) = step(state, Event::DialDone);
    assert!(matches!(state, State::AwaitAck));
    match action {
        Action::WriteAck { response } => assert_eq!(response, ACK.to_vec()),
        _ => panic!("expected the acknowledgement write"),
    }
    let (state, action) = step(state, Event::AckWritten);
    assert!(matches!(state, State::Relaying));
    assert!(matches!(action, Action::StartRelay));
    let (state, action) = step(state, Event::RelayDone);
    assert_eq!(end_of(&state), SessionEnd::Completed);
    assert!(matches!(action, Action::Close));
}

#[test]
fn single_token_request_aborts_without_dialing() {
    let (state, _) = session_init();
    let (state, action) = step(state, read_done(b"BADREQUEST\r\n\r\n"));
    assert_eq!(end_of(&state), SessionEnd::MissingTarget);
    assert!(matches!(action, Action::Close));
}

#[test]
fn empty_read_aborts() {
    let (state, _) = session_init();
    let (state, action) = step(state, read_done(b""));
    assert_eq!(end_of(&state), SessionEnd::EmptyRequest);
    assert!(matches!(action, Action::Close));
}

#[test]
fn non_utf8_request_aborts() {
    let (state, _) = session_init();
    let (state, action) = step(state, read_done(&[0xFF, 0xFE, 0x20, 0x41]));
    assert_eq!(end_of(&state), SessionEnd::InvalidText);
    assert!(matches!(action, Action::Close));
}

#[test]
fn failed_read_aborts() {
    let (state, _) = session_init();
    let (state, action) = step(state, Event::ReadFailed);
    assert_eq!(end_of(&state), SessionEnd::ReadFailed);
    assert!(matches!(action, Action::Close));
}

#[test]
fn failed_dial_aborts_without_ack() {
    let (state, _) = session_init();
    let (state, _) = step(state, read_done(b"CONNECT nowhere.invalid:1 HTTP/1.1"));
    let (state, action) = step(state, Event::DialFailed);
    assert_eq!(end_of(&state), SessionEnd::DialFailed);
    assert!(matches!(action, Action::Close));
}

#[test]
fn failed_ack_write_aborts() {
    let (state, _) = session_init();
    let (state, _) = step(state, read_done(b"CONNECT h:1 X"));
    let (state, _) = step(state, Event::DialDone);
    let (state, action) = step(state, Event::AckWriteFailed);
    assert_eq!(end_of(&state), SessionEnd::AckWriteFailed);
    assert!(matches!(action, Action::Close));
}

#[test]
fn failed_relay_aborts() {
    let (state, _) = session_init();
    let (state, _) = step(state, read_done(b"CONNECT h:1 X"));
    let (state, _) = step(state, Event::DialDone);
    let (state, _) = step(state, Event::AckWritten);
    let (state, action) = step(state, Event::RelayFailed);
    assert_eq!(end_of(&state), SessionEnd::RelayFailed);
    assert!(matches!(action, Action::Close));
}

#[test]
fn multibyte_whitespace_is_decoded_before_splitting() {
    // U+2028 is whitespace but no single byte of its UTF-8 form is: the
    // target comes out right only if the bytes are decoded as UTF-8 first.
    let (state, _) = session_init();
    let request = "CONNECT\u{2028}host:1\u{2028}HTTP/1.1";
    let (state, action) = step(state, read_done(request.as_bytes()));
    assert_eq!(target_of(&state), "host:1");
    assert!(matches!(action, Action::Dial));
}

#[test]
fn out_of_phase_events_are_ignored() {
    let (state, _) = session_init();
    let (state, action) = step(state, Event::DialDone);
    assert!(matches!(state, State::AwaitRequest));
    assert!(matches!(action, Action::Idle));

    let (state, _) = step(state, read_done(b"CONNECT h:1 X"));
    let (state, action) = step(state, Event::AckWritten);
    assert_eq!(target_of(&state), "h:1");
    assert!(matches!(action, Action::Idle));
}

#[test]
fn closed_session_stays_closed() {
    let (state, _) = session_init();
    let (state, _) = step(state, read_done(b""));
    let (state, action) = step(state, Event::DialDone);
    assert_eq!(end_of(&state), SessionEnd::EmptyRequest);
    assert!(matches!(action, Action::Idle));
}
