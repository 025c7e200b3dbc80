//! The per-session protocol state machine.
//!
//! One accepted client connection goes through a fixed sequence of
//! phases: read the request, parse the target out of it, dial the target,
//! acknowledge the client, then relay bytes until both directions end.
//! The machine decides; an unverified driver owns the sockets, performs
//! each requested action, and hands the outcome back as the next event.
//! Every failure closes the session and never escapes it.

use vstd::prelude::*;

use crate::decode::{utf8_decode, utf8_to_chars};
use crate::parse::{second_token, second_token_of};

verus! {

/// Why a session ended.
#[derive(Clone, Copy, PartialEq, Eq, Debug)]
pub enum SessionEnd {
    /// Both relay directions reached end-of-stream.
    Completed,
    /// The read of the request failed.
    ReadFailed,
    /// The read of the request returned zero bytes.
    EmptyRequest,
    /// The request bytes were not valid UTF-8 text.
    InvalidText,
    /// The request had no second whitespace-delimited token.
    MissingTarget,
    /// The outbound connection to the target could not be made.
    DialFailed,
    /// The acknowledgement could not be written to the client.
    AckWriteFailed,
    /// A relay direction failed with an I/O error.
    RelayFailed,
}

/// The phase a session is in (driver-facing form; `StateG` is its model).
pub enum State {
    /// Waiting for the single read of the request buffer.
    AwaitRequest,
    /// Waiting for the outbound dial to `target` to resolve.
    AwaitDial { target: Vec<char> },
    /// Waiting for the acknowledgement write to complete.
    AwaitAck,
    /// Both relay directions are running.
    Relaying,
    /// The session is over; both sockets are to be released.
    Closed { end: SessionEnd },
}

/// What the driver reports happened (driver-facing form; `EventG` is its
/// model).
pub enum Event {
    /// The request read returned these bytes (possibly none).
    ReadDone { bytes: Vec<u8> },
    /// The request read failed.
    ReadFailed,
    /// The outbound connection is established.
    DialDone,
    /// The outbound connection could not be made.
    DialFailed,
    /// The acknowledgement was written in full.
    AckWritten,
    /// The acknowledgement write failed or was incomplete.
    AckWriteFailed,
    /// Both relay directions reached end-of-stream.
    RelayDone,
    /// A relay direction failed.
    RelayFailed,
}

/// What the driver must do next (driver-facing form; `ActionG` is its
/// model).
pub enum Action {
    /// Read once from the client, up to the request buffer size.
    ReadRequest,
    /// Dial the target held in the session state.
    Dial,
    /// Write `response` in full to the client.
    WriteAck { response: Vec<u8> },
    /// Start both relay directions.
    StartRelay,
    /// Release both sockets.
    Close,
    /// Nothing: the event did not belong to the current phase.
    Idle,
}

/// Model of `State`, over mathematical sequences.
pub ghost enum StateG {
    AwaitRequest,
    AwaitDial { target: Seq<char> },
    AwaitAck,
    Relaying,
    Closed { end: SessionEnd },
}

/// Model of `Event`.
pub ghost enum EventG {
    ReadDone { bytes: Seq<u8> },
    ReadFailed,
    DialDone,
    DialFailed,
    AckWritten,
    AckWriteFailed,
    RelayDone,
    RelayFailed,
}

/// Model of `Action`.
pub ghost enum ActionG {
    ReadRequest,
    Dial,
    WriteAck { response: Seq<u8> },
    StartRelay,
    Close,
    Idle,
}

impl View for State {
    type V = StateG;

    open spec fn view(&self) -> StateG {
        match self {
            State::AwaitRequest => StateG::AwaitRequest,
            State::AwaitDial { target } => StateG::AwaitDial { target: target@ },
            State::AwaitAck => StateG::AwaitAck,
            State::Relaying => StateG::Relaying,
            State::Closed { end } => StateG::Closed { end: *end },
        }
    }
}

impl View for Event {
    type V = EventG;

    open spec fn view(&self) -> EventG {
        match self {
            Event::ReadDone { bytes } => EventG::ReadDone { bytes: bytes@ },
            Event::ReadFailed => EventG::ReadFailed,
            Event::DialDone => EventG::DialDone,
            Event::DialFailed => EventG::DialFailed,
            Event::AckWritten => EventG::AckWritten,
            Event::AckWriteFailed => EventG::AckWriteFailed,
            Event::RelayDone => EventG::RelayDone,
            Event::RelayFailed => EventG::RelayFailed,
        }
    }
}

impl View for Action {
    type V = ActionG;

    open spec fn view(&self) -> ActionG {
        match self {
            Action::ReadRequest => ActionG::ReadRequest,
            Action::Dial => ActionG::Dial,
            Action::WriteAck { response } => ActionG::WriteAck { response: response@ },
            Action::StartRelay => ActionG::StartRelay,
            Action::Close => ActionG::Close,
            Action::Idle => ActionG::Idle,
        }
    }
}

/// The acknowledgement, byte for byte:
/// `HTTP/1.1 200 Connection established\r\n\r\n`.
pub open spec fn ack_msg() -> Seq<u8> {
    seq![
        0x48u8, 0x54, 0x54, 0x50, 0x2F, 0x31, 0x2E, 0x31, 0x20,
        0x32, 0x30, 0x30, 0x20,
        0x43, 0x6F, 0x6E, 0x6E, 0x65, 0x63, 0x74, 0x69, 0x6F, 0x6E, 0x20,
        0x65, 0x73, 0x74, 0x61, 0x62, 0x6C, 0x69, 0x73, 0x68, 0x65, 0x64,
        0x0D, 0x0A, 0x0D, 0x0A,
    ]
}

/// The acknowledgement as a value the driver can write: exactly
/// `ack_msg`.
pub fn ack_bytes() -> (r: Vec<u8>)
    ensures
        r@ == ack_msg(),
{
    let mut v: Vec<u8> = Vec::new();
    v.push(0x48);
    v.push(0x54);
    v.push(0x54);
    v.push(0x50);
    v.push(0x2F);
    v.push(0x31);
    v.push(0x2E);
    v.push(0x31);
    v.push(0x20);
    v.push(0x32);
    v.push(0x30);
    v.push(0x30);
    v.push(0x20);
    v.push(0x43);
    v.push(0x6F);
    v.push(0x6E);
    v.push(0x6E);
    v.push(0x65);
    v.push(0x63);
    v.push(0x74);
    v.push(0x69);
    v.push(0x6F);
    v.push(0x6E);
    v.push(0x20);
    v.push(0x65);
    v.push(0x73);
    v.push(0x74);
    v.push(0x61);
    v.push(0x62);
    v.push(0x6C);
    v.push(0x69);
    v.push(0x73);
    v.push(0x68);
    v.push(0x65);
    v.push(0x64);
    v.push(0x0D);
    v.push(0x0A);
    v.push(0x0D);
    v.push(0x0A);
    proof {
        assert(v@ =~= ack_msg());
    }
    v
}

/// The state after `e` arrives in state `s`. An event that does not
/// belong to the current phase leaves the state unchanged.
pub open spec fn next_state(s: StateG, e: EventG) -> StateG {
    match (s, e) {
        (StateG::AwaitRequest, EventG::ReadDone { bytes }) => if bytes.len() == 0 {
            StateG::Closed { end: SessionEnd::EmptyRequest }
        } else {
            match utf8_decode(bytes) {
                None => StateG::Closed { end: SessionEnd::InvalidText },
                Some(text) => match second_token(text) {
                    None => StateG::Closed { end: SessionEnd::MissingTarget },
                    Some(target) => StateG::AwaitDial { target },
                },
            }
        },
        (StateG::AwaitRequest, EventG::ReadFailed) => StateG::Closed {
            end: SessionEnd::ReadFailed,
        },
        (StateG::AwaitDial { .. }, EventG::DialDone) => StateG::AwaitAck,
        (StateG::AwaitDial { .. }, EventG::DialFailed) => StateG::Closed {
            end: SessionEnd::DialFailed,
        },
        (StateG::AwaitAck, EventG::AckWritten) => StateG::Relaying,
        (StateG::AwaitAck, EventG::AckWriteFailed) => StateG::Closed {
            end: SessionEnd::AckWriteFailed,
        },
        (StateG::Relaying, EventG::RelayDone) => StateG::Closed { end: SessionEnd::Completed },
        (StateG::Relaying, EventG::RelayFailed) => StateG::Closed { end: SessionEnd::RelayFailed },
        _ => s,
    }
}

/// The action the driver must take on the transition `next_state(s, e)`.
pub open spec fn next_action(s: StateG, e: EventG) -> ActionG {
    match (s, e) {
        (StateG::AwaitRequest, EventG::ReadDone { bytes }) => if bytes.len() == 0 {
            ActionG::Close
        } else {
            match utf8_decode(bytes) {
                None => ActionG::Close,
                Some(text) => match second_token(text) {
                    None => ActionG::Close,
                    Some(_) => ActionG::Dial,
                },
            }
        },
        (StateG::AwaitRequest, EventG::ReadFailed) => ActionG::Close,
        (StateG::AwaitDial { .. }, EventG::DialDone) => ActionG::WriteAck { response: ack_msg() },
        (StateG::AwaitDial { .. }, EventG::DialFailed) => ActionG::Close,
        (StateG::AwaitAck, EventG::AckWritten) => ActionG::StartRelay,
        (StateG::AwaitAck, EventG::AckWriteFailed) => ActionG::Close,
        (StateG::Relaying, EventG::RelayDone) => ActionG::Close,
        (StateG::Relaying, EventG::RelayFailed) => ActionG::Close,
        _ => ActionG::Idle,
    }
}

/// A fresh session: it waits for the request and asks the driver to read
/// it.
pub fn session_init() -> (r: (State, Action))
    ensures
        r.0@ == StateG::AwaitRequest,
        r.1@ == ActionG::ReadRequest,
{
    (State::AwaitRequest, Action::ReadRequest)
}

/// One transition of the session machine: exactly `next_state` and
/// `next_action` on the models of its arguments.
pub fn step(state: State, event: Event) -> (r: (State, Action))
    ensures
        r.0@ == next_state(state@, event@),
        r.1@ == next_action(state@, event@),
{
    match (state, event) {
        (State::AwaitRequest, Event::ReadDone { bytes }) => {
            if bytes.len() == 0 {
                (State::Closed { end: SessionEnd::EmptyRequest }, Action::Close)
            } else {
                match utf8_to_chars(&bytes) {
                    None => (State::Closed { end: SessionEnd::InvalidText }, Action::Close),
                    Some(chars) => match second_token_of(&chars) {
                        None => (
                            State::Closed { end: SessionEnd::MissingTarget },
                            Action::Close,
                        ),
                        Some(target) => (State::AwaitDial { target }, Action::Dial),
                    },
                }
            }
        },
        (State::AwaitRequest, Event::ReadFailed) => (
            State::Closed { end: SessionEnd::ReadFailed },
            Action::Close,
        ),
        (State::AwaitDial { .. }, Event::DialDone) => (
            State::AwaitAck,
            Action::WriteAck { response: ack_bytes() },
        ),
        (State::AwaitDial { .. }, Event::DialFailed) => (
            State::Closed { end: SessionEnd::DialFailed },
            Action::Close,
        ),
        (State::AwaitAck, Event::AckWritten) => (State::Relaying, Action::StartRelay),
        (State::AwaitAck, Event::AckWriteFailed) => (
            State::Closed { end: SessionEnd::AckWriteFailed },
            Action::Close,
        ),
        (State::Relaying, Event::RelayDone) => (
            State::Closed { end: SessionEnd::Completed },
            Action::Close,
        ),
        (State::Relaying, Event::RelayFailed) => (
            State::Closed { end: SessionEnd::RelayFailed },
            Action::Close,
        ),
        (s, _) => (s, Action::Idle),
    }
}

} // verus!
