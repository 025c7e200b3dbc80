//! Laws of a whole session run.
//!
//! A run is the fold of a sequence of driver events through the session
//! machine, starting from a fresh session. The lemmas here state what
//! holds of every run: the acknowledgement is always the exact literal
//! and always precedes the start of the relay; a session that dies
//! before its dial never writes to the client and never dials; a failed
//! dial is never acknowledged; and a dial can aim only at the second
//! token of the request that was read.

use vstd::prelude::*;

use crate::session::{ack_msg, next_action, next_state, ActionG, EventG, SessionEnd, StateG};

verus! {

/// The state after the events of `events`, in order, from a fresh
/// session.
pub open spec fn run(events: Seq<EventG>) -> StateG
    decreases events.len(),
{
    if events.len() == 0 {
        StateG::AwaitRequest
    } else {
        next_state(run(events.drop_last()), events.last())
    }
}

/// The actions the machine asked of the driver along `events`, one per
/// event.
pub open spec fn emitted(events: Seq<EventG>) -> Seq<ActionG>
    decreases events.len(),
{
    if events.len() == 0 {
        Seq::empty()
    } else {
        emitted(events.drop_last()).push(next_action(run(events.drop_last()), events.last()))
    }
}

/// No dial was ever requested.
pub open spec fn no_dial(acts: Seq<ActionG>) -> bool {
    forall|i: int| 0 <= i < acts.len() ==> !(acts[i] is Dial)
}

/// Nothing was ever written to the client.
pub open spec fn no_ack(acts: Seq<ActionG>) -> bool {
    forall|i: int| 0 <= i < acts.len() ==> !(acts[i] is WriteAck)
}

/// The relay was never started.
pub open spec fn no_relay_start(acts: Seq<ActionG>) -> bool {
    forall|i: int| 0 <= i < acts.len() ==> !(acts[i] is StartRelay)
}

/// The acknowledgement write was requested at least once.
pub open spec fn has_ack(acts: Seq<ActionG>) -> bool {
    exists|i: int| 0 <= i < acts.len() && acts[i] is WriteAck
}

/// `e` is a request read whose text names `target` as its second
/// whitespace-delimited token.
pub open spec fn event_names_target(e: EventG, target: Seq<char>) -> bool {
    &&& e matches EventG::ReadDone { bytes }
    &&& bytes.len() > 0
    &&& crate::decode::utf8_decode(bytes) matches Some(text)
    &&& crate::parse::second_token(text) == Some(target)
}

/// The session ends that strike before any dial is attempted.
pub open spec fn pre_dial_end(end: SessionEnd) -> bool {
    ||| end == SessionEnd::ReadFailed
    ||| end == SessionEnd::EmptyRequest
    ||| end == SessionEnd::InvalidText
    ||| end == SessionEnd::MissingTarget
}

/// Everything the machine guarantees of a whole run.
pub open spec fn trace_ok(events: Seq<EventG>) -> bool {
    let s = run(events);
    let acts = emitted(events);
    &&& (s is AwaitRequest ==> no_dial(acts) && no_ack(acts) && no_relay_start(acts))
    &&& (s is AwaitDial ==> no_ack(acts) && no_relay_start(acts))
    &&& (s matches StateG::AwaitDial { target } ==> exists|i: int|
        0 <= i < events.len() && #[trigger] event_names_target(events[i], target))
    &&& (s is AwaitAck ==> has_ack(acts) && no_relay_start(acts))
    &&& (s matches StateG::Closed { end } ==> {
        &&& (pre_dial_end(end) ==> no_dial(acts) && no_ack(acts) && no_relay_start(acts))
        &&& (end == SessionEnd::DialFailed ==> no_ack(acts) && no_relay_start(acts))
        &&& (end == SessionEnd::AckWriteFailed ==> no_relay_start(acts))
    })
    &&& (forall|i: int|
        0 <= i < acts.len() ==> (#[trigger] acts[i] matches ActionG::WriteAck { response }
            ==> response == ack_msg()))
    &&& (forall|i: int|
        0 <= i < acts.len() && acts[i] is StartRelay ==> exists|j: int|
            0 <= j < i && acts[j] is WriteAck)
}

/// Every run of the session machine satisfies `trace_ok`.
pub proof fn lemma_trace_ok(events: Seq<EventG>)
    ensures
        trace_ok(events),
    decreases events.len(),
{
    if events.len() == 0 {
        assert(emitted(events) =~= Seq::<ActionG>::empty());
    } else {
        let pre = events.drop_last();
        let e = events.last();
        lemma_trace_ok(pre);
        let s0 = run(pre);
        let acts0 = emitted(pre);
        let a = next_action(s0, e);
        let s1 = run(events);
        let acts = emitted(events);
        assert(acts == acts0.push(a));
        assert(s1 == next_state(s0, e));
        assert(forall|i: int| 0 <= i < acts0.len() ==> acts[i] == acts0[i]);
        assert(acts[acts0.len() as int] == a);

        assert forall|i: int| 0 <= i < acts.len() implies (#[trigger] acts[i]
            matches ActionG::WriteAck { response } ==> response == ack_msg()) by {
            if i < acts0.len() {
                assert(acts[i] == acts0[i]);
            }
        }

        assert forall|i: int| 0 <= i < acts.len() && acts[i] is StartRelay implies exists|j: int|
            0 <= j < i && acts[j] is WriteAck by {
            if i < acts0.len() {
                assert(acts[i] == acts0[i]);
                let j = choose|j: int| 0 <= j < i && acts0[j] is WriteAck;
                assert(acts[j] == acts0[j]);
                assert(0 <= j < i && acts[j] is WriteAck);
            } else {
                assert(a is StartRelay);
                assert(s0 is AwaitAck);
                let j = choose|j: int| 0 <= j < acts0.len() && acts0[j] is WriteAck;
                assert(acts[j] == acts0[j]);
                assert(0 <= j < i && acts[j] is WriteAck);
            }
        }

        match s1 {
            StateG::AwaitDial { target } => {
                if s0 is AwaitRequest {
                    match e {
                        EventG::ReadDone { bytes } => {
                            assert(events[events.len() - 1] == e);
                            assert(event_names_target(e, target));
                        },
                        _ => {
                            assert(false);
                        },
                    }
                } else {
                    assert(s0 == s1);
                    let i = choose|i: int|
                        0 <= i < pre.len() && #[trigger] event_names_target(pre[i], target);
                    assert(events[i] == pre[i]);
                    assert(event_names_target(events[i], target));
                }
            },
            _ => {},
        }

        if s1 is AwaitAck {
            if s0 is AwaitAck {
                let j = choose|j: int| 0 <= j < acts0.len() && acts0[j] is WriteAck;
                assert(acts[j] == acts0[j]);
                assert(has_ack(acts));
            } else {
                assert(s0 is AwaitDial && e is DialDone);
                assert(a == ActionG::WriteAck { response: ack_msg() });
                assert(acts[acts0.len() as int] is WriteAck);
                assert(has_ack(acts));
            }
        }
    }
}

/// Law: in every run, any acknowledgement the machine asks the driver to
/// write is exactly `HTTP/1.1 200 Connection established\r\n\r\n`, and
/// the relay is started only strictly after such a write was requested.
pub proof fn lemma_ack_precedes_relay(events: Seq<EventG>)
    ensures
        forall|i: int|
            0 <= i < emitted(events).len() ==> (#[trigger] emitted(events)[i]
                matches ActionG::WriteAck { response } ==> response == ack_msg()),
        forall|i: int|
            0 <= i < emitted(events).len() && emitted(events)[i] is StartRelay ==> exists|j: int|
                0 <= j < i && emitted(events)[j] is WriteAck,
{
    lemma_trace_ok(events);
}

/// Law: a session stands ready to dial only a target that is exactly the
/// second whitespace-delimited token of the request text it read.
pub proof fn lemma_dial_target_is_request_token(events: Seq<EventG>)
    ensures
        run(events) matches StateG::AwaitDial { target } ==> exists|i: int|
            0 <= i < events.len() && #[trigger] event_names_target(events[i], target),
{
    lemma_trace_ok(events);
}

/// Law: a session that closed before its dial — the request read failed,
/// was empty, was not text, or had no second token — never asked for an
/// outbound connection and never wrote a byte to the client.
pub proof fn lemma_no_target_no_side_effects(events: Seq<EventG>)
    requires
        run(events) matches StateG::Closed { end } && pre_dial_end(end),
    ensures
        no_dial(emitted(events)),
        no_ack(emitted(events)),
{
    lemma_trace_ok(events);
}

/// Law: a session whose dial failed never wrote anything to the client:
/// the client sees the connection close with no response.
pub proof fn lemma_failed_dial_no_ack(events: Seq<EventG>)
    requires
        run(events) == (StateG::Closed { end: SessionEnd::DialFailed }),
    ensures
        no_ack(emitted(events)),
{
    lemma_trace_ok(events);
}

/// Law: a readable request with a second token, a successful dial and a
/// completed acknowledgement write bring the session to the relay phase,
/// through exactly a dial, the literal acknowledgement, and the relay
/// start, in that order.
pub proof fn lemma_accepted_request_reaches_relay(bytes: Seq<u8>)
    requires
        bytes.len() > 0,
        crate::decode::utf8_decode(bytes) is Some,
        crate::parse::second_token(crate::decode::utf8_decode(bytes)->0) is Some,
    ensures
        ({
            let events = seq![
                EventG::ReadDone { bytes },
                EventG::DialDone,
                EventG::AckWritten,
            ];
            &&& run(events) is Relaying
            &&& emitted(events) =~= seq![
                ActionG::Dial,
                ActionG::WriteAck { response: ack_msg() },
                ActionG::StartRelay,
            ]
        }),
{
    let events = seq![EventG::ReadDone { bytes }, EventG::DialDone, EventG::AckWritten];
    let e0 = seq![EventG::ReadDone { bytes }];
    let e1 = seq![EventG::ReadDone { bytes }, EventG::DialDone];
    assert(e0.drop_last() =~= Seq::<EventG>::empty());
    assert(e1.drop_last() =~= e0);
    assert(events.drop_last() =~= e1);
    assert(run(Seq::<EventG>::empty()) == StateG::AwaitRequest);
    assert(emitted(Seq::<EventG>::empty()) =~= Seq::<ActionG>::empty());
    assert(e0.last() == EventG::ReadDone { bytes });
    assert(run(e0) == next_state(StateG::AwaitRequest, EventG::ReadDone { bytes }));
    assert(run(e0) is AwaitDial);
    assert(emitted(e0) =~= seq![ActionG::Dial]);
    assert(e1.last() == EventG::DialDone);
    assert(run(e1) == next_state(run(e0), EventG::DialDone));
    assert(run(e1) is AwaitAck);
    assert(emitted(e1) =~= seq![ActionG::Dial, ActionG::WriteAck { response: ack_msg() }]);
    assert(events.last() == EventG::AckWritten);
    assert(run(events) == next_state(run(e1), EventG::AckWritten));
    assert(run(events) is Relaying);
    assert(emitted(events) =~= seq![
        ActionG::Dial,
        ActionG::WriteAck { response: ack_msg() },
        ActionG::StartRelay,
    ]);
}

} // verus!
