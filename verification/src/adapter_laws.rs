//! What holds of the connection to the adapter: which frames are told apart, where
//! they go, which offered calls are taken up, and who can register a session.

use crate::adapter::{
    ack_destination, ack_taken, asked_by_owner, attempt_registered, kind_of, leg_event_destination,
    originated_leg, to_coordinator, to_session, AdmissionState, AttemptRegistration, Destination,
    FrameKind, InviteDecision, MirrorState,
};
use crate::adapter_writer::{fault_of, tells, Completion, WriteOutcome};
use crate::call::event::{CallActionAck, CallActionAckStatus, CallLegEvent};
use crate::call::session::ManagerState;
use crate::text::{begins_with, opt_text};
use vstd::prelude::*;

verus! {

// ---------------------------------------------------------------------------
// Frames.

/// A frame is known by its name, and by nothing but its name: every kind has its own,
/// and the five events of a leg share one kind.
pub proof fn lemma_every_kind_has_its_names(name: Seq<char>)
    ensures
        kind_of(name) == FrameKind::InviteOffered <==> name == "InboundInviteOffered"@,
        kind_of(name) == FrameKind::LegEvent <==> name == "OutboundProvisional"@ || name
            == "OutboundAnswered"@ || name == "OutboundFailed"@ || name
            == "InboundInviteCancelled"@ || name == "DialogDisconnected"@,
        kind_of(name) == FrameKind::SipDtmfReceived <==> name == "SipDtmfReceived"@,
        kind_of(name) == FrameKind::DtmfInfoSendResult <==> name == "DtmfInfoSendResult"@,
        kind_of(name) == FrameKind::CallActionAck <==> name == "CallActionAck"@,
        kind_of(name) == FrameKind::ApplyRuntimeViewAck <==> name == "ApplyRuntimeViewAck"@,
        kind_of(name) == FrameKind::AdapterReady <==> name == "AdapterReady"@,
        kind_of(name) == FrameKind::RegistrationSnapshotBegin <==> name
            == "RegistrationSnapshotBegin"@,
        kind_of(name) == FrameKind::RegistrationChanged <==> name == "RegistrationChanged"@,
        kind_of(name) == FrameKind::RegistrationSnapshotEnd <==> name == "RegistrationSnapshotEnd"@,
        kind_of(name) == FrameKind::TrunkRegistrationChanged <==> name
            == "TrunkRegistrationChanged"@,
        kind_of(name) == FrameKind::TrunkHealthChanged <==> name == "TrunkHealthChanged"@,
        kind_of(name) == FrameKind::SipTraceObserved <==> name == "SipTraceObserved"@,
{
    reveal_strlit("InboundInviteOffered");
    reveal_strlit("OutboundProvisional");
    reveal_strlit("OutboundAnswered");
    reveal_strlit("OutboundFailed");
    reveal_strlit("InboundInviteCancelled");
    reveal_strlit("DialogDisconnected");
    reveal_strlit("SipDtmfReceived");
    reveal_strlit("DtmfInfoSendResult");
    reveal_strlit("CallActionAck");
    reveal_strlit("ApplyRuntimeViewAck");
    reveal_strlit("AdapterReady");
    reveal_strlit("RegistrationSnapshotBegin");
    reveal_strlit("RegistrationChanged");
    reveal_strlit("RegistrationSnapshotEnd");
    reveal_strlit("TrunkRegistrationChanged");
    reveal_strlit("TrunkHealthChanged");
    reveal_strlit("SipTraceObserved");
    assert("InboundInviteOffered"@.len() == 20);
    assert("OutboundProvisional"@.len() == 19 && "OutboundProvisional"@[0] == 'O');
    assert("OutboundAnswered"@.len() == 16 && "OutboundAnswered"@[0] == 'O');
    assert("OutboundFailed"@.len() == 14);
    assert("InboundInviteCancelled"@.len() == 22);
    assert("DialogDisconnected"@.len() == 18 && "DialogDisconnected"@[1] == 'i');
    assert("SipDtmfReceived"@.len() == 15);
    assert("DtmfInfoSendResult"@.len() == 18 && "DtmfInfoSendResult"@[1] == 't');
    assert("CallActionAck"@.len() == 13);
    assert("ApplyRuntimeViewAck"@.len() == 19 && "ApplyRuntimeViewAck"@[0] == 'A');
    assert("AdapterReady"@.len() == 12);
    assert("RegistrationSnapshotBegin"@.len() == 25);
    assert("RegistrationChanged"@.len() == 19 && "RegistrationChanged"@[0] == 'R');
    assert("RegistrationSnapshotEnd"@.len() == 23);
    assert("TrunkRegistrationChanged"@.len() == 24);
    assert("TrunkHealthChanged"@.len() == 18 && "TrunkHealthChanged"@[1] == 'r');
    assert("SipTraceObserved"@.len() == 16 && "SipTraceObserved"@[0] == 'S');
}

/// The mirrored registrations count from the end of their list until an adapter
/// announces a new one; the trunks count as soon as there is an adapter.
pub proof fn lemma_mirror_waits_for_the_list(mirror: MirrorState, kind: FrameKind)
    ensures
        mirror.after(kind).registrations_ready <==> kind == FrameKind::RegistrationSnapshotEnd || (
        mirror.registrations_ready && kind != FrameKind::AdapterReady),
        mirror.after(kind).trunks_ready <==> mirror.trunks_ready || kind == FrameKind::AdapterReady,
{
}

// ---------------------------------------------------------------------------
// Offered calls.

/// A call is taken up where it is new and there is room, and then holds one permit. The
/// same call twice is a repetition even where there is no room.
pub proof fn lemma_room_is_given_out_once(s: AdmissionState, leg: Seq<char>, other: Seq<char>)
    requires
        other != leg,
    ensures
        s.decision(leg) == InviteDecision::TakeUp <==> !s.inflight.contains(leg) && s.permits > 0,
        s.decision(leg) == InviteDecision::Duplicate <==> s.inflight.contains(leg),
        s.offered(leg).inflight.contains(other) == s.inflight.contains(other),
        s.offered(leg).inflight.contains(leg) <==> s.inflight.contains(leg) || s.permits > 0,
        s.offered(leg).permits == s.permits || s.offered(leg).permits + 1 == s.permits,
        s.offered(leg).permits < s.permits <==> !s.inflight.contains(leg) && s.permits > 0,
{
}

/// Two different calls need two permits.
pub proof fn lemma_two_calls_need_two_permits(s: AdmissionState, one: Seq<char>, two: Seq<char>)
    requires
        one != two,
        !s.inflight.contains(one),
        !s.inflight.contains(two),
    ensures
        s.permits == 1 ==> s.offered(one).decision(two) == InviteDecision::Overloaded,
        s.permits >= 2 ==> s.offered(one).decision(two) == InviteDecision::TakeUp && s.offered(
            one,
        ).offered(two).permits == s.permits - 2,
{
}

// ---------------------------------------------------------------------------
// Where a frame goes.

/// No frame is handed to a session that is not there, nor to a coordinator whose
/// mailboxes are closed; and one that is there gets what is addressed to it.
pub proof fn lemma_nothing_goes_to_the_absent<H>(s: ManagerState<H>, id: Seq<char>, session: Seq<char>)
    ensures
        to_session(s, id) == Destination::Session(session) <==> id == session
            && s.sessions.contains_key(id),
        to_session(s, id) == Destination::Nobody <==> !s.sessions.contains_key(id),
        to_coordinator(s, id) == Destination::Coordinator(session) <==> id == session
            && s.coordinators.contains_key(id) && s.coordinators[id].control@.open
            && s.coordinators[id].event@.open,
        to_coordinator(s, id) == Destination::Nobody <==> !(s.coordinators.contains_key(id)
            && s.coordinators[id].control@.open && s.coordinators[id].event@.open),
{
}

/// An event goes to the session that it names, whatever is known of its leg; only where
/// it names none does its leg decide.
pub proof fn lemma_named_session_comes_first<H>(
    s: ManagerState<H>,
    event: CallLegEvent,
    session: Seq<char>,
)
    ensures
        event.session_id matches Some(named) ==> (leg_event_destination(s, event)
            == Destination::Session(session) <==> named@ == session && s.sessions.contains_key(
            session,
        )),
        event.session_id is None ==> (leg_event_destination(s, event) == Destination::Session(
            session,
        ) <==> s.legs.contains_key(event.adapter_call_leg_id@)
            && s.legs[event.adapter_call_leg_id@] == session && s.sessions.contains_key(session)),
        !(leg_event_destination(s, event) is Coordinator),
{
}

/// What the caller's session asked for is answered to the coordinator; what another
/// session asked for is answered to that session.
pub proof fn lemma_answers_go_to_who_asked<H>(
    s: ManagerState<H>,
    ack: CallActionAck,
    to: Seq<char>,
)
    ensures
        ack_destination(s, ack) == Destination::Session(to) <==> ack.session_id@ == to
            && s.sessions.contains_key(to) && !(s.originators.contains_key(ack.call_id@)
            && s.originators[ack.call_id@] == to),
        ack_destination(s, ack) == Destination::Coordinator(to) <==> ack.call_id@ == to
            && s.coordinators.contains_key(to) && s.coordinators[to].control@.open
            && s.coordinators[to].event@.open && s.originators.contains_key(to)
            && s.originators[to] == ack.session_id@,
{
}

/// A leg becomes known by the accepted answer to a request for an outbound call, and by
/// no other answer.
pub proof fn lemma_only_an_outbound_call_makes_a_leg_known(ack: CallActionAck)
    ensures
        originated_leg(ack) matches Some(leg) ==> {
            &&& ack.status != CallActionAckStatus::Rejected
            &&& ack.status == CallActionAckStatus::Duplicate ==> (
            ack.result.original_status matches Some(first) && first@ == "accepted"@)
            &&& ack.result.adapter_call_leg_id matches Some(named) && named@ == leg
            &&& ack.action_kind@.len() >= 9
            &&& ack.action_kind@.take(9) == "Originate"@
        },
        ack.action_kind@.len() >= 9 && ack.action_kind@.take(9) == "Originate"@ && (ack.status
            == CallActionAckStatus::Accepted || (ack.status == CallActionAckStatus::Duplicate
            && opt_text(ack.result.original_status) == Some("accepted"@))) ==> originated_leg(ack)
            == opt_text(ack.result.adapter_call_leg_id),
{
    reveal_strlit("Originate");
    assert("Originate"@.len() == 9);
    let kind = ack.action_kind@;
    if originated_leg(ack) is Some {
        assert(begins_with(kind, "Originate"@));
        assert(kind.take(9) =~= "Originate"@);
    }
}

/// An answer changes at most which leg its own session has.
pub proof fn lemma_answers_touch_only_their_leg<H>(
    s: ManagerState<H>,
    ack: CallActionAck,
    leg: Seq<char>,
)
    ensures
        ({
            let t = ack_taken(s, ack);
            &&& t.sessions == s.sessions && t.session_calls == s.session_calls
            &&& t.originators == s.originators && t.owners == s.owners
            &&& t.coordinators == s.coordinators && t.pending == s.pending
            &&& t.legs.contains_key(leg) && (!s.legs.contains_key(leg) || s.legs[leg]
                != t.legs[leg]) ==> t.legs[leg] == ack.session_id@ && s.sessions.contains_key(
                ack.session_id@,
            ) && originated_leg(ack) == Some(leg)
            &&& s.legs.contains_key(leg) && s.legs[leg] != ack.session_id@ ==> t.legs.contains_key(
                leg,
            )
        }),
{
}

// ---------------------------------------------------------------------------
// Attempts.

/// The session of an attempt is registered for the owner of the call alone: named by
/// its session and its generation, and still to be reached.
pub proof fn lemma_only_the_owner_registers<H>(
    s: ManagerState<H>,
    registration: AttemptRegistration<H>,
)
    ensures
        asked_by_owner(s, registration) <==> {
            let call = registration.call_id@;
            &&& s.coordinators.contains_key(call)
            &&& s.coordinators[call].control@.open && s.coordinators[call].event@.open
            &&& s.owners.contains_key(call)
            &&& s.owners[call].session == registration.coordinator_session_id@
            &&& s.owners[call].generation == registration.coordinator_generation
        },
{
}

/// A new attempt takes the place of the one before, in the same call; the legs and
/// sessions of others stay as they are.
pub proof fn lemma_attempt_takes_the_place_of_the_last<H>(
    s: ManagerState<H>,
    registration: AttemptRegistration<H>,
    other: Seq<char>,
)
    requires
        asked_by_owner(s, registration),
        other != registration.session_id@,
        other != registration.previous_session_id@,
    ensures
        ({
            let t = attempt_registered(s, registration);
            let new = registration.session_id@;
            let old_one = registration.previous_session_id@;
            &&& t.sessions.contains_key(new) && t.sessions[new] == registration.handle
            &&& t.session_calls.contains_key(new) && t.session_calls[new] == registration.call_id@
            &&& new != old_one ==> !t.sessions.contains_key(old_one)
                && !t.session_calls.contains_key(old_one)
            &&& t.sessions.contains_key(other) == s.sessions.contains_key(other)
            &&& s.sessions.contains_key(other) ==> t.sessions[other] == s.sessions[other]
            &&& t.session_calls.contains_key(other) == s.session_calls.contains_key(other)
            &&& t.owners == s.owners && t.coordinators == s.coordinators && t.originators
                == s.originators
        }),
{
}

/// Where nobody is there to be told, the session of the attempt goes, and no other.
pub proof fn lemma_attempt_without_a_coordinator_goes<H>(
    s: ManagerState<H>,
    registration: AttemptRegistration<H>,
    other: Seq<char>,
)
    requires
        other != registration.session_id@,
        !s.coordinators.contains_key(registration.call_id@) || !(
        s.coordinators[registration.call_id@].control@.open
            && s.coordinators[registration.call_id@].event@.open),
    ensures
        ({
            let t = attempt_registered(s, registration);
            &&& !t.sessions.contains_key(registration.session_id@)
            &&& t.sessions.contains_key(other) == s.sessions.contains_key(other)
            &&& s.sessions.contains_key(other) ==> t.sessions[other] == s.sessions[other]
            &&& t.owners == s.owners && t.coordinators == s.coordinators
        }),
{
}

// ---------------------------------------------------------------------------
// Writing.

/// A frame that was written has no fault; a fault says whether time ran out, and how
/// much there was.
pub proof fn lemma_fault_names_its_cause(outcome: WriteOutcome)
    ensures
        fault_of(outcome) is None <==> outcome is Written,
        outcome matches WriteOutcome::TimedOut { allowed } ==> fault_of(outcome) == Some(
            "adapter runtime write timed out after "@ + allowed@,
        ),
        outcome is Failed ==> fault_of(outcome) == Some("write adapter runtime frame"@),
{
}

/// Every sender is told, each about its own frame, and all the same.
pub proof fn lemma_every_sender_is_told(
    completions: Seq<Completion>,
    tickets: Seq<u64>,
    fault: Option<Seq<char>>,
    i: int,
)
    requires
        tells(completions, tickets, fault),
        0 <= i < tickets.len(),
    ensures
        completions.len() == tickets.len(),
        completions[i].ticket == tickets[i],
        fault is None ==> completions[i].fault is None,
        fault matches Some(text) ==> (completions[i].fault matches Some(told) && told@ == text),
{
}

} // verus!
