//! What the owner of a call makes of each message: which step of the call it leads
//! to, which results count, and where digits go.

use crate::call::actor::{
    ActionLog, ActorState, AttemptRegistrationResult, CallPlan, CapabilityReady, ControlMessage,
    ControlSource, MediaActionResult,
};
use crate::call::collection::index_of;
use crate::call::coordinator::{
    ActionBody, ActionKind, ActionLabel, CallEffect, CallError, OutboxState, TopologyChange,
};
use crate::call::dtmf::{
    DigitCollectionMode, DigitCollectorPhase, DigitEvent, DtmfEventId, DtmfSourceDecision,
    DtmfTransport,
};
use crate::call::action::ActionIdentity;
use crate::call::event::{CallActionAck, CallActionAckStatus, CallLegEvent, DtmfInfoSendResult};
use crate::call::leg_laws::{adds, alive, asks, takes};
use crate::call::model::SessionRef;
use crate::text::opt_text;
use vstd::prelude::*;

verus! {

// ---------------------------------------------------------------------------
// Events of the legs.

/// A caller who gives up cancels the call, and a dialog that ends hangs it up: for
/// the session that the event names, where it is one of the two of now. Nothing
/// else that the caller's leg reports moves the call.
pub proof fn lemma_caller_leg_cancels_or_hangs_up(
    s: ActorState,
    p: CallPlan,
    o: OutboxState,
    frame: Seq<char>,
    event: CallLegEvent,
    now: u64,
)
    requires
        event.call_id matches Some(id) ==> id@ == p.call_id@,
        s.deduper.is_new(event.adapter_call_leg_id@, event.leg_event_seq),
    ensures
        ({
            let (t, o1, r) = s.caller_leg(p, o, frame, event, now);
            let cancel = s.core.caller_cancelled(o, now);
            let named_caller = opt_text(event.session_id) == Some(p.name(SessionRef::Caller));
            let named_callee = opt_text(event.session_id) == Some(
                p.name(SessionRef::CalleeAttempt(s.core.current_attempt_seq)),
            );
            let hangup = s.core.disconnected(
                o,
                if named_caller {
                    Some(SessionRef::Caller)
                } else if named_callee {
                    Some(SessionRef::CalleeAttempt(s.core.current_attempt_seq))
                } else {
                    None
                },
                event.status_code,
                now,
            );
            &&& frame == "InboundInviteCancelled"@ ==> (t.core, o1, r) == cancel
            &&& frame == "DialogDisconnected"@ ==> (t.core, o1, r) == hangup
            &&& frame != "InboundInviteCancelled"@ && frame != "DialogDisconnected"@ ==> t.core
                == s.core && o1 == o && r is Ok
            &&& !t.deduper.is_new(event.adapter_call_leg_id@, event.leg_event_seq)
                || s.deduper.order.len() >= s.deduper.capacity
            &&& t.collection == s.collection && t.router == s.router && t.source == s.source
            &&& t.completed == s.completed
        }),
{
    reveal(ActorState::caller_leg);
    reveal_strlit("InboundInviteCancelled");
    reveal_strlit("DialogDisconnected");
    assert("InboundInviteCancelled"@.len() != "DialogDisconnected"@.len());
}

/// An event of the caller's leg that names another call, or is not newer than the
/// last of its leg, moves nothing.
pub proof fn lemma_foreign_leg_event_moves_nothing(
    s: ActorState,
    p: CallPlan,
    o: OutboxState,
    frame: Seq<char>,
    event: CallLegEvent,
    now: u64,
)
    requires
        (event.call_id matches Some(id) && id@ != p.call_id@) || (s.deduper.highest.contains_key(
            event.adapter_call_leg_id@,
        ) && event.leg_event_seq <= s.deduper.highest[event.adapter_call_leg_id@]),
    ensures
        s.caller_leg(p, o, frame, event, now) == (s, o, Ok::<(), CallError>(())),
{
    reveal(ActorState::caller_leg);
}

/// What the attempt of now reports: progress is passed on unless another attempt is
/// being prepared, an answer answers, a failure fails, and a dialog that ends hangs
/// the callee up. Nothing else moves the call.
pub proof fn lemma_callee_leg_drives_the_call(
    s: ActorState,
    p: CallPlan,
    o: OutboxState,
    frame: Seq<char>,
    event: CallLegEvent,
    payload_types: Vec<u8>,
    now: u64,
)
    requires
        opt_text(event.session_id) == Some(
            p.name(SessionRef::CalleeAttempt(s.core.current_attempt_seq)),
        ),
    ensures
        ({
            let (t, o1, r) = s.peer_leg(p, o, frame, event, payload_types, now);
            let callee = SessionRef::CalleeAttempt(s.core.current_attempt_seq);
            &&& frame == "OutboundProvisional"@ && s.core.retry_after_cleanup is None ==> (
            t.core, o1, r) == s.core.provisional(o, event.status_code, event.sdp, now)
            &&& frame == "OutboundProvisional"@ && s.core.retry_after_cleanup is Some ==> t.core
                == s.core && o1 == o && r is Ok
            &&& frame == "OutboundAnswered"@ ==> (t.core, o1, r) == s.core.callee_answered(
                o,
                event.sdp,
                payload_types,
                now,
            )
            &&& frame == "OutboundFailed"@ ==> (t.core, o1, r) == s.core.callee_failed(
                o,
                true,
                event.status_code,
                now,
            )
            &&& frame == "DialogDisconnected"@ && !(s.core.answer_in_progress && alive(s.core))
                ==> (t.core, o1, r) == s.core.disconnected(o, Some(callee), event.status_code, now)
            &&& frame != "OutboundProvisional"@ && frame != "OutboundAnswered"@ && frame
                != "OutboundFailed"@ && frame != "DialogDisconnected"@ ==> t.core == s.core && o1
                == o && r is Ok
            &&& t.collection == s.collection && t.router == s.router && t.source == s.source
            &&& t.deduper == s.deduper && t.completed == s.completed
        }),
{
    reveal(ActorState::peer_leg);
    reveal_strlit("OutboundProvisional");
    reveal_strlit("OutboundAnswered");
    reveal_strlit("OutboundFailed");
    reveal_strlit("DialogDisconnected");
    assert("OutboundProvisional"@.len() == 19);
    assert("OutboundAnswered"@.len() == 16);
    assert("OutboundFailed"@.len() == 14);
    assert("DialogDisconnected"@.len() == 18);
}

/// A callee that hangs up while its answer is on the way to the caller is not acted
/// on at once: the attempt and its status are kept for when the answer is there.
pub proof fn lemma_hangup_waits_for_the_answer(
    s: ActorState,
    p: CallPlan,
    o: OutboxState,
    event: CallLegEvent,
    payload_types: Vec<u8>,
    now: u64,
)
    requires
        opt_text(event.session_id) == Some(
            p.name(SessionRef::CalleeAttempt(s.core.current_attempt_seq)),
        ),
        s.core.answer_in_progress,
        alive(s.core),
    ensures
        ({
            let (t, o1, r) = s.peer_leg(p, o, "DialogDisconnected"@, event, payload_types, now);
            &&& r is Ok
            &&& o1 == o
            &&& t.core.deferred_callee_disconnect matches Some(kept) && kept.attempt_seq
                == s.core.current_attempt_seq && kept.status_code == event.status_code
            &&& t.core.state == s.core.state
            &&& t.core.callee_terminated == s.core.callee_terminated
            &&& t.core.caller_terminated == s.core.caller_terminated
            &&& t.core.pending_answer == s.core.pending_answer
        }),
{
    reveal(ActorState::peer_leg);
    reveal_strlit("OutboundProvisional");
    reveal_strlit("DialogDisconnected");
    assert("OutboundProvisional"@.len() != "DialogDisconnected"@.len());
}

// ---------------------------------------------------------------------------
// Results of actions.

/// A result counts once, for the caller's session of this call and the generation
/// of now, and only then.
pub proof fn lemma_which_results_count(s: ActorState, p: CallPlan, identity: ActionIdentity)
    ensures
        s.result_counts(p, identity) <==> {
            &&& identity.call_id@ == p.call_id@
            &&& identity.session_id@ == p.name(SessionRef::Caller)
            &&& identity.generation == s.core.action_generation
            &&& !s.completed.contains((identity.action_id@, identity.generation))
        },
        s.result_taken(identity).completed == s.completed.insert(
            (identity.action_id@, identity.generation),
        ),
        s.result_taken(identity).core == s.core,
        !s.result_taken(identity).result_counts(p, identity),
{
}

/// A digit that could not be sent is counted and ends nothing; any other failure
/// goes to the call, which is told whether it was an attempt to reach the callee
/// and on whose leg it was.
pub proof fn lemma_failed_action_goes_to_the_call(
    s: ActorState,
    p: CallPlan,
    o: OutboxState,
    identity: ActionIdentity,
    peer: bool,
    now: u64,
)
    requires
        peer || s.result_counts(p, identity),
        s.router.info_send_failed < u64::MAX,
    ensures
        ({
            let (t, o1, r) = s.action_failure(p, o, identity, peer, now);
            &&& identity.action_kind@ == "SendDtmfInfo"@ ==> {
                &&& t.core == s.core
                &&& r is Ok
                &&& adds(o, o1, seq![CallEffect::PublishView])
                &&& t.router.info_send_failed == s.router.info_send_failed + 1
                &&& t.router.info_send_succeeded == s.router.info_send_succeeded
                &&& t.router.forwarded == s.router.forwarded
                &&& t.router.consumed == s.router.consumed
                &&& t.router.ignored == s.router.ignored
            }
            &&& identity.action_kind@ == "OriginateEndpoint"@ || identity.action_kind@
                == "OriginateTrunk"@ ==> (t.core, o1, r) == s.core.action_failed(o, true, peer, now)
                && t.router == s.router
            &&& identity.action_kind@ == "HangupDialog"@ || identity.action_kind@
                == "AnswerInboundInvite"@ || identity.action_kind@ == "RejectInboundInvite"@
                || identity.action_kind@ == "CancelOutbound"@ || identity.action_kind@
                == "ForwardProvisional"@ || identity.action_kind@ == "AdoptInboundInvite"@ ==> (
            t.core, o1, r) == s.core.action_failed(o, false, peer, now) && t.router == s.router
            &&& !peer ==> t.completed == s.completed.insert(
                (identity.action_id@, identity.generation),
            )
            &&& peer ==> t.completed == s.completed
            &&& t.collection == s.collection
        }),
{
    reveal(ActorState::action_failure);
    reveal_strlit("SendDtmfInfo");
    reveal_strlit("Originate");
    reveal_strlit("OriginateEndpoint");
    reveal_strlit("OriginateTrunk");
    reveal_strlit("HangupDialog");
    reveal_strlit("AnswerInboundInvite");
    reveal_strlit("RejectInboundInvite");
    reveal_strlit("CancelOutbound");
    reveal_strlit("ForwardProvisional");
    reveal_strlit("AdoptInboundInvite");
    let kind = identity.action_kind@;
    let front = kind.take(9);
    if kind == "OriginateEndpoint"@ || kind == "OriginateTrunk"@ {
        assert(kind[0] == 'O' && "SendDtmfInfo"@[0] == 'S');
        assert(front =~= "Originate"@);
    } else if kind == "HangupDialog"@ || kind == "AnswerInboundInvite"@ || kind
        == "RejectInboundInvite"@ || kind == "CancelOutbound"@ || kind == "ForwardProvisional"@
        || kind == "AdoptInboundInvite"@ {
        assert(kind[0] != 'O' && kind[0] != 'S');
        assert("SendDtmfInfo"@[0] == 'S');
        assert("Originate"@[0] == 'O');
        assert(front[0] == kind[0]);
    }
}

/// An accepted action is remembered; where it is the answer to the caller, the call
/// is told that it is answered, and whether it is recorded. A refused one failed.
pub proof fn lemma_accepted_answer_connects_the_call(
    s: ActorState,
    p: CallPlan,
    o: OutboxState,
    ack: CallActionAck,
    now_ms: u64,
    now: u64,
)
    requires
        s.result_counts(p, ack.names()),
    ensures
        ({
            let (t, o1, r) = s.action_acked(p, o, ack, now_ms, now);
            let identity = ack.names();
            let recorded = s.core.current_candidate < p.recorded@.len()
                && p.recorded@[s.core.current_candidate as int];
            &&& ack.counts_as_accepted() && identity.action_kind@ == "AnswerInboundInvite"@ ==> (
            t.core, o1, r) == s.core.answer_confirmed(
                o,
                identity.action_id@ == "answer-"@ + p.call_id@,
                recorded,
                s.ai_capture,
                now_ms,
                now,
            )
            &&& ack.counts_as_accepted() && identity.action_kind@ != "AnswerInboundInvite"@
                ==> t.core == s.core && o1 == o && r is Ok
            &&& ack.counts_as_accepted() ==> t.completed == s.completed.insert(
                (identity.action_id@, identity.generation),
            )
            &&& !ack.counts_as_accepted() ==> (t, o1, r) == s.action_failure(
                p,
                o,
                identity,
                false,
                now,
            )
        }),
{
    reveal(ActorState::action_acked);
    assert("answer-"@ + p.call_id@ + Seq::<char>::empty() =~= "answer-"@ + p.call_id@);
}

/// What is answered to an action of an owner other than the caller counts once, for
/// its own session and generation; an acceptance moves nothing, and a refusal is a
/// failure on the peer's side.
pub proof fn lemma_owner_of_another_leg_takes_its_own_results(
    s: ActorState,
    p: CallPlan,
    o: OutboxState,
    ack: CallActionAck,
    now: u64,
)
    ensures
        ({
            let (t, o1, r) = s.owned_leg_acked(p, o, ack, now);
            let identity = ack.names();
            let key = (identity.action_id@, identity.generation);
            let own = identity.call_id@ == p.call_id@ && identity.session_id@ == p.name(p.owner)
                && identity.generation == p.owned_action_generation
                && !s.owned_completed.contains(key);
            &&& !own ==> t == s && o1 == o && r is Ok
            &&& own && ack.counts_as_accepted() ==> t.core == s.core && o1 == o && r is Ok
                && t.owned_completed == s.owned_completed.insert(key)
            &&& own && !ack.counts_as_accepted() ==> (t, o1, r) == (ActorState {
                owned_completed: s.owned_completed.insert(key),
                ..s
            }).action_failure(p, o, identity, true, now)
        }),
{
    reveal(ActorState::owned_leg_acked);
}

/// The result of sending a digit counts where it is of this call, of the caller's
/// session and of the generation of now: as sent or as not sent.
pub proof fn lemma_digit_result_is_counted(
    s: ActorState,
    p: CallPlan,
    o: OutboxState,
    result: DtmfInfoSendResult,
)
    requires
        s.router.info_send_succeeded < u64::MAX,
        s.router.info_send_failed < u64::MAX,
    ensures
        ({
            let (t, o1, r) = s.info_result(p, o, result);
            let counts = result.call_id@ == p.call_id@ && result.session_id@ == p.name(
                SessionRef::Caller,
            ) && result.generation == s.core.action_generation;
            &&& r is Ok
            &&& t.core == s.core
            &&& !counts ==> t == s && o1 == o
            &&& counts ==> adds(o, o1, seq![CallEffect::PublishView])
            &&& t.router.info_send_succeeded == s.router.info_send_succeeded + (if counts
                && result.succeeded { 1int } else { 0 })
            &&& t.router.info_send_failed == s.router.info_send_failed + (if counts
                && !result.succeeded { 1int } else { 0 })
            &&& t.router.forwarded == s.router.forwarded && t.router.consumed == s.router.consumed
                && t.router.ignored == s.router.ignored
        }),
{
    reveal(ActorState::info_result);
}

// ---------------------------------------------------------------------------
// Digits.

/// Whether a collector takes the digits of a session for itself.
pub open spec fn taken_by_a_collector(s: ActorState, source: Seq<char>) -> bool {
    exists|i: int|
        0 <= i < s.collection.collectors.len() && (
        #[trigger] s.collection.collectors[i]).phase == DigitCollectorPhase::Active
            && s.collection.collectors[i].spec.source_session_id@ == source
            && s.collection.collectors[i].spec.mode == DigitCollectionMode::Collect
}

/// Where each digit goes. One that a collector takes stays there. Of the others, the
/// caller's goes to the callee's attempt of now and the callee's to the caller, in a
/// message as it came in one; tones went the way of the media already. In a call
/// that is ending, or from a session that is not of it, a digit is dropped.
pub proof fn lemma_digit_reaches_the_other_side(
    s: ActorState,
    p: CallPlan,
    o: OutboxState,
    event: DigitEvent,
    now: u64,
)
    requires
        s.router.forwarded < u64::MAX,
        s.router.consumed < u64::MAX,
        s.router.ignored < u64::MAX,
    ensures
        ({
            let (t, o2, r) = s.digit_routed(p, o, event, now);
            let o1 = s.collection.digit_taken(
                o,
                event.source_session_id@,
                event.digit,
                now,
                s.core.media_generation,
            ).1;
            let source = event.source_session_id@;
            let callee = SessionRef::CalleeAttempt(s.core.current_attempt_seq);
            let from_caller = source == p.name(SessionRef::Caller);
            let from_callee = !from_caller && source == p.name(callee);
            let kept = taken_by_a_collector(s, source);
            let forwarded = !kept && alive(s.core) && (from_caller || from_callee);
            let ignored = !kept && !forwarded;
            &&& t.core == s.core
            &&& t.router.consumed == s.router.consumed + (if kept { 1int } else { 0 })
            &&& t.router.forwarded == s.router.forwarded + (if forwarded { 1int } else { 0 })
            &&& t.router.ignored == s.router.ignored + (if ignored { 1int } else { 0 })
            &&& kept ==> r is Ok && adds(o1, o2, seq![CallEffect::PublishView])
            &&& ignored ==> r is Ok && o2 == o1
            &&& forwarded && event.transport == DtmfTransport::Rfc4733 ==> r is Ok && o2 == o1
            &&& forwarded && event.transport != DtmfTransport::Rfc4733 && (event.event_id matches
                DtmfEventId::SipInfo { dialog_generation, cseq, .. }) && takes(o1, 1) ==> (r is Ok
                && adds(
                o1,
                o2,
                seq![
                    asks(
                        s.core,
                        SessionRef::Caller,
                        ActionKind::SendDtmfInfo,
                        ActionLabel::DtmfInfo {
                            dialog_generation: event.event_id->SipInfo_dialog_generation,
                            cseq: event.event_id->SipInfo_cseq,
                        },
                        ActionBody::Digit {
                            target: if from_caller {
                                callee
                            } else {
                                SessionRef::Caller
                            },
                            digit: event.digit,
                            duration_ms: event.duration_ms,
                            relay: event.transport == DtmfTransport::SipInfoRelay,
                        },
                    ),
                ],
            ))
        }),
{
    reveal(ActorState::digit_routed);
    reveal(OutboxState::submitted);
    let source = event.source_session_id@;
    let collectors = s.collection.collectors;
    if taken_by_a_collector(s, source) {
        let i = choose|i: int|
            0 <= i < collectors.len() && (#[trigger] collectors[i]).phase
                == DigitCollectorPhase::Active && collectors[i].spec.source_session_id@ == source
                && collectors[i].spec.mode == DigitCollectionMode::Collect;
        crate::call::digit_laws::lemma_only_collecting_consumes(
            collectors[i],
            source,
            event.digit,
            now,
        );
        assert(crate::call::actor::digit_consumed(s.collection, event, now));
    }
    if crate::call::actor::digit_consumed(s.collection, event, now) {
        let i = choose|i: int|
            0 <= i < collectors.len() && crate::call::dtmf::consumes(
                (#[trigger] collectors[i]).digit_applied(source, event.digit, now).1,
            );
        crate::call::digit_laws::lemma_only_collecting_consumes(
            collectors[i],
            source,
            event.digit,
            now,
        );
        assert(taken_by_a_collector(s, source));
    }
}

/// A digit of the owner's own leg counts where it is of this domain, this call and
/// the owner's session, and where the arbitration of its source accepts it; then it
/// is routed. Any other is dropped.
pub proof fn lemma_own_digits_are_arbitrated(
    s: ActorState,
    p: CallPlan,
    o: OutboxState,
    event: DigitEvent,
    now: u64,
)
    ensures
        ({
            let step = s.source_digit(p, o, event, now);
            let own = event.consistent() && event.domain_id@ == p.domain_id@ && event.call_id@
                == p.call_id@ && event.source_session_id@ == p.name(p.owner);
            &&& !own ==> step == (s, o, Ok::<(), CallError>(()))
            &&& own ==> step.0.source == s.source.after(event)
            &&& own && s.source.decision(event) == DtmfSourceDecision::Accepted ==> step == (
            ActorState { source: s.source.after(event), ..s }).digit_routed(p, o, event, now)
            &&& own && s.source.decision(event) != DtmfSourceDecision::Accepted ==> step.1 == o
                && step.2 is Ok && step.0.collection == s.collection && step.0.router == s.router
        }),
{
    reveal(ActorState::source_digit);
    reveal(ActorState::digit_routed);
}

/// A digit of the other leg was arbitrated there: it is routed where it is of this
/// domain and this call, and dropped where not.
pub proof fn lemma_peer_digits_are_routed(
    s: ActorState,
    p: CallPlan,
    o: OutboxState,
    event: DigitEvent,
    now: u64,
)
    ensures
        event.domain_id@ == p.domain_id@ && event.call_id@ == p.call_id@ ==> s.peer_digit(
            p,
            o,
            event,
            now,
        ) == s.digit_routed(p, o, event, now),
        event.domain_id@ != p.domain_id@ || event.call_id@ != p.call_id@ ==> s.peer_digit(
            p,
            o,
            event,
            now,
        ) == (s, o, Ok::<(), CallError>(())),
{
    reveal(ActorState::peer_digit);
}

// ---------------------------------------------------------------------------
// Media and registrations.

/// A capability is the one that was asked for where it has the name of the lease of
/// this collector in this call, and is for the session that it collects from.
pub proof fn lemma_which_capability_matches(
    s: ActorState,
    p: CallPlan,
    collector: Seq<char>,
    ready: CapabilityReady,
)
    ensures
        s.capability_matches(p, collector, ready) <==> {
            &&& ready.lease_id@ == "dtmf-collector-"@ + p.call_id@ + "-"@ + collector
            &&& index_of(s.collection.collectors, collector) matches Some(i)
                && s.collection.collectors[i].spec.source_session_id@ == ready.source_session_id@
        },
{
}

/// What the media worker reports goes to the call or to the collector it is for. A
/// capability of another media generation is dropped, and so is one that comes when
/// the call is ending; what was given back counts even then.
pub proof fn lemma_media_results_reach_their_step(
    s: ActorState,
    p: CallPlan,
    o: OutboxState,
    result: MediaActionResult,
    now_ms: u64,
    now: u64,
)
    ensures
        ({
            let (t, o1, r) = s.media_result(p, o, result, now_ms, now);
            match result {
                MediaActionResult::SdpPrepared { generation, purpose, prepared } => (t.core, o1, r)
                    == s.core.sdp_prepared(o, generation, purpose, prepared, now) && t.collection
                    == s.collection,
                MediaActionResult::AnswerMediaStarted { generation, recording_error } => (
                t.core, o1, r) == s.core.answer_media_started(
                    o,
                    generation,
                    recording_error,
                    now_ms,
                ) && t.collection == s.collection,
                MediaActionResult::DtmfCapabilityAcquired { generation, collector_id, result } => {
                    let due = generation == s.core.media_generation && alive(s.core);
                    &&& r is Ok
                    &&& t.core == s.core
                    &&& !due ==> t == s && o1 == o
                    &&& due ==> (t.collection, o1) == (match result {
                        Ok(ready) => s.collection.acquired(
                            o,
                            collector_id@,
                            s.capability_matches(p, collector_id@, ready),
                            ready.media_generation,
                            s.core.media_generation,
                            now,
                        ),
                        Err(error) => s.collection.refused(o, collector_id@, error@),
                    })
                },
                MediaActionResult::DtmfCapabilityReleased { generation, collector_id, failure } => {
                    &&& r is Ok
                    &&& t.core == s.core
                    &&& generation != s.core.media_generation ==> t == s && o1 == o
                    &&& generation == s.core.media_generation ==> (t.collection, o1)
                        == s.collection.released(o, collector_id@, opt_text(failure))
                },
            }
        }),
{
    reveal(ActorState::media_result);
}

/// A registration is taken for the attempt whose session it names, and a rejection
/// likewise; a name that is not that attempt's stands for no session.
pub proof fn lemma_registration_names_its_attempt(
    s: ActorState,
    p: CallPlan,
    o: OutboxState,
    result: AttemptRegistrationResult,
    now: u64,
)
    ensures
        ({
            let (t, o1, r) = s.registration(p, o, result, now);
            let named = result.session_id@ == p.name(SessionRef::CalleeAttempt(result.attempt_seq));
            let session = if named {
                Some(SessionRef::CalleeAttempt(result.attempt_seq))
            } else {
                None
            };
            &&& result.registered ==> (t.core, o1, r) == s.core.attempt_registered(
                o,
                result.attempt_seq,
                session,
                now,
            )
            &&& !result.registered ==> (t.core, o1, r) == s.core.attempt_rejected(
                o,
                result.attempt_seq,
                session,
                now,
            )
            &&& t.collection == s.collection && t.router == s.router
        }),
{
    reveal(ActorState::registration);
}

// ---------------------------------------------------------------------------
// Messages.

/// Which step each message leads to. The leg of the owner is the caller's or an
/// attempt's; what a peer reports is always of the attempt; digits of the own leg
/// are arbitrated, those of the peer were already.
pub proof fn lemma_message_leads_to_its_step(
    s: ActorState,
    p: CallPlan,
    o: OutboxState,
    message: ControlMessage,
    source: ControlSource,
    now_ms: u64,
    now: u64,
)
    ensures
        ({
            let step = s.message_handled(p, o, message, source, now_ms, now);
            let own_other = source == ControlSource::OwnedLeg && p.owner != SessionRef::Caller;
            match message {
                ControlMessage::LegEvent { frame_type, event, payload_types } => {
                    &&& p.owner == SessionRef::Caller ==> step == s.caller_leg(
                        p,
                        o,
                        frame_type@,
                        event,
                        now,
                    )
                    &&& p.owner != SessionRef::Caller ==> step == s.peer_leg(
                        p,
                        o,
                        frame_type@,
                        event,
                        payload_types,
                        now,
                    )
                },
                ControlMessage::PeerLegEvent { frame_type, event, payload_types } => step
                    == s.peer_leg(p, o, frame_type@, event, payload_types, now),
                ControlMessage::ActionDeliveryFailed(failure) => step == s.action_failure(
                    p,
                    o,
                    failure.identity,
                    own_other,
                    now,
                ),
                ControlMessage::PeerActionFailed(failure) => step == s.action_failure(
                    p,
                    o,
                    failure.identity,
                    true,
                    now,
                ),
                ControlMessage::CallActionAck(ack) => {
                    &&& own_other ==> step == s.owned_leg_acked(p, o, ack, now)
                    &&& !own_other ==> step == s.action_acked(p, o, ack, now_ms, now)
                },
                ControlMessage::MediaActionResult(result) => step == s.media_result(
                    p,
                    o,
                    result,
                    now_ms,
                    now,
                ),
                ControlMessage::MediaDtmfObserved(event) => step == s.source_digit(p, o, event, now),
                ControlMessage::SipDtmfReceived(event) => step == s.source_digit(p, o, event, now),
                ControlMessage::PeerDigitEvent(event) => step == s.peer_digit(p, o, event, now),
                ControlMessage::DtmfInfoSendResult(result) => step == s.info_result(p, o, result),
                ControlMessage::AttemptRegistrationResult(result) => step == s.registration(
                    p,
                    o,
                    result,
                    now,
                ),
                ControlMessage::CoordinatorHandoff
                | ControlMessage::CallFinalized
                | ControlMessage::Shutdown => step == (s, o, Ok::<(), CallError>(())),
            }
        }),
{
}

/// A message that is handled is followed by a look at the call as a whole; when
/// that begins the end, the collections end with the reason that the call is over,
/// the topology is released and the record is due. A shutdown ends the call too,
/// and the owner goes on until the record is made.
pub proof fn lemma_end_follows_the_step(
    s: ActorState,
    p: CallPlan,
    o: OutboxState,
    message: ControlMessage,
    source: ControlSource,
    now_ms: u64,
    now: u64,
)
    requires
        !s.core.finalization_started,
        !(message is CallFinalized),
    ensures
        ({
            let (t, o2, goes_on) = s.controlled(p, o, message, source, now_ms, now);
            let (h, o1, r) = s.message_handled(p, o, message, source, now_ms, now);
            let core = if message is Shutdown {
                s.core.shut_down(p.owner)
            } else {
                h.core.processed(r).0
            };
            let before = if message is Shutdown {
                o
            } else {
                o1
            };
            let released = h.collection.aborted(
                before,
                "call_terminated"@,
                core.closing_generation,
            );
            &&& t.core == core
            &&& message is Shutdown ==> goes_on
            &&& !(message is Shutdown) ==> goes_on == h.core.processed(r).1
            &&& core.finalization_started ==> t.collection == released.0 && adds(
                released.1,
                o2,
                seq![CallEffect::Topology(TopologyChange::Released), CallEffect::Finish],
            )
            &&& !core.finalization_started ==> t.collection == h.collection && o2 == before
        }),
{
    reveal(ActorState::settled);
}

/// An answer is complete once the adapter has accepted it: the answer to this call, in
/// the name of the caller's session and of the generation of now, for the first time,
/// and while the call waits for it and is not ending.
pub proof fn lemma_which_result_completes_the_answer(s: ActorState, p: CallPlan, ack: CallActionAck)
    ensures
        s.completes_answer(p, ack) <==> {
            &&& ack.status == CallActionAckStatus::Accepted || (ack.status
                == CallActionAckStatus::Duplicate && opt_text(ack.result.original_status) == Some(
                "accepted"@,
            ))
            &&& ack.call_id@ == p.call_id@
            &&& ack.session_id@ == p.name(SessionRef::Caller)
            &&& ack.generation == s.core.action_generation
            &&& !s.completed.contains((ack.action_id@, ack.generation))
            &&& ack.action_kind@ == "AnswerInboundInvite"@
            &&& ack.action_id@ == "answer-"@ + p.call_id@
            &&& s.core.pending_answer is Some
            &&& !s.core.terminating()
        },
{
    assert("answer-"@ + p.call_id@ + Seq::<char>::empty() =~= "answer-"@ + p.call_id@);
}

/// The log of completed actions knows exactly the actions that were entered, each with
/// its generation.
pub proof fn lemma_log_knows_its_entries(log: ActionLog, i: int, id: Seq<char>, generation: u64) -> (at:
    int)
    ensures
        0 <= i < log.entries@.len() ==> log@.contains(
            (log.entries@[i].action_id@, log.entries@[i].generation),
        ),
        log@.contains((id, generation)) ==> 0 <= at < log.entries@.len()
            && log.entries@[at].action_id@ == id && log.entries@[at].generation == generation,
{
    if 0 <= i < log.entries@.len() {
        assert(log.holds(log.entries@[i].action_id@, log.entries@[i].generation));
    }
    choose|k: int|
        0 <= k < log.entries@.len() && (#[trigger] log.entries@[k]).action_id@ == id
            && log.entries@[k].generation == generation
}

} // verus!
