//! What holds of the session of a callee's leg, of an owner that takes over or
//! leaves, and of what is told of a call to others.

use crate::call::action::ActionIdentity;
use crate::call::actor::ActorState;
use crate::call::ai::{
    codec_of, first_codec, AiTapStreamSpec, AudioCodec, JobRef, Participant, StreamBinding,
};
use crate::call::callee::{
    leg_state_after, rejection_text, CalleeSessionActor, CalleeState, CalleeStep, NextStep,
    PeerMessage,
};
use crate::call::config_snapshot::{CallConfigSnapshot, CallRuntime, MediaPolicySnapshot};
use crate::call::coordinator::{CallCore, OutboxState};
use crate::call::dtmf::{
    Collector, DigitCollectionMode, DigitCollectorPhase, DigitEvent, DtmfSourceDecision,
    DtmfSourceLock, DtmfSourcePolicy,
};
use crate::call::event::{names_leg_event, ActionDeliveryFailed, CallActionAck, CallLegEvent};
use crate::call::model::{HangupCause, LegState, OutboundCandidate};
use crate::call::summary::{mode_name, needs_coordinator, phase_name, sums_up, CollectorSummary};
use vstd::prelude::*;

verus! {

// ---------------------------------------------------------------------------
// A callee's leg.

/// A leg waits for its answer once there is progress, is bridged once it answered,
/// and is gone once it failed or its dialog ended; other frames leave it as it is.
pub proof fn lemma_what_moves_a_leg(state: LegState, frame: Seq<char>)
    ensures
        leg_state_after(state, "OutboundProvisional"@) == LegState::WaitForAnswer,
        leg_state_after(state, "OutboundAnswered"@) == LegState::Bridged,
        leg_state_after(state, "OutboundFailed"@) == LegState::Destroyed,
        leg_state_after(state, "DialogDisconnected"@) == LegState::Destroyed,
        frame != "OutboundProvisional"@ && frame != "OutboundAnswered"@ && frame
            != "OutboundFailed"@ && frame != "DialogDisconnected"@ ==> leg_state_after(state, frame)
            == state,
{
    reveal_strlit("OutboundProvisional");
    reveal_strlit("OutboundAnswered");
    reveal_strlit("OutboundFailed");
    reveal_strlit("DialogDisconnected");
    assert("OutboundProvisional"@.len() == 19);
    assert("OutboundAnswered"@.len() == 16);
    assert("OutboundFailed"@.len() == 14);
    assert("DialogDisconnected"@.len() == 18);
}

/// A leg that begins is being dialled and has taken nothing.
pub proof fn lemma_leg_begins_dialling()
    ensures
        CalleeState::fresh().state == LegState::Dialing,
        CalleeState::fresh().completed == Set::<(Seq<char>, u64)>::empty(),
        CalleeState::fresh().source.policy == DtmfSourcePolicy::Auto,
        CalleeState::fresh().source.lock == DtmfSourceLock::Unset,
        CalleeState::fresh().source.accepted.len() == 0,
        CalleeState::fresh().deduper.order.len() == 0,
        CalleeState::fresh().deduper.capacity == 16_384,
{
}

/// An event of this call that is newer than the last of its leg is handed to the
/// owner as it came; the session stops exactly where the leg is gone with it. Any
/// other event is dropped.
pub proof fn lemma_leg_event_reaches_the_owner(
    before: CalleeSessionActor,
    after: CalleeSessionActor,
    step: CalleeStep,
    frame_type: String,
    event: CallLegEvent,
    payload_types: Vec<u8>,
)
    requires
        after.leg_event_reported(before, step, frame_type, event, payload_types),
    ensures
        ({
            let new = (event.call_id matches Some(id) ==> id@ == before.call_id@) && !(
            before@.deduper.highest.contains_key(event.adapter_call_leg_id@)
                && event.leg_event_seq <= before@.deduper.highest[event.adapter_call_leg_id@]);
            &&& new ==> step.message == Some(
                PeerMessage::LegEvent { frame_type, event, payload_types },
            )
            &&& new && after@.state == LegState::Destroyed ==> step.next == NextStep::Stop
            &&& new && after@.state != LegState::Destroyed ==> step.next
                == NextStep::GoOnIfDelivered
            &&& new ==> after@.state == leg_state_after(before@.state, frame_type@)
            &&& !new ==> step.message is None && step.next == NextStep::GoOn && after@ == before@
            &&& after@.source == before@.source && after@.completed == before@.completed
        }),
{
}

/// A digit of this session is handed to the owner where its source's arbitration
/// accepts it, and only then.
pub proof fn lemma_accepted_digit_reaches_the_owner(
    before: CalleeSessionActor,
    after: CalleeSessionActor,
    step: CalleeStep,
    event: DigitEvent,
)
    requires
        after.digit_reported(before, step, event),
    ensures
        ({
            let own = event.consistent() && event.domain_id@ == before.domain_id@ && event.call_id@
                == before.call_id@ && event.source_session_id@ == before.session_id@;
            let accepted = own && before@.source.decision(event) == DtmfSourceDecision::Accepted;
            &&& accepted ==> step.message == Some(PeerMessage::Digit(event)) && step.next
                == NextStep::GoOnIfDelivered
            &&& !accepted ==> step.message is None && step.next == NextStep::GoOn
            &&& own ==> after@.source == before@.source.after(event)
            &&& !own ==> after@ == before@
            &&& after@.state == before@.state
        }),
{
}

/// A result is of a leg where it names its call, its session and its generation.
pub proof fn lemma_which_results_are_of_a_leg(actor: CalleeSessionActor, identity: ActionIdentity)
    ensures
        actor.result_is_current(identity) <==> identity.call_id@ == actor.call_id@
            && identity.session_id@ == actor.session_id@ && identity.generation
            == actor.action_generation,
{
}

/// An action that did not reach the adapter ends the leg, and the owner is told; one
/// of another leg or generation does nothing.
pub proof fn lemma_failed_action_ends_the_leg(
    before: CalleeSessionActor,
    after: CalleeSessionActor,
    step: CalleeStep,
    failure: ActionDeliveryFailed,
)
    requires
        after.failure_reported(before, step, failure),
    ensures
        before.result_is_current(failure.identity) ==> step.message == Some(
            PeerMessage::ActionFailed(failure),
        ) && step.next == NextStep::Stop && after@.state == LegState::Destroyed,
        !before.result_is_current(failure.identity) ==> step.message is None && step.next
            == NextStep::GoOn && after@ == before@,
{
}

/// The answer to an action of the leg counts once. An acceptance is remembered and
/// nothing more; a rejection ends the leg, and the owner is told why.
pub proof fn lemma_rejected_action_ends_the_leg(
    before: CalleeSessionActor,
    after: CalleeSessionActor,
    step: CalleeStep,
    ack: CallActionAck,
)
    requires
        after.ack_taken(before, step, ack),
    ensures
        ({
            let key = (ack.action_id@, ack.generation);
            let counts = ack.call_id@ == before.call_id@ && ack.session_id@ == before.session_id@
                && ack.generation == before.action_generation && !before@.completed.contains(key);
            &&& !counts ==> step.message is None && step.next == NextStep::GoOn && after@ == before@
            &&& counts ==> after@.completed == before@.completed.insert(key)
            &&& counts && ack.counts_as_accepted() ==> step.message is None && step.next
                == NextStep::GoOn && after@.state == before@.state
            &&& counts && !ack.counts_as_accepted() ==> (step.message matches Some(
                PeerMessage::ActionFailed(failure),
            ) && failure.identity == ack.names() && (ack.result.message matches Some(message)
                ==> failure.reason@ == message@) && (ack.result.message is None && (
            ack.result.original_status is None) ==> failure.reason@
                == "adapter rejected call action"@)) && step.next == NextStep::Stop && after@.state
                == LegState::Destroyed
        }),
{
}

/// Why an action was rejected: in the adapter's words where it has any, by the status
/// it had before where it has none, and in the given words else.
pub proof fn lemma_words_for_a_rejection(ack: CallActionAck, otherwise: Seq<char>)
    ensures
        ack.result.message matches Some(message) ==> rejection_text(ack, otherwise) == message@,
        ack.result.message is None ==> (ack.result.original_status matches Some(status)
            ==> rejection_text(ack, otherwise) == status@),
        ack.result.message is None && ack.result.original_status is None ==> rejection_text(
            ack,
            otherwise,
        ) == otherwise,
{
}

/// Which frames are about a leg of a call.
pub proof fn lemma_frames_of_legs(frame: Seq<char>)
    ensures
        names_leg_event("InboundInviteOffered"@),
        names_leg_event("OutboundProvisional"@),
        names_leg_event("OutboundAnswered"@),
        names_leg_event("OutboundFailed"@),
        names_leg_event("InboundInviteCancelled"@),
        names_leg_event("DialogDisconnected"@),
        names_leg_event(frame) ==> frame == "InboundInviteOffered"@ || frame
            == "OutboundProvisional"@ || frame == "OutboundAnswered"@ || frame == "OutboundFailed"@
            || frame == "InboundInviteCancelled"@ || frame == "DialogDisconnected"@,
{
}

// ---------------------------------------------------------------------------
// Owners.

/// An owner that takes over a leg goes on with what that leg's session had taken, and
/// with the call, its collections and its counts as they were.
pub proof fn lemma_takeover_keeps_the_call(s: ActorState, target: CalleeSessionActor)
    ensures
        s.owning(target).core == s.core,
        s.owning(target).collection == s.collection,
        s.owning(target).router == s.router,
        s.owning(target).completed == s.completed,
        s.owning(target).ai_capture == s.ai_capture,
        s.owning(target).deduper == target@.deduper,
        s.owning(target).source == target@.source,
        s.owning(target).owned_completed == target@.completed,
{
}

/// An owner that leaves a call which is not finalized ends it, for the cause that was
/// known or else for an internal error; a finalized call it leaves as it is.
pub proof fn lemma_leaving_owner_gives_a_cause(s: ActorState, o: OutboxState)
    ensures
        s.core.finalized ==> s.left(o) == (s, o),
        !s.core.finalized && s.core.hangup_cause is Some ==> s.left(o).0.core.hangup_cause
            == s.core.hangup_cause,
        !s.core.finalized && s.core.hangup_cause is None && !s.core.finalization_started
            ==> s.left(o).0.core.hangup_cause == Some(HangupCause::InternalError),
        !s.core.finalized ==> s.left(o).0.core.finalization_started,
{
    reveal(ActorState::left);
    reveal(ActorState::settled);
    reveal(CallCore::finishing);
}

// ---------------------------------------------------------------------------
// What others are told.

/// A summary of a collector says which it is, whose digits it takes, how, and how far
/// it is.
pub proof fn lemma_summary_of_a_collector(summary: CollectorSummary, collector: Collector)
    requires
        sums_up(summary, collector),
    ensures
        summary.collector_id == collector.spec.collector_id,
        summary.source_session_id == collector.spec.source_session_id,
        collector.spec.mode == DigitCollectionMode::Observe ==> summary.mode@ == "observe"@,
        collector.spec.mode == DigitCollectionMode::Collect ==> summary.mode@ == "collect"@,
        collector.phase == DigitCollectorPhase::Acquiring ==> summary.phase@ == "acquiring"@,
        collector.phase == DigitCollectorPhase::Active ==> summary.phase@ == "active"@,
        collector.phase == DigitCollectorPhase::Releasing ==> summary.phase@ == "releasing"@,
{
}

/// The words for how a collector takes digits and how far it is.
pub proof fn lemma_words_for_collectors()
    ensures
        mode_name(DigitCollectionMode::Observe) == "observe"@,
        mode_name(DigitCollectionMode::Collect) == "collect"@,
        phase_name(DigitCollectorPhase::Acquiring) == "acquiring"@,
        phase_name(DigitCollectorPhase::Active) == "active"@,
        phase_name(DigitCollectorPhase::Releasing) == "releasing"@,
        needs_coordinator() == "collector_requires_call_coordinator"@,
{
}

/// The service decodes the two G.711 types; of those that were agreed on it takes the
/// first it can.
pub proof fn lemma_first_codec_is_taken(payload_types: Seq<u8>, from: nat, i: int)
    requires
        from <= i < payload_types.len(),
        payload_types[i] == 0 || payload_types[i] == 8,
        forall|k: int|
            from <= k < i ==> (#[trigger] payload_types[k]) != 0 && payload_types[k] != 8,
    ensures
        first_codec(payload_types, from) == Some(
            (
                payload_types[i],
                if payload_types[i] == 0 {
                    AudioCodec::Pcmu
                } else {
                    AudioCodec::Pcma
                },
            ),
        ),
        codec_of(0) == Some(AudioCodec::Pcmu),
        codec_of(8) == Some(AudioCodec::Pcma),
    decreases i - from,
{
    if from < i {
        assert(payload_types[from as int] != 0 && payload_types[from as int] != 8);
        lemma_first_codec_is_taken(payload_types, from + 1, i);
    }
}

/// Where nothing was agreed on that the service decodes, there is no codec.
pub proof fn lemma_no_codec_is_taken(payload_types: Seq<u8>, from: nat)
    requires
        forall|k: int|
            from <= k < payload_types.len() ==> (#[trigger] payload_types[k]) != 0
                && payload_types[k] != 8,
    ensures
        first_codec(payload_types, from) is None,
    decreases payload_types.len() - from,
{
    if from < payload_types.len() {
        assert(payload_types[from as int] != 0 && payload_types[from as int] != 8);
        lemma_no_codec_is_taken(payload_types, from + 1);
    }
}

/// A job is named after its call, belongs to its domain, and is the first of its kind.
pub proof fn lemma_job_of_a_call(job: JobRef, call: CallRuntime)
    requires
        job.is_of(call),
    ensures
        job.job_id@ == "ai-"@ + call.call_id@,
        job.tenant_id == call.config_snapshot.domain_id,
        job.conversation_id == call.call_id,
        job.operation_id@ == "post-call-v1"@,
        job.generation == 1,
{
}

/// A participant has its role for a name, and a stream carries one channel at eight
/// thousand samples a second under the same names on both ends.
pub proof fn lemma_streams_of_a_call(
    participant: Participant,
    binding: StreamBinding,
    tap: AiTapStreamSpec,
    role: Seq<char>,
    number: String,
    stream: Seq<char>,
    payload_type: u8,
    codec: AudioCodec,
)
    requires
        participant.is(role, number),
        binding.carries(stream, role, codec),
        tap.taps(stream, role, payload_type, codec),
    ensures
        participant.participant_id@ == role && participant.role@ == role,
        participant.display_number == Some(number),
        binding.stream_id@ == stream && tap.stream_id@ == stream,
        binding.participant_id@ == role && tap.participant_id@ == role,
        binding.codec == codec && tap.codec == codec && tap.payload_type == payload_type,
        binding.sample_rate == 8000 && tap.sample_rate == 8000,
        binding.channels == 1 && tap.channels == 1,
{
}

/// A call begins with its first candidate: with its recording and its analysis, and
/// with one line of audio and nothing else.
pub proof fn lemma_call_begins_with_the_first_candidate(snapshot: CallConfigSnapshot)
    requires
        snapshot.wf(),
    ensures
        snapshot.candidates@.len() > 0,
        snapshot.recording.initial_requested == snapshot.candidates@[0].recording_requested,
        snapshot.recording.initial_policy_ids@ == snapshot.candidates@[0].recording_policy_ids@,
        snapshot.initial_ai_policy == snapshot.candidates@[0].ai_policy,
        snapshot.media_policy.audio_only,
        snapshot.media_policy.max_audio_m_lines == 1,
{
}

/// Only one line of audio is supported.
pub proof fn lemma_supported_media(policy: MediaPolicySnapshot)
    ensures
        policy.supported() <==> policy.audio_only && policy.max_audio_m_lines == 1,
{
}

/// A call that stands at a candidate has its target, its trunk and its policies.
pub proof fn lemma_call_at_a_candidate(call: CallRuntime, candidate: OutboundCandidate)
    requires
        call.is_at(candidate),
    ensures
        call.callee_target@ == candidate.outbound_target.stable_name(),
        call.outbound_trunk_ref == candidate.outbound_trunk_ref,
        call.outbound_trunk_name == candidate.outbound_trunk_name,
        call.recording_requested == candidate.recording_requested,
        call.ai_policy == candidate.ai_policy,
{
}

/// Two states of one call agree in what does not change.
pub proof fn lemma_what_does_not_change_in_a_call(a: CallRuntime, b: CallRuntime)
    requires
        a.same_call(b),
    ensures
        a.config_snapshot == b.config_snapshot,
        a.call_id == b.call_id,
        a.caller_session_id == b.caller_session_id,
        a.caller_adapter_leg_id == b.caller_adapter_leg_id,
        a.started_at_ms == b.started_at_ms,
{
}

/// What events change of a leg is not whose leg it is.
pub proof fn lemma_leg_keeps_its_name(after: CalleeSessionActor, before: CalleeSessionActor)
    requires
        after.same_leg(before),
    ensures
        after.session_id@ == before.session_id@,
        after.call_id@ == before.call_id@,
        after.domain_id@ == before.domain_id@,
        after.attempt_seq == before.attempt_seq,
        after.action_generation == before.action_generation,
{
}

/// Where nothing is done, the leg is as it was, nobody is told and the session goes on.
pub proof fn lemma_nothing_done_is_nothing(
    after: CalleeSessionActor,
    before: CalleeSessionActor,
    step: CalleeStep,
)
    requires
        after.nothing_done(before, step),
    ensures
        after@.state == before@.state,
        after@.deduper == before@.deduper,
        after@ == before@,
        step.message is None,
        step.next == NextStep::GoOn,
{
}

} // verus!
