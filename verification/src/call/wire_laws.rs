//! What holds of names and of what is written for the adapter: sessions, actions,
//! commands, the fields of a command, and the time limits that are set.

use crate::call::action::{action_name, command_name, identified, ActionIdentity, JsonField};
use crate::call::action_body::{candidate_of, description_of, with_body, Fields};
use crate::call::actor::lease_name;
use crate::call::config_snapshot::CallRuntime;
use crate::call::coordinator::{ActionBody, ActionKind, ActionLabel, CallAction, CancelReason};
use crate::call::event::{CallActionAck, CallActionAckStatus};
use crate::call::model::{session_name, OutboundTarget, SdpBody, SessionRef};
use crate::call::timer::{chosen_ms, nanos};
use crate::text::{decimal, opt_text};
use vstd::prelude::*;

verus! {

/// A session is named after its call and its side, an attempt by its number besides.
pub proof fn lemma_session_names(call: Seq<char>, attempt: u16)
    ensures
        session_name(call, SessionRef::Caller) == "session-"@ + call + "-caller"@,
        session_name(call, SessionRef::CalleeAttempt(attempt)) == "session-"@ + call
            + "-callee-attempt-"@ + decimal(attempt as nat),
{
}

/// A lease is named after its call and its collector.
pub proof fn lemma_lease_names(call: Seq<char>, collector: Seq<char>)
    ensures
        lease_name(call, collector) == "dtmf-collector-"@ + call + "-"@ + collector,
{
}

/// An action that a call takes once is named after its purpose and the call.
pub proof fn lemma_names_of_single_actions(call: Seq<char>)
    ensures
        action_name(ActionLabel::Adopt, call) == "adopt-"@ + call,
        action_name(ActionLabel::Answer, call) == "answer-"@ + call,
        action_name(ActionLabel::Reject, call) == "reject-"@ + call,
        action_name(ActionLabel::Cancel, call) == "cancel-"@ + call,
        action_name(ActionLabel::Hangup, call) == "hangup-"@ + call,
        action_name(ActionLabel::HangupAfterCancel, call) == "hangup-after-cancel-"@ + call,
        action_name(ActionLabel::HangupLateAnswer, call) == "hangup-late-answer-"@ + call,
        action_name(ActionLabel::DialTimeoutCancel, call) == "dial-timeout-cancel-"@ + call,
        action_name(ActionLabel::DialTimeoutReject, call) == "dial-timeout-reject-"@ + call,
        action_name(ActionLabel::RingTimeoutCancel, call) == "ring-timeout-cancel-"@ + call,
        action_name(ActionLabel::RingTimeoutReject, call) == "ring-timeout-reject-"@ + call,
        action_name(ActionLabel::CleanupHangupCaller, call) == "cleanup-hangup-caller-"@ + call,
        action_name(ActionLabel::CleanupHangupCallee, call) == "cleanup-hangup-callee-"@ + call,
        action_name(ActionLabel::RejectRouteBudget, call) == "reject-route-budget-"@ + call,
        action_name(ActionLabel::RejectAttemptMedia, call) == "reject-attempt_media_failed-"@
            + call,
        action_name(ActionLabel::RejectAttemptOverload, call)
            == "reject-attempt_registration_overload-"@ + call,
        action_name(ActionLabel::RejectAttemptRegistration, call)
            == "reject-attempt_registration_failed-"@ + call,
        action_name(ActionLabel::RejectActionFailure, call) == "reject-action-failure-"@ + call,
        action_name(ActionLabel::MediaFailureCallee, call) == "media-failure-callee-"@ + call,
        action_name(ActionLabel::MediaFailureCaller, call) == "media-failure-caller-"@ + call,
{
    assert forall|prefix: Seq<char>| #[trigger] (prefix + call) + Seq::<char>::empty()
        == prefix + call by {
        assert((prefix + call) + Seq::<char>::empty() =~= prefix + call);
    }
}

/// An action that may be repeated is named after what it is about besides: the
/// attempt, the status, or the digit's place in its dialog.
pub proof fn lemma_names_of_repeated_actions(
    call: Seq<char>,
    attempt: u16,
    status: u16,
    dialog_generation: u64,
    cseq: u32,
)
    ensures
        action_name(ActionLabel::Originate { attempt }, call) == "originate-"@ + call + (
        "-attempt-"@ + decimal(attempt as nat)),
        action_name(ActionLabel::RetryCancel { attempt }, call) == "retry-cancel-"@ + call + (
        "-attempt-"@ + decimal(attempt as nat)),
        action_name(ActionLabel::RetryLateAnswerHangup { attempt }, call)
            == "retry-late-answer-hangup-"@ + call + ("-attempt-"@ + decimal(attempt as nat)),
        action_name(ActionLabel::RetryCleanupHangup { attempt }, call) == "retry-cleanup-hangup-"@
            + call + ("-attempt-"@ + decimal(attempt as nat)),
        action_name(ActionLabel::Provisional { status }, call) == "provisional-"@ + call + ("-"@
            + decimal(status as nat)),
        action_name(ActionLabel::DtmfInfo { dialog_generation, cseq }, call) == "dtmf-info-"@ + call
            + ("-"@ + decimal(dialog_generation as nat) + "-"@ + decimal(cseq as nat)),
{
}

/// The command of each kind of action.
pub proof fn lemma_command_names(target: OutboundTarget)
    ensures
        command_name(ActionKind::AdoptInboundInvite, target) == "AdoptInboundInvite"@,
        target is Endpoint ==> command_name(ActionKind::Originate, target) == "OriginateEndpoint"@,
        target is Trunk ==> command_name(ActionKind::Originate, target) == "OriginateTrunk"@,
        command_name(ActionKind::ForwardProvisional, target) == "ForwardProvisional"@,
        command_name(ActionKind::AnswerInboundInvite, target) == "AnswerInboundInvite"@,
        command_name(ActionKind::RejectInboundInvite, target) == "RejectInboundInvite"@,
        command_name(ActionKind::CancelOutbound, target) == "CancelOutbound"@,
        command_name(ActionKind::HangupDialog, target) == "HangupDialog"@,
        command_name(ActionKind::SendDtmfInfo, target) == "SendDtmfInfo"@,
{
}

/// How the reason of a cancellation is written.
pub proof fn lemma_cancel_reasons()
    ensures
        CancelReason::DialTimeout.name() == "dial_timeout"@,
        CancelReason::RingTimeout.name() == "ring_timeout"@,
        CancelReason::SequentialHuntRetry.name() == "sequential_hunt_retry"@,
        CancelReason::CallerCancelled.name() == "caller_cancelled"@,
{
}

/// A target keeps its name: an endpoint by its id behind its word, a trunk by its
/// own.
pub proof fn lemma_target_names(target: OutboundTarget)
    ensures
        target matches OutboundTarget::Endpoint { endpoint_id, .. } ==> target.stable_name()
            == "endpoint:"@ + endpoint_id@,
        target matches OutboundTarget::Trunk { trunk_ref } ==> target.stable_name() == trunk_ref@,
{
}

/// An action that the adapter refused is refused; one that it took is taken; one it
/// had seen before counts as it did then.
pub proof fn lemma_repeated_action_counts_as_before(ack: CallActionAck)
    ensures
        ack.status == CallActionAckStatus::Accepted ==> ack.counts_as_accepted(),
        ack.status == CallActionAckStatus::Rejected ==> !ack.counts_as_accepted(),
        ack.status == CallActionAckStatus::Duplicate ==> (ack.counts_as_accepted() <==> (
        ack.result.original_status matches Some(status) && status@ == "accepted"@)),
        ack.names().call_id == ack.call_id,
        ack.names().session_id == ack.session_id,
        ack.names().action_kind == ack.action_kind,
        ack.names().action_id == ack.action_id,
        ack.names().generation == ack.generation,
{
}

/// Whether a field of a command holds a text.
pub open spec fn says(fields: Fields, key: Seq<char>, text: Seq<char>) -> bool {
    fields.contains_key(key) && fields[key] == JsonField::Text(text)
}

/// The command that reaches for the callee says for which domain and which caller's
/// session, whom it is to reach, and both numbers as they are signalled.
pub proof fn lemma_originate_says_whom_to_reach(
    fields: Fields,
    call: CallRuntime,
    action: CallAction,
    candidate: usize,
    sdp: SdpBody,
)
    requires
        action.body == (ActionBody::Originate { candidate, sdp }),
    ensures
        ({
            let f = with_body(fields, call, action);
            let target = call.config_snapshot.candidates@[candidate as int].outbound_target;
            &&& says(f, "domain_id"@, call.config_snapshot.domain_id@)
            &&& says(f, "caller_session_id"@, call.caller_session_id@)
            &&& says(f, "caller_number"@, call.config_snapshot.numbers.signaling_caller@)
            &&& says(f, "callee_number"@, call.config_snapshot.numbers.signaling_callee@)
            &&& target matches OutboundTarget::Endpoint { endpoint_id, endpoint_number } ==> says(
                f,
                "endpoint_id"@,
                endpoint_id@,
            ) && says(f, "endpoint_number"@, endpoint_number@)
            &&& target matches OutboundTarget::Trunk { trunk_ref } ==> says(
                f,
                "trunk_ref"@,
                trunk_ref@,
            )
            &&& f["caller_display_name"@] == JsonField::Null
            &&& f["sip_metadata"@] == JsonField::EmptyObject
            &&& f["extension_headers"@] == JsonField::EmptyObject
        }),
        candidate_of(action) == candidate,
        description_of(action) == Some(("sdp_offer"@, sdp)),
{
    reveal_strlit("domain_id");
    reveal_strlit("caller_session_id");
    reveal_strlit("endpoint_id");
    reveal_strlit("endpoint_number");
    reveal_strlit("trunk_ref");
    reveal_strlit("caller_number");
    reveal_strlit("callee_number");
    reveal_strlit("caller_display_name");
    reveal_strlit("sip_metadata");
    reveal_strlit("extension_headers");
    assert("domain_id"@.len() == 9 && "trunk_ref"@.len() == 9 && "domain_id"@[0] != "trunk_ref"@[0]);
    assert("caller_session_id"@.len() == 17 && "extension_headers"@.len() == 17
        && "caller_session_id"@[0] != "extension_headers"@[0]);
    assert("endpoint_id"@.len() == 11);
    assert("endpoint_number"@.len() == 15);
    assert("caller_number"@.len() == 13 && "callee_number"@.len() == 13 && "caller_number"@[5]
        != "callee_number"@[5]);
    assert("caller_display_name"@.len() == 19);
    assert("sip_metadata"@.len() == 12);
}

/// What is said to the caller's leg names that leg and the status: that of a refusal,
/// that of progress, or that the call is answered.
pub proof fn lemma_caller_is_told_the_status(
    fields: Fields,
    call: CallRuntime,
    action: CallAction,
    status: u16,
    sdp: Option<SdpBody>,
    answer: SdpBody,
)
    ensures
        ({
            let f = with_body(fields, call, action);
            let told = says(f, "adapter_call_leg_id"@, call.caller_adapter_leg_id@)
                && f.contains_key("status_code"@);
            &&& action.body == ActionBody::Status(status) ==> told && f["status_code"@]
                == JsonField::Number(status as u64) && description_of(action) is None
            &&& action.body == (ActionBody::Provisional { status, sdp }) ==> told
                && f["status_code"@] == JsonField::Number(status as u64) && (sdp is None
                ==> f["sdp"@] == JsonField::Null && description_of(action) is None) && (
            sdp matches Some(body) ==> description_of(action) == Some(("sdp"@, body)))
            &&& action.body == (ActionBody::Answer { sdp: answer }) ==> told && f["status_code"@]
                == JsonField::Number(200) && says(
                f,
                "domain_id"@,
                call.config_snapshot.domain_id@,
            ) && description_of(action) == Some(("sdp_answer"@, answer))
        }),
{
    reveal_strlit("adapter_call_leg_id");
    reveal_strlit("status_code");
    reveal_strlit("sdp");
    reveal_strlit("domain_id");
    reveal_strlit("sip_metadata");
    reveal_strlit("extension_headers");
    assert("adapter_call_leg_id"@.len() == 19);
    assert("status_code"@.len() == 11);
    assert("sdp"@.len() == 3);
    assert("domain_id"@.len() == 9);
    assert("sip_metadata"@.len() == 12);
    assert("extension_headers"@.len() == 17);
}

/// A cancellation says why, an adoption says which leg of which domain, and a digit
/// says for which session it is and how long it lasts; a hangup says nothing more.
pub proof fn lemma_other_commands_say_what_they_need(
    fields: Fields,
    call: CallRuntime,
    action: CallAction,
    reason: CancelReason,
    target: SessionRef,
    duration_ms: u32,
)
    ensures
        ({
            let f = with_body(fields, call, action);
            &&& action.body == ActionBody::Reason(reason) ==> says(f, "reason"@, reason.name())
            &&& action.body == ActionBody::Empty && action.kind == ActionKind::AdoptInboundInvite
                ==> says(f, "domain_id"@, call.config_snapshot.domain_id@) && says(
                f,
                "adapter_call_leg_id"@,
                call.caller_adapter_leg_id@,
            )
            &&& action.body == ActionBody::Empty && action.kind != ActionKind::AdoptInboundInvite
                ==> f == fields
            &&& action.body is Digit && action.body->Digit_target == target
                && action.body->Digit_duration_ms == duration_ms ==> says(
                f,
                "target_session_id"@,
                session_name(call.call_id@, target),
            ) && f["duration_ms"@] == JsonField::Number(duration_ms as u64)
            &&& !(action.body is Originate) ==> candidate_of(action) == 0
        }),
{
    reveal_strlit("domain_id");
    reveal_strlit("adapter_call_leg_id");
    reveal_strlit("target_session_id");
    reveal_strlit("duration_ms");
    assert("domain_id"@.len() == 9 && "adapter_call_leg_id"@.len() == 19);
    assert("target_session_id"@.len() == 17 && "duration_ms"@.len() == 11);
}

/// A command says of which action it is.
pub proof fn lemma_command_carries_its_identity(fields: Fields, identity: ActionIdentity)
    ensures
        says(identified(fields, identity), "call_id"@, identity.call_id@),
        says(identified(fields, identity), "session_id"@, identity.session_id@),
        says(identified(fields, identity), "action_id"@, identity.action_id@),
        identified(fields, identity)["generation"@] == JsonField::Number(identity.generation),
{
    crate::call::action::lemma_identity_overrides_body(fields, identity, "call_id"@);
}

/// A time limit that is set is the one that was asked for, a million nanoseconds to
/// the millisecond; what is no positive number counts as not set.
pub proof fn lemma_time_limits(milliseconds: u64, default_ms: u64, text: Seq<char>)
    ensures
        chosen_ms(None, default_ms) == default_ms,
        crate::text::parsed_u64(text) is None ==> chosen_ms(Some(text), default_ms) == default_ms,
        crate::text::parsed_u64(text) == Some(0u64) ==> chosen_ms(Some(text), default_ms)
            == default_ms,
        crate::text::parsed_u64(text) matches Some(n) ==> (n > 0 ==> chosen_ms(
            Some(text),
            default_ms,
        ) == n),
        milliseconds <= 18_446_744_073_709 ==> nanos(milliseconds) == milliseconds * 1_000_000,
        milliseconds > 18_446_744_073_709 ==> nanos(milliseconds) == u64::MAX,
{
}

/// The texts of two optional strings agree where the strings do.
pub proof fn lemma_optional_text(text: Option<String>)
    ensures
        text matches Some(t) ==> opt_text(text) == Some(t@),
        text is None ==> opt_text(text) is None,
{
}

} // verus!
