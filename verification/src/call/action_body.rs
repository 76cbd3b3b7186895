//! What the commands of a call say: which action they are, and the fields that each
//! kind of action carries. Session descriptions, and the digit of a forwarded key
//! press, are put in where the command is sent.

use crate::call::action::{
    action_command, action_id, action_name, command_name, identified, insert_identity, json_fields,
    set_field, set_number, set_text, ActionIdentity, FieldValue, JsonField,
};
use crate::call::config_snapshot::CallRuntime;
use crate::call::coordinator::{ActionBody, ActionKind, CallAction, CancelReason};
use crate::call::model::{session_id, session_name, OutboundTarget, SdpBody};
use vstd::prelude::*;

verus! {

impl CancelReason {
    pub open spec fn name(self) -> Seq<char> {
        match self {
            CancelReason::DialTimeout => "dial_timeout"@,
            CancelReason::RingTimeout => "ring_timeout"@,
            CancelReason::SequentialHuntRetry => "sequential_hunt_retry"@,
            CancelReason::CallerCancelled => "caller_cancelled"@,
        }
    }

    pub fn text(self) -> (text: String)
        ensures
            text@ == self.name(),
    {
        match self {
            CancelReason::DialTimeout => "dial_timeout".to_owned(),
            CancelReason::RingTimeout => "ring_timeout".to_owned(),
            CancelReason::SequentialHuntRetry => "sequential_hunt_retry".to_owned(),
            CancelReason::CallerCancelled => "caller_cancelled".to_owned(),
        }
    }
}

/// The candidate that an action is about: the one that is to be reached, and the
/// first where none is.
pub open spec fn candidate_of(action: CallAction) -> int {
    match action.body {
        ActionBody::Originate { candidate, .. } => candidate as int,
        _ => 0,
    }
}

/// Whether a call knows the candidate that an action is about.
pub open spec fn knows_candidate(call: CallRuntime, action: CallAction) -> bool {
    candidate_of(action) < call.config_snapshot.candidates@.len()
}

pub open spec fn target_of(call: CallRuntime, action: CallAction) -> OutboundTarget {
    call.config_snapshot.candidates@[candidate_of(action)].outbound_target
}

fn candidate_index(action: &CallAction) -> (index: usize)
    ensures
        index == candidate_of(*action),
{
    match &action.body {
        ActionBody::Originate { candidate, .. } => *candidate,
        _ => 0,
    }
}

/// Which action a command is, as the sessions and the adapter name it.
pub fn identify_action(call: &CallRuntime, action: &CallAction) -> (identity: ActionIdentity)
    requires
        knows_candidate(*call, *action),
    ensures
        identity.call_id == call.call_id,
        identity.session_id@ == session_name(call.call_id@, action.session),
        identity.action_kind@ == command_name(action.kind, target_of(*call, *action)),
        identity.action_id@ == action_name(action.label, call.call_id@),
        identity.generation == action.generation,
{
    let index = candidate_index(action);
    let target = &call.config_snapshot.candidates[index].outbound_target;
    ActionIdentity {
        call_id: call.call_id.clone(),
        session_id: session_id(call.call_id.as_str(), action.session),
        action_kind: action_command(action.kind, target),
        action_id: action_id(action.label, call.call_id.as_str()),
        generation: action.generation,
    }
}

pub type Fields = Map<Seq<char>, JsonField>;

/// The fields that say whom a call is to reach.
pub open spec fn with_target(fields: Fields, target: OutboundTarget) -> Fields {
    match target {
        OutboundTarget::Endpoint { endpoint_id, endpoint_number } => fields.insert(
            "endpoint_id"@,
            JsonField::Text(endpoint_id@),
        ).insert("endpoint_number"@, JsonField::Text(endpoint_number@)),
        OutboundTarget::Trunk { trunk_ref } => fields.insert(
            "trunk_ref"@,
            JsonField::Text(trunk_ref@),
        ),
    }
}

pub open spec fn with_originate(fields: Fields, call: CallRuntime, target: OutboundTarget) -> Fields {
    with_target(
        fields.insert("domain_id"@, JsonField::Text(call.config_snapshot.domain_id@)).insert(
            "caller_session_id"@,
            JsonField::Text(call.caller_session_id@),
        ),
        target,
    ).insert(
        "caller_number"@,
        JsonField::Text(call.config_snapshot.numbers.signaling_caller@),
    ).insert("caller_display_name"@, JsonField::Null).insert(
        "callee_number"@,
        JsonField::Text(call.config_snapshot.numbers.signaling_callee@),
    ).insert("sip_metadata"@, JsonField::EmptyObject).insert(
        "extension_headers"@,
        JsonField::EmptyObject,
    )
}

/// The fields that name the caller's leg, with a status.
pub open spec fn with_status(fields: Fields, call: CallRuntime, status: u16) -> Fields {
    fields.insert("adapter_call_leg_id"@, JsonField::Text(call.caller_adapter_leg_id@)).insert(
        "status_code"@,
        JsonField::Number(status as u64),
    )
}

/// The fields of an action, without its identity.
pub open spec fn with_body(fields: Fields, call: CallRuntime, action: CallAction) -> Fields {
    match action.body {
        ActionBody::Empty => if action.kind is AdoptInboundInvite {
            fields.insert("domain_id"@, JsonField::Text(call.config_snapshot.domain_id@)).insert(
                "adapter_call_leg_id"@,
                JsonField::Text(call.caller_adapter_leg_id@),
            )
        } else {
            fields
        },
        ActionBody::Reason(reason) => fields.insert("reason"@, JsonField::Text(reason.name())),
        ActionBody::Status(status) => with_status(fields, call, status),
        ActionBody::Provisional { status, sdp } => {
            let told = with_status(fields, call, status);
            if sdp is None {
                told.insert("sdp"@, JsonField::Null)
            } else {
                told
            }
        },
        ActionBody::Answer { .. } => with_status(
            fields.insert("domain_id"@, JsonField::Text(call.config_snapshot.domain_id@)),
            call,
            200,
        ).insert("sip_metadata"@, JsonField::EmptyObject).insert(
            "extension_headers"@,
            JsonField::EmptyObject,
        ),
        ActionBody::Originate { .. } => with_originate(fields, call, target_of(call, action)),
        ActionBody::Digit { target, duration_ms, .. } => fields.insert(
            "target_session_id"@,
            JsonField::Text(session_name(call.call_id@, target)),
        ).insert("duration_ms"@, JsonField::Number(duration_ms as u64)),
    }
}

fn write_status(
    body: &mut serde_json::Map<String, serde_json::Value>,
    call: &CallRuntime,
    status: u16,
)
    ensures
        json_fields(*final(body)) == with_status(json_fields(*old(body)), *call, status),
{
    set_text(body, "adapter_call_leg_id", call.caller_adapter_leg_id.as_str());
    set_number(body, "status_code", status as u64);
}

fn write_originate(
    body: &mut serde_json::Map<String, serde_json::Value>,
    call: &CallRuntime,
    target: &OutboundTarget,
)
    ensures
        json_fields(*final(body)) == with_originate(json_fields(*old(body)), *call, *target),
{
    set_text(body, "domain_id", call.config_snapshot.domain_id.as_str());
    set_text(body, "caller_session_id", call.caller_session_id.as_str());
    match target {
        OutboundTarget::Endpoint { endpoint_id, endpoint_number } => {
            set_text(body, "endpoint_id", endpoint_id.as_str());
            set_text(body, "endpoint_number", endpoint_number.as_str());
        },
        OutboundTarget::Trunk { trunk_ref } => {
            set_text(body, "trunk_ref", trunk_ref.as_str());
        },
    }
    set_text(body, "caller_number", call.config_snapshot.numbers.signaling_caller.as_str());
    set_field(body, "caller_display_name", FieldValue::Null);
    set_text(body, "callee_number", call.config_snapshot.numbers.signaling_callee.as_str());
    set_field(body, "sip_metadata", FieldValue::EmptyObject);
    set_field(body, "extension_headers", FieldValue::EmptyObject);
}

fn write_body(
    body: &mut serde_json::Map<String, serde_json::Value>,
    call: &CallRuntime,
    action: &CallAction,
)
    requires
        knows_candidate(*call, *action),
    ensures
        json_fields(*final(body)) == with_body(json_fields(*old(body)), *call, *action),
{
    match &action.body {
        ActionBody::Empty => {
            if action.kind == ActionKind::AdoptInboundInvite {
                set_text(body, "domain_id", call.config_snapshot.domain_id.as_str());
                set_text(body, "adapter_call_leg_id", call.caller_adapter_leg_id.as_str());
            }
        },
        ActionBody::Reason(reason) => {
            set_text(body, "reason", reason.text().as_str());
        },
        ActionBody::Status(status) => {
            write_status(body, call, *status);
        },
        ActionBody::Provisional { status, sdp } => {
            write_status(body, call, *status);
            if sdp.is_none() {
                set_field(body, "sdp", FieldValue::Null);
            }
        },
        ActionBody::Answer { .. } => {
            set_text(body, "domain_id", call.config_snapshot.domain_id.as_str());
            write_status(body, call, 200);
            set_field(body, "sip_metadata", FieldValue::EmptyObject);
            set_field(body, "extension_headers", FieldValue::EmptyObject);
        },
        ActionBody::Originate { .. } => {
            let index = candidate_index(action);
            write_originate(body, call, &call.config_snapshot.candidates[index].outbound_target);
        },
        ActionBody::Digit { target, duration_ms, .. } => {
            let peer = session_id(call.call_id.as_str(), *target);
            set_text(body, "target_session_id", peer.as_str());
            set_number(body, "duration_ms", *duration_ms as u64);
        },
    }
}

/// Writes an action into the body of its command, and gives its identity.
pub fn write_action(
    body: &mut serde_json::Map<String, serde_json::Value>,
    call: &CallRuntime,
    action: &CallAction,
) -> (identity: ActionIdentity)
    requires
        knows_candidate(*call, *action),
    ensures
        identity.call_id == call.call_id,
        identity.session_id@ == session_name(call.call_id@, action.session),
        identity.action_kind@ == command_name(action.kind, target_of(*call, *action)),
        identity.action_id@ == action_name(action.label, call.call_id@),
        identity.generation == action.generation,
        json_fields(*final(body)) == identified(
            with_body(json_fields(*old(body)), *call, *action),
            identity,
        ),
{
    let identity = identify_action(call, action);
    write_body(body, call, action);
    insert_identity(body, &identity);
    identity
}

/// The field that a session description goes into, and the description.
pub open spec fn description_of(action: CallAction) -> Option<(Seq<char>, SdpBody)> {
    match action.body {
        ActionBody::Provisional { sdp: Some(sdp), .. } => Some(("sdp"@, sdp)),
        ActionBody::Answer { sdp } => Some(("sdp_answer"@, sdp)),
        ActionBody::Originate { sdp, .. } => Some(("sdp_offer"@, sdp)),
        _ => None,
    }
}

pub fn carried_description(action: &CallAction) -> (carried: Option<(String, &SdpBody)>)
    ensures
        match carried {
            Some((field, sdp)) => description_of(*action) == Some((field@, *sdp)),
            None => description_of(*action) is None,
        },
{
    match &action.body {
        ActionBody::Provisional { sdp: Some(sdp), .. } => Some(("sdp".to_owned(), sdp)),
        ActionBody::Answer { sdp } => Some(("sdp_answer".to_owned(), sdp)),
        ActionBody::Originate { sdp, .. } => Some(("sdp_offer".to_owned(), sdp)),
        _ => None,
    }
}

} // verus!
