//! Actions for the adapter: how they are named, and how a command carries the
//! identity of its action.

use crate::call::coordinator::{ActionKind, ActionLabel};
use crate::call::model::OutboundTarget;
use crate::text::{decimal, decimal_text, join2, join3, join4};
use vstd::prelude::*;

verus! {

/// How an action of a call is named.
pub fn call_action_id(action: &str, call_id: &str) -> (id: String)
    ensures
        id@ == action@ + "-"@ + call_id@,
{
    join3(action, "-", call_id)
}

/// The same action of two calls has two names.
pub proof fn lemma_action_ids_tell_calls_apart(action: Seq<char>, a: Seq<char>, b: Seq<char>)
    requires
        action + "-"@ + a == action + "-"@ + b,
    ensures
        a == b,
{
    let left = action + "-"@ + a;
    let n = (action + "-"@).len() as int;
    assert(left.skip(n) =~= a);
    assert((action + "-"@ + b).skip(n) =~= b);
}

/// What stands before the call in the name of an action.
pub open spec fn label_prefix(label: ActionLabel) -> Seq<char> {
    match label {
        ActionLabel::Adopt => "adopt-"@,
        ActionLabel::Originate { .. } => "originate-"@,
        ActionLabel::Provisional { .. } => "provisional-"@,
        ActionLabel::Answer => "answer-"@,
        ActionLabel::Reject => "reject-"@,
        ActionLabel::Cancel => "cancel-"@,
        ActionLabel::Hangup => "hangup-"@,
        ActionLabel::HangupAfterCancel => "hangup-after-cancel-"@,
        ActionLabel::HangupLateAnswer => "hangup-late-answer-"@,
        ActionLabel::DialTimeoutCancel => "dial-timeout-cancel-"@,
        ActionLabel::DialTimeoutReject => "dial-timeout-reject-"@,
        ActionLabel::RingTimeoutCancel => "ring-timeout-cancel-"@,
        ActionLabel::RingTimeoutReject => "ring-timeout-reject-"@,
        ActionLabel::CleanupHangupCaller => "cleanup-hangup-caller-"@,
        ActionLabel::CleanupHangupCallee => "cleanup-hangup-callee-"@,
        ActionLabel::RetryCancel { .. } => "retry-cancel-"@,
        ActionLabel::RetryLateAnswerHangup { .. } => "retry-late-answer-hangup-"@,
        ActionLabel::RetryCleanupHangup { .. } => "retry-cleanup-hangup-"@,
        ActionLabel::RejectRouteBudget => "reject-route-budget-"@,
        ActionLabel::RejectAttemptMedia => "reject-attempt_media_failed-"@,
        ActionLabel::RejectAttemptOverload => "reject-attempt_registration_overload-"@,
        ActionLabel::RejectAttemptRegistration => "reject-attempt_registration_failed-"@,
        ActionLabel::RejectActionFailure => "reject-action-failure-"@,
        ActionLabel::MediaFailureCallee => "media-failure-callee-"@,
        ActionLabel::MediaFailureCaller => "media-failure-caller-"@,
        ActionLabel::DtmfInfo { .. } => "dtmf-info-"@,
    }
}

/// What stands behind the call in the name of an action.
pub open spec fn label_suffix(label: ActionLabel) -> Seq<char> {
    match label {
        ActionLabel::Originate { attempt } => "-attempt-"@ + decimal(attempt as nat),
        ActionLabel::RetryCancel { attempt } => "-attempt-"@ + decimal(attempt as nat),
        ActionLabel::RetryLateAnswerHangup { attempt } => "-attempt-"@ + decimal(attempt as nat),
        ActionLabel::RetryCleanupHangup { attempt } => "-attempt-"@ + decimal(attempt as nat),
        ActionLabel::Provisional { status } => "-"@ + decimal(status as nat),
        ActionLabel::DtmfInfo { dialog_generation, cseq } => "-"@ + decimal(
            dialog_generation as nat,
        ) + "-"@ + decimal(cseq as nat),
        _ => Seq::empty(),
    }
}

pub open spec fn action_name(label: ActionLabel, call_id: Seq<char>) -> Seq<char> {
    label_prefix(label) + call_id + label_suffix(label)
}

/// The name of an action of the coordinator.
pub fn action_id(label: ActionLabel, call_id: &str) -> (id: String)
    ensures
        id@ == action_name(label, call_id@),
{
    let prefix: String = match label {
        ActionLabel::Adopt => "adopt-".to_owned(),
        ActionLabel::Originate { .. } => "originate-".to_owned(),
        ActionLabel::Provisional { .. } => "provisional-".to_owned(),
        ActionLabel::Answer => "answer-".to_owned(),
        ActionLabel::Reject => "reject-".to_owned(),
        ActionLabel::Cancel => "cancel-".to_owned(),
        ActionLabel::Hangup => "hangup-".to_owned(),
        ActionLabel::HangupAfterCancel => "hangup-after-cancel-".to_owned(),
        ActionLabel::HangupLateAnswer => "hangup-late-answer-".to_owned(),
        ActionLabel::DialTimeoutCancel => "dial-timeout-cancel-".to_owned(),
        ActionLabel::DialTimeoutReject => "dial-timeout-reject-".to_owned(),
        ActionLabel::RingTimeoutCancel => "ring-timeout-cancel-".to_owned(),
        ActionLabel::RingTimeoutReject => "ring-timeout-reject-".to_owned(),
        ActionLabel::CleanupHangupCaller => "cleanup-hangup-caller-".to_owned(),
        ActionLabel::CleanupHangupCallee => "cleanup-hangup-callee-".to_owned(),
        ActionLabel::RetryCancel { .. } => "retry-cancel-".to_owned(),
        ActionLabel::RetryLateAnswerHangup { .. } => "retry-late-answer-hangup-".to_owned(),
        ActionLabel::RetryCleanupHangup { .. } => "retry-cleanup-hangup-".to_owned(),
        ActionLabel::RejectRouteBudget => "reject-route-budget-".to_owned(),
        ActionLabel::RejectAttemptMedia => "reject-attempt_media_failed-".to_owned(),
        ActionLabel::RejectAttemptOverload => "reject-attempt_registration_overload-".to_owned(),
        ActionLabel::RejectAttemptRegistration => "reject-attempt_registration_failed-".to_owned(),
        ActionLabel::RejectActionFailure => "reject-action-failure-".to_owned(),
        ActionLabel::MediaFailureCallee => "media-failure-callee-".to_owned(),
        ActionLabel::MediaFailureCaller => "media-failure-caller-".to_owned(),
        ActionLabel::DtmfInfo { .. } => "dtmf-info-".to_owned(),
    };
    let suffix: String = match label {
        ActionLabel::Originate { attempt } => attempt_suffix(attempt),
        ActionLabel::RetryCancel { attempt } => attempt_suffix(attempt),
        ActionLabel::RetryLateAnswerHangup { attempt } => attempt_suffix(attempt),
        ActionLabel::RetryCleanupHangup { attempt } => attempt_suffix(attempt),
        ActionLabel::Provisional { status } => join2("-", decimal_text(status as u64).as_str()),
        ActionLabel::DtmfInfo { dialog_generation, cseq } => join4(
            "-",
            decimal_text(dialog_generation).as_str(),
            "-",
            decimal_text(cseq as u64).as_str(),
        ),
        _ => String::new(),
    };
    join3(prefix.as_str(), call_id, suffix.as_str())
}

fn attempt_suffix(attempt: u16) -> (suffix: String)
    ensures
        suffix@ == "-attempt-"@ + decimal(attempt as nat),
{
    join2("-attempt-", decimal_text(attempt as u64).as_str())
}

/// An action of one purpose has a different name in every call.
pub proof fn lemma_action_names_tell_calls_apart(label: ActionLabel, a: Seq<char>, b: Seq<char>)
    requires
        action_name(label, a) == action_name(label, b),
    ensures
        a == b,
{
    let p = label_prefix(label).len() as int;
    let left = action_name(label, a);
    let right = action_name(label, b);
    assert(left.len() == p + a.len() + label_suffix(label).len());
    assert(right.len() == p + b.len() + label_suffix(label).len());
    assert(left.subrange(p, p + a.len()) =~= a);
    assert(right.subrange(p, p + a.len()) =~= b);
}

/// The attempts of a call to reach the callee have actions of different names.
pub proof fn lemma_originate_names_tell_attempts_apart(call_id: Seq<char>, a: u16, b: u16)
    requires
        action_name(ActionLabel::Originate { attempt: a }, call_id) == action_name(
            ActionLabel::Originate { attempt: b },
            call_id,
        ),
    ensures
        a == b,
{
    let p = ("originate-"@.len() + call_id.len() + "-attempt-"@.len()) as int;
    let left = action_name(ActionLabel::Originate { attempt: a }, call_id);
    let right = action_name(ActionLabel::Originate { attempt: b }, call_id);
    assert(left.skip(p) =~= decimal(a as nat));
    assert(right.skip(p) =~= decimal(b as nat));
    crate::text::lemma_decimal_injective(a as nat, b as nat);
}

/// The command that carries an action. A call is originated in one way to an
/// endpoint and in another to a trunk.
pub open spec fn command_name(kind: ActionKind, target: OutboundTarget) -> Seq<char> {
    match kind {
        ActionKind::AdoptInboundInvite => "AdoptInboundInvite"@,
        ActionKind::Originate => match target {
            OutboundTarget::Endpoint { .. } => "OriginateEndpoint"@,
            OutboundTarget::Trunk { .. } => "OriginateTrunk"@,
        },
        ActionKind::ForwardProvisional => "ForwardProvisional"@,
        ActionKind::AnswerInboundInvite => "AnswerInboundInvite"@,
        ActionKind::RejectInboundInvite => "RejectInboundInvite"@,
        ActionKind::CancelOutbound => "CancelOutbound"@,
        ActionKind::HangupDialog => "HangupDialog"@,
        ActionKind::SendDtmfInfo => "SendDtmfInfo"@,
    }
}

pub fn action_command(kind: ActionKind, target: &OutboundTarget) -> (command: String)
    ensures
        command@ == command_name(kind, *target),
{
    match kind {
        ActionKind::AdoptInboundInvite => "AdoptInboundInvite".to_owned(),
        ActionKind::Originate => match target {
            OutboundTarget::Endpoint { .. } => "OriginateEndpoint".to_owned(),
            OutboundTarget::Trunk { .. } => "OriginateTrunk".to_owned(),
        },
        ActionKind::ForwardProvisional => "ForwardProvisional".to_owned(),
        ActionKind::AnswerInboundInvite => "AnswerInboundInvite".to_owned(),
        ActionKind::RejectInboundInvite => "RejectInboundInvite".to_owned(),
        ActionKind::CancelOutbound => "CancelOutbound".to_owned(),
        ActionKind::HangupDialog => "HangupDialog".to_owned(),
        ActionKind::SendDtmfInfo => "SendDtmfInfo".to_owned(),
    }
}

/// The request that submits an action.
pub fn action_request_id(action_kind: &str, action_id: &str, now_ms: u64) -> (id: String)
    ensures
        id@ == "call-action-"@ + action_kind@ + "-"@ + action_id@ + "-"@ + decimal(now_ms as nat),
{
    let front = join4("call-action-", action_kind, "-", action_id);
    join3(front.as_str(), "-", decimal_text(now_ms).as_str())
}

/// Which action of which session a command belongs to.
#[derive(Debug, Clone)]
pub struct ActionIdentity {
    pub call_id: String,
    pub session_id: String,
    pub action_kind: String,
    pub action_id: String,
    pub generation: u64,
}

/// What is written into a field of a JSON object.
#[derive(Debug, Clone)]
pub enum FieldValue {
    Text(String),
    Number(u64),
    Null,
    EmptyObject,
}

/// What a field of a JSON object holds, as far as it is one of these.
pub enum JsonField {
    Text(Seq<char>),
    Number(u64),
    Null,
    EmptyObject,
    Other,
}

impl FieldValue {
    pub open spec fn view(&self) -> JsonField {
        match self {
            FieldValue::Text(text) => JsonField::Text(text@),
            FieldValue::Number(number) => JsonField::Number(*number),
            FieldValue::Null => JsonField::Null,
            FieldValue::EmptyObject => JsonField::EmptyObject,
        }
    }
}

/// The fields of a JSON object.
pub uninterp spec fn json_fields(body: serde_json::Map<String, serde_json::Value>) -> Map<
    Seq<char>,
    JsonField,
>;

/// `serde_json::Map::insert`: afterwards the field holds the value, whatever it held
/// before, and the other fields are as they were.
#[verifier::external_body]
pub(crate) fn set_field(
    body: &mut serde_json::Map<String, serde_json::Value>,
    key: &str,
    value: FieldValue,
)
    ensures
        json_fields(*final(body)) == json_fields(*old(body)).insert(key@, value@),
{
    let value = match value {
        FieldValue::Text(text) => serde_json::Value::from(text),
        FieldValue::Number(number) => serde_json::Value::from(number),
        FieldValue::Null => serde_json::Value::Null,
        FieldValue::EmptyObject => serde_json::Value::Object(serde_json::Map::new()),
    };
    body.insert(key.to_owned(), value);
}

pub(crate) fn set_text(
    body: &mut serde_json::Map<String, serde_json::Value>,
    key: &str,
    value: &str,
)
    ensures
        json_fields(*final(body)) == json_fields(*old(body)).insert(
            key@,
            JsonField::Text(value@),
        ),
{
    set_field(body, key, FieldValue::Text(value.to_owned()));
}

pub(crate) fn set_number(
    body: &mut serde_json::Map<String, serde_json::Value>,
    key: &str,
    value: u64,
)
    ensures
        json_fields(*final(body)) == json_fields(*old(body)).insert(key@, JsonField::Number(value)),
{
    set_field(body, key, FieldValue::Number(value));
}

/// The fields of a body that carries the identity of its action.
pub open spec fn identified(fields: Map<Seq<char>, JsonField>, identity: ActionIdentity) -> Map<
    Seq<char>,
    JsonField,
> {
    fields.insert("call_id"@, JsonField::Text(identity.call_id@)).insert(
        "session_id"@,
        JsonField::Text(identity.session_id@),
    ).insert("action_id"@, JsonField::Text(identity.action_id@)).insert(
        "generation"@,
        JsonField::Number(identity.generation),
    )
}

/// Writes the identity of an action into its body, over whatever stood there.
pub fn insert_identity(
    body: &mut serde_json::Map<String, serde_json::Value>,
    identity: &ActionIdentity,
)
    ensures
        json_fields(*final(body)) == identified(json_fields(*old(body)), *identity),
{
    set_text(body, "call_id", identity.call_id.as_str());
    set_text(body, "session_id", identity.session_id.as_str());
    set_text(body, "action_id", identity.action_id.as_str());
    set_number(body, "generation", identity.generation);
}

/// Whatever a body held, the identity of its action wins, and the other fields
/// stay.
pub proof fn lemma_identity_overrides_body(
    fields: Map<Seq<char>, JsonField>,
    identity: ActionIdentity,
    key: Seq<char>,
)
    ensures
        identified(fields, identity)["call_id"@] == JsonField::Text(identity.call_id@),
        identified(fields, identity)["session_id"@] == JsonField::Text(identity.session_id@),
        identified(fields, identity)["action_id"@] == JsonField::Text(identity.action_id@),
        identified(fields, identity)["generation"@] == JsonField::Number(identity.generation),
        key != "call_id"@ && key != "session_id"@ && key != "action_id"@ && key != "generation"@
            ==> identified(fields, identity).contains_key(key) == fields.contains_key(key)
            && identified(fields, identity)[key] == fields[key],
{
    reveal_strlit("call_id");
    reveal_strlit("session_id");
    reveal_strlit("action_id");
    reveal_strlit("generation");
    assert("call_id"@.len() == 7 && "session_id"@.len() == 10 && "action_id"@.len() == 9
        && "generation"@.len() == 10);
    assert("session_id"@[0] != "generation"@[0]);
}

/// How the refusal of an invite is named.
pub fn reject_action_id(adapter_call_leg_id: &str) -> (id: String)
    ensures
        id@ == "reject-"@ + adapter_call_leg_id@,
{
    join2("reject-", adapter_call_leg_id)
}

} // verus!
