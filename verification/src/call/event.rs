//! What comes in from the adapter about a call: offers, leg events, digits and
//! the answers to actions.

use crate::call::action::ActionIdentity;
use crate::call::dtmf::{DigitEvent, DtmfEventId, DtmfSourceGeneration, DtmfTransport};
use crate::call::model::{SdpBody, TransportAddress};
use crate::dtmf::DtmfDigit;
use crate::json::{read_text, read_text_within, text_under, text_within};
use crate::text::{opt_text, same_text};
use vstd::prelude::*;

verus! {

/// Where a call comes from.
#[derive(Debug, Clone)]
pub enum InboundInviteSource {
    Endpoint { endpoint_id: String },
    Trunk { trunk_ref: String },
}

/// A new call that the adapter offers.
#[derive(Debug, Clone)]
pub struct InboundInviteOffered {
    pub domain_id: String,
    pub adapter_call_leg_id: String,
    pub caller_number: String,
    pub callee_number: String,
    pub origin: Option<InboundInviteSource>,
    pub route_target: Option<TransportAddress>,
    pub sdp_offer: SdpBody,
}

/// Something that happened on a leg of a call.
#[derive(Debug, Clone)]
pub struct CallLegEvent {
    pub call_id: Option<String>,
    pub session_id: Option<String>,
    pub adapter_call_leg_id: String,
    pub leg_event_seq: u64,
    pub status_code: Option<u16>,
    pub sdp: Option<SdpBody>,
    pub reason: Option<i64>,
}

impl CallLegEvent {
    pub fn leg_event_seq(&self) -> (seq: u64)
        ensures
            seq == self.leg_event_seq,
    {
        self.leg_event_seq
    }
}

/// A digit that came in a SIP INFO request.
#[derive(Debug, Clone)]
pub struct SipDtmfReceived {
    pub domain_id: String,
    pub call_id: String,
    pub session_id: String,
    pub adapter_call_leg_id: String,
    pub leg_event_seq: u64,
    pub dialog_generation: u64,
    pub cseq: u32,
    pub digit: DtmfDigit,
    pub duration_ms: u32,
    pub content_mode: DtmfTransport,
    pub observed_at_ms: u64,
}

impl SipDtmfReceived {
    /// The digit event, where the digit came in a body that SIP INFO can have.
    pub fn into_digit_event(self) -> (event: Option<DigitEvent>)
        ensures
            event is Some <==> self.content_mode is SipInfoRelay || self.content_mode
                is SipInfoDtmf,
            event matches Some(e) ==> {
                &&& e.event_id == DtmfEventId::SipInfo {
                    dialog_generation: self.dialog_generation,
                    source_session_id: self.session_id,
                    cseq: self.cseq,
                }
                &&& e.domain_id == self.domain_id
                &&& e.call_id == self.call_id
                &&& e.source_session_id == self.session_id
                &&& e.source_media_leg_id is None
                &&& e.digit == self.digit
                &&& e.transport == self.content_mode
                &&& e.duration_ms == self.duration_ms
                &&& e.observed_at_ms == self.observed_at_ms
                &&& e.source_generation == DtmfSourceGeneration::Dialog(self.dialog_generation)
                &&& !e.incomplete_end
                &&& e.consistent()
            },
    {
        match self.content_mode {
            DtmfTransport::SipInfoRelay | DtmfTransport::SipInfoDtmf => {},
            DtmfTransport::Rfc4733 => return None,
        }
        let source_session_id = self.session_id.clone();
        Some(
            DigitEvent {
                event_id: DtmfEventId::SipInfo {
                    dialog_generation: self.dialog_generation,
                    source_session_id,
                    cseq: self.cseq,
                },
                domain_id: self.domain_id,
                call_id: self.call_id,
                source_session_id: self.session_id,
                source_media_leg_id: None,
                digit: self.digit,
                transport: self.content_mode,
                duration_ms: self.duration_ms,
                observed_at_ms: self.observed_at_ms,
                source_generation: DtmfSourceGeneration::Dialog(self.dialog_generation),
                incomplete_end: false,
            },
        )
    }
}

/// How the sending of a digit in SIP INFO ended.
#[derive(Debug, Clone)]
pub struct DtmfInfoSendResult {
    pub call_id: String,
    pub session_id: String,
    pub adapter_call_leg_id: String,
    pub action_id: String,
    pub generation: u64,
    pub status_code: Option<u16>,
    pub reason: i64,
    pub succeeded: bool,
}

/// An action that did not reach the adapter.
#[derive(Debug, Clone)]
pub struct ActionDeliveryFailed {
    pub identity: ActionIdentity,
    pub reason: String,
}

#[derive(Debug, Clone, Copy, PartialEq, Eq, Structural)]
pub enum CallActionAckStatus {
    Accepted,
    Rejected,
    Duplicate,
}

/// What the adapter says beside the status of an action.
#[derive(Debug, Clone)]
pub struct AckResult {
    pub original_status: Option<String>,
    pub message: Option<String>,
    pub adapter_call_leg_id: Option<String>,
}

impl AckResult {
    /// Reads what stands beside the status. What is not there, or no text, counts as
    /// not said.
    pub fn read(result: &serde_json::Value) -> (ack: Self)
        ensures
            opt_text(ack.original_status) == text_under(*result, "original_status"@),
            opt_text(ack.message) == text_under(*result, "message"@),
            opt_text(ack.adapter_call_leg_id) == text_within(
                *result,
                "data"@,
                "adapter_call_leg_id"@,
            ),
    {
        AckResult {
            original_status: read_text(result, "original_status"),
            message: read_text(result, "message"),
            adapter_call_leg_id: read_text_within(result, "data", "adapter_call_leg_id"),
        }
    }
}

/// The adapter's answer to an action.
#[derive(Debug, Clone)]
pub struct CallActionAck {
    pub call_id: String,
    pub session_id: String,
    pub action_kind: String,
    pub action_id: String,
    pub generation: u64,
    pub status: CallActionAckStatus,
    pub result: AckResult,
}

impl CallActionAck {
    pub open spec fn names(self) -> ActionIdentity {
        ActionIdentity {
            call_id: self.call_id,
            session_id: self.session_id,
            action_kind: self.action_kind,
            action_id: self.action_id,
            generation: self.generation,
        }
    }

    pub fn identity(&self) -> (identity: ActionIdentity)
        ensures
            identity == self.names(),
    {
        ActionIdentity {
            call_id: self.call_id.clone(),
            session_id: self.session_id.clone(),
            action_kind: self.action_kind.clone(),
            action_id: self.action_id.clone(),
            generation: self.generation,
        }
    }

    /// An action that the adapter had already seen counts as it did the first
    /// time.
    pub open spec fn counts_as_accepted(self) -> bool {
        match self.status {
            CallActionAckStatus::Accepted => true,
            CallActionAckStatus::Rejected => false,
            CallActionAckStatus::Duplicate => opt_text(self.result.original_status) == Some(
                "accepted"@,
            ),
        }
    }

    pub fn accepted(&self) -> (accepted: bool)
        ensures
            accepted == self.counts_as_accepted(),
    {
        match self.status {
            CallActionAckStatus::Accepted => true,
            CallActionAckStatus::Rejected => false,
            CallActionAckStatus::Duplicate => match &self.result.original_status {
                Some(status) => same_text(status.as_str(), "accepted"),
                None => false,
            },
        }
    }

    pub fn adapter_call_leg_id(&self) -> (id: Option<&str>)
        ensures
            id is Some <==> self.result.adapter_call_leg_id is Some,
            id matches Some(text) ==> Some(text@) == opt_text(self.result.adapter_call_leg_id),
    {
        match &self.result.adapter_call_leg_id {
            Some(id) => Some(id.as_str()),
            None => None,
        }
    }
}

/// Why no route was found.
#[derive(Debug, Clone)]
pub enum RouteAnalysisFailure {
    Timeout,
    Worker(String),
}

/// Whether a frame of this type is about a leg of a call.
pub open spec fn names_leg_event(frame_type: Seq<char>) -> bool {
    ||| frame_type == "InboundInviteOffered"@
    ||| frame_type == "OutboundProvisional"@
    ||| frame_type == "OutboundAnswered"@
    ||| frame_type == "OutboundFailed"@
    ||| frame_type == "InboundInviteCancelled"@
    ||| frame_type == "DialogDisconnected"@
}

pub fn is_call_leg_event(frame_type: &str) -> (is: bool)
    ensures
        is == names_leg_event(frame_type@),
{
    same_text(frame_type, "InboundInviteOffered") || same_text(frame_type, "OutboundProvisional")
        || same_text(frame_type, "OutboundAnswered") || same_text(frame_type, "OutboundFailed")
        || same_text(frame_type, "InboundInviteCancelled") || same_text(
        frame_type,
        "DialogDisconnected",
    )
}

} // verus!
