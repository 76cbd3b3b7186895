//! The records of a call that is over: one for the call, one for each leg, and one
//! for its recording.

use crate::fast_path_runtime::MediaForwardingMode;
use crate::media::MediaStatsSnapshot;
use crate::recording::{concluded, counted, describes, located, unstarted_record, RecordingRecord};
use crate::text::{after_prefix, chars_of, copy_opt, opt_text, same_text, strip_prefix};
use vstd::prelude::*;

verus! {

/// What is known of a call when it ends.
#[derive(Debug, Clone)]
pub struct CallFacts {
    pub call_id: String,
    pub domain_id: String,
    pub caller_number: String,
    pub callee_number: String,
    pub callee_target: String,
    pub inbound_route_id: Option<String>,
    pub inbound_route_name: Option<String>,
    pub inbound_trunk_ref: Option<String>,
    pub inbound_trunk_name: Option<String>,
    pub outbound_route_id: Option<String>,
    pub outbound_route_name: Option<String>,
    pub outbound_trunk_ref: Option<String>,
    pub outbound_trunk_name: Option<String>,
    pub started_at_ms: u64,
    pub answered_at_ms: Option<u64>,
    pub last_status: Option<u16>,
    pub hangup_cause: Option<String>,
    pub recording_requested: bool,
    pub recording_start_error: Option<String>,
    pub caller_session_id: String,
    pub callee_session_id: String,
}

/// What the records are made of.
pub struct FinalCallSnapshot {
    pub facts: CallFacts,
    pub answered: bool,
    pub callee_endpoint_ref: Option<String>,
    pub callee_endpoint_number: Option<String>,
}

/// The endpoint that a target names.
pub open spec fn endpoint_named(target: Seq<char>) -> Option<Seq<char>> {
    after_prefix(target, "endpoint:"@)
}

impl FinalCallSnapshot {
    /// The callee is an endpoint of its own or a trunk, never both.
    pub fn from_facts(facts: CallFacts) -> (snapshot: FinalCallSnapshot)
        ensures
            snapshot.facts == facts,
            snapshot.answered == (facts.answered_at_ms is Some),
            match facts.outbound_trunk_ref {
                Some(trunk) => snapshot.callee_endpoint_ref == Some(trunk)
                    && snapshot.callee_endpoint_number is None,
                None => opt_text(snapshot.callee_endpoint_ref) == endpoint_named(
                    facts.callee_target@,
                ) && snapshot.callee_endpoint_number == Some(facts.callee_number),
            },
    {
        let answered = facts.answered_at_ms.is_some();
        let (callee_endpoint_ref, callee_endpoint_number) = match &facts.outbound_trunk_ref {
            Some(trunk) => (Some(trunk.clone()), None),
            None => (
                strip_prefix(facts.callee_target.as_str(), "endpoint:"),
                Some(facts.callee_number.clone()),
            ),
        };
        FinalCallSnapshot { facts, answered, callee_endpoint_ref, callee_endpoint_number }
    }
}

/// Why a call ended, where nothing else was said.
pub open spec fn cause_text(cause: Option<String>, answered: bool) -> Seq<char> {
    match cause {
        Some(text) => text@,
        None => if answered {
            "normal_clearing"@
        } else {
            "not_answered"@
        },
    }
}

fn cause_or_default(cause: &Option<String>, answered: bool) -> (text: String)
    ensures
        text@ == cause_text(*cause, answered),
{
    match cause {
        Some(text) => text.clone(),
        None => if answered {
            "normal_clearing".to_owned()
        } else {
            "not_answered".to_owned()
        },
    }
}

/// The record of one leg.
#[derive(Debug, Clone)]
pub struct LegCdrRecord {
    pub call_id: String,
    pub session_id: String,
    pub domain_id: String,
    pub leg_role: String,
    pub direction: String,
    pub endpoint_ref: Option<String>,
    pub endpoint_number: Option<String>,
    pub signaling_number: Option<String>,
    pub route_id: Option<String>,
    pub route_name: Option<String>,
    pub trunk_ref: Option<String>,
    pub trunk_name: Option<String>,
    pub joined_at_ms: u64,
    pub answered_at_ms: Option<u64>,
    pub left_at_ms: u64,
    pub final_status: Option<u16>,
    pub hangup_cause: Option<String>,
    pub media_packets: u64,
    pub media_bytes: u64,
    pub media_rtcp_packets: u64,
    pub bridge_ids: String,
}

/// Whether the counts of both directions can be added up.
pub open spec fn stats_fit(stats: MediaStatsSnapshot) -> bool {
    &&& stats.caller_to_callee_packets + stats.callee_to_caller_packets <= u64::MAX
    &&& stats.caller_to_callee_bytes + stats.callee_to_caller_bytes <= u64::MAX
    &&& stats.caller_to_callee_rtcp_packets + stats.callee_to_caller_rtcp_packets <= u64::MAX
}

/// What both leg records say: of the call, of its end and of all its media.
pub open spec fn leg_of_call(
    leg: LegCdrRecord,
    call: FinalCallSnapshot,
    stats: MediaStatsSnapshot,
    ended_at_ms: u64,
) -> bool {
    &&& leg.call_id == call.facts.call_id
    &&& leg.domain_id == call.facts.domain_id
    &&& leg.joined_at_ms == call.facts.started_at_ms
    &&& leg.answered_at_ms == call.facts.answered_at_ms
    &&& leg.left_at_ms == ended_at_ms
    &&& leg.final_status == call.facts.last_status
    &&& opt_text(leg.hangup_cause) == Some(cause_text(call.facts.hangup_cause, call.answered))
    &&& leg.media_packets == stats.caller_to_callee_packets + stats.callee_to_caller_packets
    &&& leg.media_bytes == stats.caller_to_callee_bytes + stats.callee_to_caller_bytes
    &&& leg.media_rtcp_packets == stats.caller_to_callee_rtcp_packets
        + stats.callee_to_caller_rtcp_packets
}

/// What the caller's record says of its own leg.
pub open spec fn is_caller_leg(leg: LegCdrRecord, call: FinalCallSnapshot) -> bool {
    &&& leg.leg_role@ == "caller"@
    &&& leg.direction@ == "inbound"@
    &&& leg.session_id == call.facts.caller_session_id
    &&& leg.bridge_ids == call.facts.callee_session_id
    &&& leg.endpoint_ref == call.facts.inbound_trunk_ref
    &&& leg.endpoint_number == Some(call.facts.caller_number)
    &&& leg.signaling_number == Some(call.facts.caller_number)
    &&& leg.route_id == call.facts.inbound_route_id
    &&& leg.route_name == call.facts.inbound_route_name
    &&& leg.trunk_ref == call.facts.inbound_trunk_ref
    &&& leg.trunk_name == call.facts.inbound_trunk_name
}

/// What the callee's record says of its own leg.
pub open spec fn is_callee_leg(leg: LegCdrRecord, call: FinalCallSnapshot) -> bool {
    &&& leg.leg_role@ == "callee"@
    &&& leg.direction@ == "outbound"@
    &&& leg.session_id == call.facts.callee_session_id
    &&& leg.bridge_ids == call.facts.caller_session_id
    &&& leg.endpoint_ref == call.callee_endpoint_ref
    &&& leg.endpoint_number == call.callee_endpoint_number
    &&& leg.signaling_number == Some(call.facts.callee_number)
    &&& leg.route_id == call.facts.outbound_route_id
    &&& leg.route_name == call.facts.outbound_route_name
    &&& leg.trunk_ref == call.facts.outbound_trunk_ref
    &&& leg.trunk_name == call.facts.outbound_trunk_name
}

/// The records of both legs, the caller's first.
pub fn build_leg_cdrs(call: &FinalCallSnapshot, stats: &MediaStatsSnapshot, ended_at_ms: u64) -> (legs:
    Vec<LegCdrRecord>)
    requires
        stats_fit(*stats),
    ensures
        legs@.len() == 2,
        leg_of_call(legs@[0], *call, *stats, ended_at_ms),
        leg_of_call(legs@[1], *call, *stats, ended_at_ms),
        is_caller_leg(legs@[0], *call),
        is_callee_leg(legs@[1], *call),
{
    let facts = &call.facts;
    let media_packets: u64 = stats.caller_to_callee_packets + stats.callee_to_caller_packets;
    let media_bytes: u64 = stats.caller_to_callee_bytes + stats.callee_to_caller_bytes;
    let media_rtcp_packets: u64 = stats.caller_to_callee_rtcp_packets
        + stats.callee_to_caller_rtcp_packets;
    let caller_leg = LegCdrRecord {
        call_id: facts.call_id.clone(),
        session_id: facts.caller_session_id.clone(),
        domain_id: facts.domain_id.clone(),
        leg_role: "caller".to_owned(),
        direction: "inbound".to_owned(),
        endpoint_ref: copy_opt(&facts.inbound_trunk_ref),
        endpoint_number: Some(facts.caller_number.clone()),
        signaling_number: Some(facts.caller_number.clone()),
        route_id: copy_opt(&facts.inbound_route_id),
        route_name: copy_opt(&facts.inbound_route_name),
        trunk_ref: copy_opt(&facts.inbound_trunk_ref),
        trunk_name: copy_opt(&facts.inbound_trunk_name),
        joined_at_ms: facts.started_at_ms,
        answered_at_ms: facts.answered_at_ms,
        left_at_ms: ended_at_ms,
        final_status: facts.last_status,
        hangup_cause: Some(cause_or_default(&facts.hangup_cause, call.answered)),
        media_packets,
        media_bytes,
        media_rtcp_packets,
        bridge_ids: facts.callee_session_id.clone(),
    };
    let callee_leg = LegCdrRecord {
        call_id: facts.call_id.clone(),
        session_id: facts.callee_session_id.clone(),
        domain_id: facts.domain_id.clone(),
        leg_role: "callee".to_owned(),
        direction: "outbound".to_owned(),
        endpoint_ref: copy_opt(&call.callee_endpoint_ref),
        endpoint_number: copy_opt(&call.callee_endpoint_number),
        signaling_number: Some(facts.callee_number.clone()),
        route_id: copy_opt(&facts.outbound_route_id),
        route_name: copy_opt(&facts.outbound_route_name),
        trunk_ref: copy_opt(&facts.outbound_trunk_ref),
        trunk_name: copy_opt(&facts.outbound_trunk_name),
        joined_at_ms: facts.started_at_ms,
        answered_at_ms: facts.answered_at_ms,
        left_at_ms: ended_at_ms,
        final_status: facts.last_status,
        hangup_cause: Some(cause_or_default(&facts.hangup_cause, call.answered)),
        media_packets,
        media_bytes,
        media_rtcp_packets,
        bridge_ids: facts.caller_session_id.clone(),
    };
    let mut legs: Vec<LegCdrRecord> = Vec::new();
    legs.push(caller_leg);
    legs.push(callee_leg);
    legs
}

/// The record of a recording that was asked for and came to nothing.
pub fn failed_recording_for_call(call: &FinalCallSnapshot, ended_at_ms: u64, message: &str) -> (record:
    RecordingRecord)
    ensures
        recording_failed(record, *call, ended_at_ms, message@),
{
    let started_at_ms: u64 = match call.facts.answered_at_ms {
        Some(at) => at,
        None => call.facts.started_at_ms,
    };
    unstarted_record(
        call.facts.call_id.as_str(),
        call.facts.domain_id.as_str(),
        call.facts.caller_number.as_str(),
        call.facts.callee_number.as_str(),
        started_at_ms,
        ended_at_ms,
        message,
    )
}

/// The record of a recording that was asked for and came to nothing, for a reason.
pub open spec fn recording_failed(
    record: RecordingRecord,
    call: FinalCallSnapshot,
    ended_at_ms: u64,
    message: Seq<char>,
) -> bool {
    &&& describes(
        record,
        call.facts.call_id@,
        call.facts.domain_id@,
        call.facts.caller_number@,
        call.facts.callee_number@,
        match call.facts.answered_at_ms {
            Some(at) => at,
            None => call.facts.started_at_ms,
        },
    )
    &&& located(record, Seq::empty(), Seq::empty(), Seq::empty(), 0)
    &&& counted(record, 0, 0)
    &&& concluded(
        record,
        "failed"@,
        Some(ended_at_ms),
        0,
        Some("recording_start_failed"@),
        Some(message),
    )
}

/// The record of the recording: what the recorder made, or a failure where a
/// recording of an answered call was asked for and none was made.
pub open spec fn recording_settled(
    record: Option<RecordingRecord>,
    call: FinalCallSnapshot,
    made: Option<RecordingRecord>,
    ended_at_ms: u64,
) -> bool {
    match made {
        Some(_) => record == made,
        None => if call.answered && call.facts.recording_requested {
            record matches Some(failed) && recording_failed(
                failed,
                call,
                ended_at_ms,
                match call.facts.recording_start_error {
                    Some(error) => error@,
                    None => "recording did not start"@,
                },
            )
        } else {
            record is None
        },
    }
}

pub fn final_recording(
    call: &FinalCallSnapshot,
    made: Option<RecordingRecord>,
    ended_at_ms: u64,
) -> (record: Option<RecordingRecord>)
    ensures
        recording_settled(record, *call, made, ended_at_ms),
{
    match made {
        Some(made) => Some(made),
        None => {
            if call.answered && call.facts.recording_requested {
                let record = match &call.facts.recording_start_error {
                    Some(error) => failed_recording_for_call(call, ended_at_ms, error.as_str()),
                    None => failed_recording_for_call(
                        call,
                        ended_at_ms,
                        "recording did not start",
                    ),
                };
                Some(record)
            } else {
                None
            }
        },
    }
}

/// The record of a call.
#[derive(Debug, Clone)]
pub struct CdrRecord {
    pub call_id: String,
    pub domain_id: String,
    pub caller_number: String,
    pub callee_number: String,
    pub inbound_route_id: Option<String>,
    pub inbound_route_name: Option<String>,
    pub inbound_trunk_ref: Option<String>,
    pub inbound_trunk_name: Option<String>,
    pub outbound_route_id: Option<String>,
    pub outbound_route_name: Option<String>,
    pub outbound_trunk_ref: Option<String>,
    pub outbound_trunk_name: Option<String>,
    pub started_at_ms: u64,
    pub answered_at_ms: Option<u64>,
    pub ended_at_ms: u64,
    pub duration_ms: u64,
    pub billable_ms: u64,
    pub answered: bool,
    pub final_status: Option<u16>,
    pub hangup_cause: String,
    pub media_forwarding_mode: Option<MediaForwardingMode>,
    pub caller_to_callee_packets: u64,
    pub caller_to_callee_bytes: u64,
    pub callee_to_caller_packets: u64,
    pub callee_to_caller_bytes: u64,
    pub caller_to_callee_rtcp_packets: u64,
    pub callee_to_caller_rtcp_packets: u64,
    pub trace_available: bool,
    pub trace_incomplete: bool,
    pub incomplete: bool,
    pub incomplete_reason: Option<String>,
    pub recording_status: Option<String>,
    pub recording_available: bool,
}

/// The time between two moments, none where they are out of order.
pub open spec fn elapsed(from: u64, to: u64) -> u64 {
    if to >= from {
        (to - from) as u64
    } else {
        0
    }
}

/// Whether a recording can be listened to.
pub open spec fn playable(recording: Option<RecordingRecord>) -> bool {
    match recording {
        Some(record) => (record.status@ == "complete"@ || record.status@ == "incomplete"@)
            && record.storage_path@.len() > 0,
        None => false,
    }
}

/// What a record says of the times and the end of a call.
pub open spec fn cdr_ends(
    record: CdrRecord,
    call: FinalCallSnapshot,
    mode: Option<MediaForwardingMode>,
    ended_at_ms: u64,
    trace_available: bool,
    recording: Option<RecordingRecord>,
) -> bool {
    &&& record.started_at_ms == call.facts.started_at_ms
    &&& record.answered_at_ms == call.facts.answered_at_ms
    &&& record.ended_at_ms == ended_at_ms
    &&& record.duration_ms == elapsed(call.facts.started_at_ms, ended_at_ms)
    &&& record.billable_ms == (match call.facts.answered_at_ms {
        Some(at) => elapsed(at, ended_at_ms),
        None => 0,
    })
    &&& record.answered == call.answered
    &&& record.final_status == call.facts.last_status
    &&& record.hangup_cause@ == cause_text(call.facts.hangup_cause, call.answered)
    &&& record.media_forwarding_mode == mode
    &&& record.trace_available == trace_available
    &&& !record.trace_incomplete
    &&& !record.incomplete
    &&& record.incomplete_reason is None
    &&& opt_text(record.recording_status) == (match recording {
        Some(made) => Some(made.status@),
        None => None,
    })
    &&& record.recording_available == playable(recording)
}

/// What a record says of the two sides of a call.
pub open spec fn cdr_identifies(record: CdrRecord, facts: CallFacts) -> bool {
    &&& record.call_id == facts.call_id
    &&& record.domain_id == facts.domain_id
    &&& record.caller_number == facts.caller_number
    &&& record.callee_number == facts.callee_number
    &&& record.inbound_route_id == facts.inbound_route_id
    &&& record.inbound_route_name == facts.inbound_route_name
    &&& record.inbound_trunk_ref == facts.inbound_trunk_ref
    &&& record.inbound_trunk_name == facts.inbound_trunk_name
    &&& record.outbound_route_id == facts.outbound_route_id
    &&& record.outbound_route_name == facts.outbound_route_name
    &&& record.outbound_trunk_ref == facts.outbound_trunk_ref
    &&& record.outbound_trunk_name == facts.outbound_trunk_name
}

pub open spec fn cdr_counts(record: CdrRecord, stats: MediaStatsSnapshot) -> bool {
    &&& record.caller_to_callee_packets == stats.caller_to_callee_packets
    &&& record.caller_to_callee_bytes == stats.caller_to_callee_bytes
    &&& record.callee_to_caller_packets == stats.callee_to_caller_packets
    &&& record.callee_to_caller_bytes == stats.callee_to_caller_bytes
    &&& record.caller_to_callee_rtcp_packets == stats.caller_to_callee_rtcp_packets
    &&& record.callee_to_caller_rtcp_packets == stats.callee_to_caller_rtcp_packets
}

/// The record of a call that is over.
pub fn build_cdr(
    call: &FinalCallSnapshot,
    stats: &MediaStatsSnapshot,
    mode: Option<MediaForwardingMode>,
    ended_at_ms: u64,
    trace_available: bool,
    recording: &Option<RecordingRecord>,
) -> (record: CdrRecord)
    ensures
        cdr_identifies(record, call.facts),
        cdr_ends(record, *call, mode, ended_at_ms, trace_available, *recording),
        cdr_counts(record, *stats),
{
    let facts = &call.facts;
    let billable_ms: u64 = match facts.answered_at_ms {
        Some(at) => ended_at_ms.saturating_sub(at),
        None => 0,
    };
    let (recording_status, recording_available) = match recording {
        Some(made) => (
            Some(made.status.clone()),
            (same_text(made.status.as_str(), "complete") || same_text(
                made.status.as_str(),
                "incomplete",
            )) && chars_of(made.storage_path.as_str()).len() > 0,
        ),
        None => (None, false),
    };
    CdrRecord {
        call_id: facts.call_id.clone(),
        domain_id: facts.domain_id.clone(),
        caller_number: facts.caller_number.clone(),
        callee_number: facts.callee_number.clone(),
        inbound_route_id: copy_opt(&facts.inbound_route_id),
        inbound_route_name: copy_opt(&facts.inbound_route_name),
        inbound_trunk_ref: copy_opt(&facts.inbound_trunk_ref),
        inbound_trunk_name: copy_opt(&facts.inbound_trunk_name),
        outbound_route_id: copy_opt(&facts.outbound_route_id),
        outbound_route_name: copy_opt(&facts.outbound_route_name),
        outbound_trunk_ref: copy_opt(&facts.outbound_trunk_ref),
        outbound_trunk_name: copy_opt(&facts.outbound_trunk_name),
        started_at_ms: facts.started_at_ms,
        answered_at_ms: facts.answered_at_ms,
        ended_at_ms,
        duration_ms: ended_at_ms.saturating_sub(facts.started_at_ms),
        billable_ms,
        answered: call.answered,
        final_status: facts.last_status,
        hangup_cause: cause_or_default(&facts.hangup_cause, call.answered),
        media_forwarding_mode: mode,
        caller_to_callee_packets: stats.caller_to_callee_packets,
        caller_to_callee_bytes: stats.caller_to_callee_bytes,
        callee_to_caller_packets: stats.callee_to_caller_packets,
        callee_to_caller_bytes: stats.callee_to_caller_bytes,
        caller_to_callee_rtcp_packets: stats.caller_to_callee_rtcp_packets,
        callee_to_caller_rtcp_packets: stats.callee_to_caller_rtcp_packets,
        trace_available,
        trace_incomplete: false,
        incomplete: false,
        incomplete_reason: None,
        recording_status,
        recording_available,
    }
}

/// Everything that is written when a call is over.
pub struct CdrWriteCommand {
    pub call_cdr: CdrRecord,
    pub leg_cdrs: Vec<LegCdrRecord>,
    pub recording: Option<RecordingRecord>,
    pub trace_call_id: String,
    pub trace_domain_id: String,
    pub trace_ended_at_ms: u64,
}

/// Puts the records of a call together. `made` is what the recorder made, and `mode`
/// how the media was forwarded, where there was any.
pub fn finalize_call(
    call: &FinalCallSnapshot,
    stats: &MediaStatsSnapshot,
    mode: Option<MediaForwardingMode>,
    made: Option<RecordingRecord>,
    ended_at_ms: u64,
    trace_available: bool,
) -> (command: CdrWriteCommand)
    requires
        stats_fit(*stats),
    ensures
        cdr_identifies(command.call_cdr, call.facts),
        cdr_ends(
            command.call_cdr,
            *call,
            mode,
            ended_at_ms,
            trace_available,
            command.recording,
        ),
        cdr_counts(command.call_cdr, *stats),
        command.leg_cdrs@.len() == 2,
        leg_of_call(command.leg_cdrs@[0], *call, *stats, ended_at_ms),
        leg_of_call(command.leg_cdrs@[1], *call, *stats, ended_at_ms),
        is_caller_leg(command.leg_cdrs@[0], *call),
        is_callee_leg(command.leg_cdrs@[1], *call),
        recording_settled(command.recording, *call, made, ended_at_ms),
        command.trace_call_id == call.facts.call_id,
        command.trace_domain_id == call.facts.domain_id,
        command.trace_ended_at_ms == ended_at_ms,
{
    let recording = final_recording(call, made, ended_at_ms);
    let call_cdr = build_cdr(call, stats, mode, ended_at_ms, trace_available, &recording);
    let leg_cdrs = build_leg_cdrs(call, stats, ended_at_ms);
    CdrWriteCommand {
        call_cdr,
        leg_cdrs,
        recording,
        trace_call_id: call.facts.call_id.clone(),
        trace_domain_id: call.facts.domain_id.clone(),
        trace_ended_at_ms: ended_at_ms,
    }
}

/// A call that was never answered is never billed, and no call is billed for longer
/// than it lasted, where it was answered after it began.
pub proof fn lemma_billing_stays_within_the_call(
    record: CdrRecord,
    call: FinalCallSnapshot,
    mode: Option<MediaForwardingMode>,
    ended_at_ms: u64,
    trace_available: bool,
    recording: Option<RecordingRecord>,
)
    requires
        cdr_ends(record, call, mode, ended_at_ms, trace_available, recording),
        call.facts.answered_at_ms matches Some(at) ==> call.facts.started_at_ms <= at,
    ensures
        call.facts.answered_at_ms is None ==> record.billable_ms == 0,
        record.billable_ms <= record.duration_ms,
{
}

} // verus!
