//! What holds of the records of a call: what they say of its times, of its end, of
//! its two sides and of its recording.

use crate::call::cdr::{
    cause_text, cdr_counts, cdr_ends, cdr_identifies, elapsed, endpoint_named, is_callee_leg,
    is_caller_leg, leg_of_call, recording_failed, recording_settled, CallFacts, CdrRecord,
    FinalCallSnapshot, LegCdrRecord,
};
use crate::fast_path_runtime::MediaForwardingMode;
use crate::media::MediaStatsSnapshot;
use crate::recording::RecordingRecord;
use vstd::prelude::*;

verus! {

/// A recording that was finished whole and stored at a path is available in the
/// record of its call, as is an incomplete one; a failed one, or one without a
/// path, is not, and without a recording there is nothing to listen to.
pub proof fn lemma_stored_recording_is_available(
    record: CdrRecord,
    call: FinalCallSnapshot,
    mode: Option<MediaForwardingMode>,
    ended_at_ms: u64,
    trace_available: bool,
    recording: Option<RecordingRecord>,
)
    requires
        cdr_ends(record, call, mode, ended_at_ms, trace_available, recording),
    ensures
        recording matches Some(made) ==> {
            &&& made.status@ == "complete"@ && made.storage_path@.len() > 0
                ==> record.recording_available
            &&& made.status@ == "incomplete"@ && made.storage_path@.len() > 0
                ==> record.recording_available
            &&& made.storage_path@.len() == 0 ==> !record.recording_available
            &&& made.status@ == "failed"@ ==> !record.recording_available
            &&& made.status@ != "complete"@ && made.status@ != "incomplete"@
                ==> !record.recording_available
            &&& record.recording_status matches Some(status) && status@ == made.status@
        },
        recording is None ==> !record.recording_available && record.recording_status is None,
{
    reveal_strlit("complete");
    reveal_strlit("incomplete");
    reveal_strlit("failed");
    assert("failed"@[0] == 'f');
    assert("complete"@[0] == 'c');
    assert("incomplete"@[0] == 'i');
}

/// A call lasts from its beginning to its end, and is billed from its answer to its
/// end. Times out of order count as none.
pub proof fn lemma_times_of_a_call(
    record: CdrRecord,
    call: FinalCallSnapshot,
    mode: Option<MediaForwardingMode>,
    ended_at_ms: u64,
    trace_available: bool,
    recording: Option<RecordingRecord>,
)
    requires
        cdr_ends(record, call, mode, ended_at_ms, trace_available, recording),
    ensures
        record.ended_at_ms == ended_at_ms,
        record.started_at_ms == call.facts.started_at_ms,
        record.answered_at_ms == call.facts.answered_at_ms,
        call.facts.started_at_ms <= ended_at_ms ==> record.started_at_ms + record.duration_ms
            == record.ended_at_ms,
        call.facts.started_at_ms > ended_at_ms ==> record.duration_ms == 0,
        call.facts.answered_at_ms matches Some(at) ==> (at <= ended_at_ms ==> at
            + record.billable_ms == record.ended_at_ms) && (at > ended_at_ms ==> record.billable_ms
            == 0),
        call.facts.answered_at_ms is None ==> record.billable_ms == 0,
{
}

/// The time between two moments: it leads from the first to the second.
pub proof fn lemma_elapsed_leads_from_one_to_the_other(from: u64, to: u64)
    ensures
        from <= to ==> from + elapsed(from, to) == to,
        to <= from ==> elapsed(from, to) == 0,
{
}

/// A record gives the cause that was found; where none was, an answered call was
/// cleared normally, and any other was not answered.
pub proof fn lemma_cause_of_the_end(
    record: CdrRecord,
    call: FinalCallSnapshot,
    mode: Option<MediaForwardingMode>,
    ended_at_ms: u64,
    trace_available: bool,
    recording: Option<RecordingRecord>,
)
    requires
        cdr_ends(record, call, mode, ended_at_ms, trace_available, recording),
    ensures
        call.facts.hangup_cause matches Some(cause) ==> record.hangup_cause@ == cause@,
        call.facts.hangup_cause is None && call.answered ==> record.hangup_cause@
            == "normal_clearing"@,
        call.facts.hangup_cause is None && !call.answered ==> record.hangup_cause@
            == "not_answered"@,
        record.answered == call.answered,
        record.final_status == call.facts.last_status,
        record.media_forwarding_mode == mode,
        record.trace_available == trace_available,
        !record.trace_incomplete && !record.incomplete && record.incomplete_reason is None,
{
}

/// The two leg records are mirrors: each names the other's session as the one it was
/// joined to, one came in and the other went out, and both say the same of the call,
/// of its end and of its media.
pub proof fn lemma_legs_mirror_each_other(
    caller: LegCdrRecord,
    callee: LegCdrRecord,
    call: FinalCallSnapshot,
    stats: MediaStatsSnapshot,
    ended_at_ms: u64,
)
    requires
        leg_of_call(caller, call, stats, ended_at_ms),
        leg_of_call(callee, call, stats, ended_at_ms),
        is_caller_leg(caller, call),
        is_callee_leg(callee, call),
    ensures
        caller.bridge_ids == callee.session_id,
        callee.bridge_ids == caller.session_id,
        caller.leg_role@ == "caller"@ && caller.direction@ == "inbound"@,
        callee.leg_role@ == "callee"@ && callee.direction@ == "outbound"@,
        caller.call_id == callee.call_id,
        caller.domain_id == callee.domain_id,
        caller.joined_at_ms == callee.joined_at_ms,
        caller.left_at_ms == callee.left_at_ms,
        caller.answered_at_ms == callee.answered_at_ms,
        caller.final_status == callee.final_status,
        caller.media_packets == callee.media_packets,
        caller.media_bytes == callee.media_bytes,
        caller.media_rtcp_packets == callee.media_rtcp_packets,
{
}

/// The caller's record speaks of the way in and the caller's number, the callee's of
/// the way out and the callee's number.
pub proof fn lemma_legs_name_their_own_side(
    caller: LegCdrRecord,
    callee: LegCdrRecord,
    call: FinalCallSnapshot,
)
    requires
        is_caller_leg(caller, call),
        is_callee_leg(callee, call),
    ensures
        caller.session_id == call.facts.caller_session_id,
        callee.session_id == call.facts.callee_session_id,
        caller.signaling_number == Some(call.facts.caller_number),
        callee.signaling_number == Some(call.facts.callee_number),
        caller.endpoint_number == Some(call.facts.caller_number),
        callee.endpoint_number == call.callee_endpoint_number,
        caller.endpoint_ref == call.facts.inbound_trunk_ref,
        callee.endpoint_ref == call.callee_endpoint_ref,
        caller.route_id == call.facts.inbound_route_id,
        callee.route_id == call.facts.outbound_route_id,
        caller.route_name == call.facts.inbound_route_name,
        callee.route_name == call.facts.outbound_route_name,
        caller.trunk_ref == call.facts.inbound_trunk_ref,
        callee.trunk_ref == call.facts.outbound_trunk_ref,
        caller.trunk_name == call.facts.inbound_trunk_name,
        callee.trunk_name == call.facts.outbound_trunk_name,
{
}

/// A leg was in the call for as long as it lasted, and its media is that of both
/// directions together.
pub proof fn lemma_leg_counts_both_directions(
    leg: LegCdrRecord,
    call: FinalCallSnapshot,
    stats: MediaStatsSnapshot,
    ended_at_ms: u64,
)
    requires
        leg_of_call(leg, call, stats, ended_at_ms),
    ensures
        leg.joined_at_ms == call.facts.started_at_ms,
        leg.left_at_ms == ended_at_ms,
        leg.answered_at_ms == call.facts.answered_at_ms,
        leg.final_status == call.facts.last_status,
        leg.media_packets == stats.caller_to_callee_packets + stats.callee_to_caller_packets,
        leg.media_bytes == stats.caller_to_callee_bytes + stats.callee_to_caller_bytes,
        leg.media_rtcp_packets == stats.caller_to_callee_rtcp_packets
            + stats.callee_to_caller_rtcp_packets,
        call.facts.hangup_cause is None && call.answered ==> (leg.hangup_cause matches Some(cause)
            && cause@ == "normal_clearing"@),
        call.facts.hangup_cause is None && !call.answered ==> (leg.hangup_cause matches Some(cause)
            && cause@ == "not_answered"@),
        call.facts.hangup_cause matches Some(given) ==> (leg.hangup_cause matches Some(cause)
            && cause@ == given@),
{
}

/// A recording that was made is kept as it is. Where one of an answered call was
/// asked for and none was made, its failure is recorded, with the error that was
/// met; in any other case there is no record of a recording.
pub proof fn lemma_missing_recording_is_a_failure(
    record: Option<RecordingRecord>,
    call: FinalCallSnapshot,
    made: Option<RecordingRecord>,
    ended_at_ms: u64,
)
    requires
        recording_settled(record, call, made, ended_at_ms),
    ensures
        made is Some ==> record == made,
        made is None ==> (record is Some <==> call.answered && call.facts.recording_requested),
        made is None && call.answered && call.facts.recording_requested ==> (record matches Some(
            failed,
        ) && {
            &&& failed.status@ == "failed"@
            &&& failed.call_id@ == call.facts.call_id@
            &&& failed.domain_id@ == call.facts.domain_id@
            &&& failed.caller_number@ == call.facts.caller_number@
            &&& failed.callee_number@ == call.facts.callee_number@
            &&& failed.storage_path@.len() == 0
            &&& failed.file_size_bytes == 0
            &&& failed.duration_ms == 0
            &&& failed.packets_tapped == 0 && failed.packets_dropped == 0
            &&& failed.ended_at_ms == Some(ended_at_ms)
            &&& failed.error_code matches Some(code) && code@ == "recording_start_failed"@
            &&& call.facts.answered_at_ms matches Some(at) ==> failed.started_at_ms == at
            &&& call.facts.answered_at_ms is None ==> failed.started_at_ms
                == call.facts.started_at_ms
            &&& call.facts.recording_start_error matches Some(error) ==> (failed.error_message
                matches Some(message) && message@ == error@)
            &&& call.facts.recording_start_error is None ==> (failed.error_message matches Some(
                message,
            ) && message@ == "recording did not start"@)
        }),
{
}

/// An endpoint is named by what follows the word for it and a colon; another target
/// names none.
pub proof fn lemma_endpoint_is_what_follows_its_word(target: Seq<char>, name: Seq<char>)
    ensures
        endpoint_named("endpoint:"@ + name) == Some(name),
        endpoint_named(target) matches Some(named) ==> target == "endpoint:"@ + named,
{
    let word = "endpoint:"@;
    assert((word + name).take(word.len() as int) =~= word);
    assert((word + name).skip(word.len() as int) =~= name);
    if endpoint_named(target) is Some {
        assert(target =~= target.take(word.len() as int) + target.skip(word.len() as int));
    }
}

/// Of a cause that was found nothing else is said.
pub proof fn lemma_found_cause_is_given(cause: String, answered: bool)
    ensures
        cause_text(Some(cause), answered) == cause@,
        cause_text(None, true) == "normal_clearing"@,
        cause_text(None, false) == "not_answered"@,
{
}

/// The record of a call names it, its numbers, and the ways in and out, each under its
/// own heading.
pub proof fn lemma_record_names_its_call(record: CdrRecord, facts: CallFacts)
    requires
        cdr_identifies(record, facts),
    ensures
        record.call_id@ == facts.call_id@,
        record.domain_id@ == facts.domain_id@,
        record.caller_number@ == facts.caller_number@,
        record.callee_number@ == facts.callee_number@,
        record.inbound_route_id == facts.inbound_route_id,
        record.inbound_route_name == facts.inbound_route_name,
        record.inbound_trunk_ref == facts.inbound_trunk_ref,
        record.inbound_trunk_name == facts.inbound_trunk_name,
        record.outbound_route_id == facts.outbound_route_id,
        record.outbound_route_name == facts.outbound_route_name,
        record.outbound_trunk_ref == facts.outbound_trunk_ref,
        record.outbound_trunk_name == facts.outbound_trunk_name,
{
}

/// What went in either direction is counted in that direction, packets as packets and
/// bytes as bytes.
pub proof fn lemma_record_counts_each_direction(record: CdrRecord, stats: MediaStatsSnapshot)
    requires
        cdr_counts(record, stats),
    ensures
        record.caller_to_callee_packets == stats.caller_to_callee_packets,
        record.caller_to_callee_bytes == stats.caller_to_callee_bytes,
        record.caller_to_callee_rtcp_packets == stats.caller_to_callee_rtcp_packets,
        record.callee_to_caller_packets == stats.callee_to_caller_packets,
        record.callee_to_caller_bytes == stats.callee_to_caller_bytes,
        record.callee_to_caller_rtcp_packets == stats.callee_to_caller_rtcp_packets,
{
}

/// A recording that did not start is a failure of its call, with the message that was
/// given.
pub proof fn lemma_failed_recording_names_its_call(
    record: RecordingRecord,
    call: FinalCallSnapshot,
    ended_at_ms: u64,
    message: Seq<char>,
)
    requires
        recording_failed(record, call, ended_at_ms, message),
    ensures
        record.call_id@ == call.facts.call_id@,
        record.domain_id@ == call.facts.domain_id@,
        record.caller_number@ == call.facts.caller_number@,
        record.callee_number@ == call.facts.callee_number@,
        call.facts.answered_at_ms matches Some(at) ==> record.started_at_ms == at,
        call.facts.answered_at_ms is None ==> record.started_at_ms == call.facts.started_at_ms,
        record.ended_at_ms == Some(ended_at_ms),
        record.status@ == "failed"@,
        record.storage_path@.len() == 0,
        record.duration_ms == 0,
        record.error_code matches Some(code) && code@ == "recording_start_failed"@,
        record.error_message matches Some(told) && told@ == message,
{
}

} // verus!
