//! How a call comes about: what the caller hears of the callee's progress, how an answer
//! reaches the caller, and how a call begins and ends.

use crate::call::coordinator::{
    ActionBody, ActionKind, ActionLabel, AnswerRuling, CallAction, CallCore, CallEffect, CallError,
    CallTimeouts, CallTimerKind, CallTimers, MediaRequest, OutboxState, PrepareSdpPurpose,
    TopologyAnswers, TopologyChange,
};
use crate::call::leg_laws::{
    adds, alive, armed, asks, media_takes, search_stopped, takes, within_search,
};
use crate::call::model::{HangupCause, SdpBody, SessionRef};
use vstd::prelude::*;

verus! {

/// A call begins by taking over the caller's leg and ringing the first candidate with the
/// offer that was made for it, in this order. It begins once.
pub proof fn lemma_call_begins_with_its_first_candidate(
    s: CallCore,
    o: OutboxState,
    offer: SdpBody,
    now: u64,
)
    requires
        !s.actor_started,
        !s.finalization_started,
        takes(o, 2),
    ensures
        ({
            let (t, o1) = s.begun(o, offer, now);
            &&& adds(
                o,
                o1,
                seq![
                    asks(
                        s,
                        SessionRef::Caller,
                        ActionKind::AdoptInboundInvite,
                        ActionLabel::Adopt,
                        ActionBody::Empty,
                    ),
                    asks(
                        s,
                        SessionRef::CalleeAttempt(s.current_attempt_seq),
                        ActionKind::Originate,
                        ActionLabel::Originate { attempt: s.current_attempt_seq },
                        ActionBody::Originate { candidate: s.current_candidate, sdp: offer },
                    ),
                    CallEffect::PublishView,
                ],
            )
            &&& t.actor_started && t.state == s.state
            &&& t.timers.dial.slot matches Some(slot) && within_search(
                s,
                now,
                s.timeouts.dial,
                slot.deadline as int,
            )
            &&& forall|offer: SdpBody| #[trigger] t.begun(o1, offer, now) == (t, o1)
        }),
{
    reveal(CallCore::begun);
    reveal(OutboxState::submitted);
}

/// A call that cannot even begin ends at once, with an internal error.
pub proof fn lemma_call_that_cannot_begin_ends(
    s: CallCore,
    o: OutboxState,
    offer: SdpBody,
    now: u64,
)
    requires
        !s.actor_started,
        !takes(o, 2),
    ensures
        ({
            let (t, o1) = s.begun(o, offer, now);
            &&& t.finalization_started
            &&& t.hangup_cause == Some(HangupCause::InternalError)
            &&& !alive(t)
        }),
{
    reveal(CallCore::begun);
    reveal(CallCore::finishing);
    reveal(OutboxState::submitted);
}

/// A new call has its first candidate as its first attempt, nobody has answered or left,
/// and the search for the callee may take as long as the settings say.
pub proof fn lemma_new_call_is_open(timeouts: CallTimeouts, numbers: Vec<bool>, now: u64)
    ensures
        ({
            let s = CallCore::fresh(timeouts, numbers, now);
            &&& s.timeouts == timeouts
            &&& s.route_deadline == now + timeouts.route_budget
            &&& s.state is Establishing
            &&& s.current_attempt_seq == 1 && s.current_candidate == 0 && s.next_candidate == 1
            &&& s.candidate_count == numbers@.len() as usize
            &&& s.answered_at_ms is None && s.last_status is None && s.hangup_cause is None
            &&& !s.caller_terminated && !s.callee_terminated
            &&& !s.finalized && !s.finalization_started && !s.actor_started
            &&& s.has_media && !s.has_bridge
            &&& s.pending_answer is None && !s.answer_in_progress
            &&& s.deferred_callee_disconnect is None
            &&& s.pending_attempt_candidate is None && s.pending_attempt_registration is None
            &&& s.retry_after_cleanup is None
            &&& !s.late_answer_cleanup_sent && s.recording_start_error is None
            &&& s.timers.dial.slot is None && s.timers.ring.slot is None
                && s.timers.cleanup.slot is None
            &&& s.timers.dial.generation == 0 && s.timers.ring.generation == 0
                && s.timers.cleanup.generation == 0
            &&& s.action_generation == 1 && s.media_generation == 0 && s.closing_generation == 0
        }),
{
}

/// Progress without a session description is passed on to the caller as it came; without a
/// status it is ringing. The first time the callee rings, it has the ringing time, or what
/// is left of the search, to answer; being dialled is over.
pub proof fn lemma_progress_is_passed_on(
    s: CallCore,
    o: OutboxState,
    status: Option<u16>,
    now: u64,
)
    requires
        takes(o, 1),
    ensures
        ({
            let code: u16 = if status is Some {
                status->Some_0
            } else {
                180
            };
            let (t, o1, r) = s.provisional(o, status, None, now);
            &&& r is Ok
            &&& adds(
                o,
                o1,
                seq![
                    asks(
                        s,
                        SessionRef::Caller,
                        ActionKind::ForwardProvisional,
                        ActionLabel::Provisional { status: code },
                        ActionBody::Provisional { status: code, sdp: None },
                    ),
                    CallEffect::PublishView,
                ],
            )
            &&& t.state is Establishing
            &&& t.last_status == Some(code)
            &&& t.timers.dial.slot is None
            &&& (code == 180 || code == 183) && s.timers.ring.generation == 0 ==> (
            t.timers.ring.slot matches Some(slot) && within_search(
                s,
                now,
                s.timeouts.ring,
                slot.deadline as int,
            ))
            &&& !((code == 180 || code == 183) && s.timers.ring.generation == 0) ==> t.timers.ring
                == s.timers.ring
            &&& t.timers.cleanup == s.timers.cleanup
            &&& t.media_generation == s.media_generation
        }),
{
    reveal(CallCore::provisional);
    reveal(CallCore::progress_passed);
    reveal(CallCore::provisional_forwarded);
    reveal(OutboxState::submitted);
}

/// Progress with a session description is first rewritten for the caller, and then passed
/// on with what came of it, under the status it had.
pub proof fn lemma_early_media_is_rewritten(
    s: CallCore,
    o: OutboxState,
    status: u16,
    sdp: SdpBody,
    ring: bool,
    rewritten: SdpBody,
    now: u64,
)
    requires
        s.media_generation < u64::MAX,
    ensures
        s.has_media && media_takes(o) ==> {
            let (t, o1, r) = s.provisional(o, Some(status), Some(sdp), now);
            &&& r is Ok
            &&& adds(
                o,
                o1,
                seq![
                    CallEffect::Media(
                        MediaRequest::PrepareCallerSdp {
                            generation: (s.media_generation + 1) as u64,
                            purpose: PrepareSdpPurpose::Provisional {
                                status_code: status,
                                start_ring_timer: (status == 180 || status == 183)
                                    && s.timers.ring.generation == 0,
                            },
                            sdp,
                        },
                    ),
                    CallEffect::PublishView,
                ],
            )
            &&& t.media_generation == s.media_generation + 1
            &&& t.state is Establishing && t.last_status == Some(status)
            &&& t.timers.dial.slot is None
        },
        alive(s) && takes(o, 1) ==> {
            let (t, o1, r) = s.sdp_prepared(
                o,
                s.media_generation,
                PrepareSdpPurpose::Provisional { status_code: status, start_ring_timer: ring },
                Some(rewritten),
                now,
            );
            &&& r is Ok
            &&& adds(
                o,
                o1,
                seq![
                    asks(
                        s,
                        SessionRef::Caller,
                        ActionKind::ForwardProvisional,
                        ActionLabel::Provisional { status },
                        ActionBody::Provisional { status, sdp: Some(rewritten) },
                    ),
                ],
            )
            &&& ring ==> (t.timers.ring.slot matches Some(slot) && within_search(
                s,
                now,
                s.timeouts.ring,
                slot.deadline as int,
            ))
            &&& !ring ==> t == s
        },
{
    reveal(CallCore::provisional);
    reveal(CallCore::progress_passed);
    reveal(CallCore::sdp_prepared);
    reveal(CallCore::provisional_forwarded);
    reveal(OutboxState::submitted);
    reveal(OutboxState::requested);
}

/// Whether the call ends because its two sides have no media in common.
pub open spec fn ended_over_media(
    s: CallCore,
    o: OutboxState,
    t: CallCore,
    o1: OutboxState,
    callee_kind: ActionKind,
    now: u64,
) -> bool {
    &&& adds(
        o,
        o1,
        seq![
            asks(
                s,
                SessionRef::CalleeAttempt(s.current_attempt_seq),
                callee_kind,
                ActionLabel::MediaFailureCallee,
                ActionBody::Empty,
            ),
            asks(
                s,
                SessionRef::Caller,
                ActionKind::RejectInboundInvite,
                ActionLabel::MediaFailureCaller,
                ActionBody::Status(488),
            ),
            CallEffect::PublishView,
        ],
    )
    &&& t.state is Terminating
    &&& t.last_status == Some(488u16)
    &&& t.hangup_cause == Some(HangupCause::IncompatibleDestination)
    &&& t.media_generation == s.media_generation + 1
    &&& !t.answer_in_progress
    &&& search_stopped(t)
    &&& armed(t, CallTimerKind::Cleanup, now + s.timeouts.cleanup)
    &&& t.caller_terminated == s.caller_terminated && t.callee_terminated == s.callee_terminated
}

/// Media that cannot be matched ends the call on both sides: the caller is refused with
/// 488, and the callee is cancelled while it rings, and hung up once it has answered.
pub proof fn lemma_unmatched_media_ends_both_legs(
    s: CallCore,
    o: OutboxState,
    status: u16,
    ring: bool,
    sdp: SdpBody,
    payload_types: Vec<u8>,
    now: u64,
)
    requires
        alive(s),
        takes(o, 2),
        s.media_generation < u64::MAX,
        s.retry_after_cleanup is None,
    ensures
        ({
            let (t, o1, r) = s.sdp_prepared(
                o,
                s.media_generation,
                PrepareSdpPurpose::Provisional { status_code: status, start_ring_timer: ring },
                None,
                now,
            );
            r is Ok && ended_over_media(s, o, t, o1, ActionKind::CancelOutbound, now)
        }),
        ({
            let (t, o1, r) = s.sdp_prepared(
                o,
                s.media_generation,
                PrepareSdpPurpose::Answer { payload_types },
                None,
                now,
            );
            r is Ok && ended_over_media(s, o, t, o1, ActionKind::HangupDialog, now)
        }),
        s.answered_at_ms is None && s.pending_answer is None ==> {
            let (t, o1, r) = s.callee_answered(o, None, payload_types, now);
            r is Ok && ended_over_media(s, o, t, o1, ActionKind::HangupDialog, now)
        },
        s.answered_at_ms is None && s.pending_answer is None && !s.has_media ==> {
            let (t, o1, r) = s.callee_answered(o, Some(sdp), payload_types, now);
            r is Ok && ended_over_media(s, o, t, o1, ActionKind::HangupDialog, now)
        },
{
    reveal(CallCore::sdp_prepared);
    reveal(CallCore::callee_answered);
    reveal(CallCore::late_answer_retried);
    reveal(CallCore::media_failed);
    reveal(CallCore::refused);
    reveal(OutboxState::submitted);
}

/// The callee's answer is rewritten for the caller, and what came of it is sent to the
/// caller. The payload types that were agreed on wait with it.
pub proof fn lemma_answer_reaches_the_caller(
    s: CallCore,
    o: OutboxState,
    sdp: SdpBody,
    rewritten: SdpBody,
    payload_types: Vec<u8>,
    now: u64,
)
    requires
        alive(s),
        s.media_generation < u64::MAX,
    ensures
        s.answered_at_ms is None && s.pending_answer is None && s.retry_after_cleanup is None
            && s.has_media && media_takes(o) ==> {
            let (t, o1, r) = s.callee_answered(o, Some(sdp), payload_types, now);
            &&& r is Ok
            &&& adds(
                o,
                o1,
                seq![
                    CallEffect::Media(
                        MediaRequest::PrepareCallerSdp {
                            generation: (s.media_generation + 1) as u64,
                            purpose: PrepareSdpPurpose::Answer { payload_types },
                            sdp,
                        },
                    ),
                ],
            )
            &&& t.media_generation == s.media_generation + 1
            &&& t.answer_in_progress
            &&& t.timers.dial.slot is None
            &&& t.timers.ring == s.timers.ring
            &&& t.answered_at_ms is None && t.state == s.state
        },
        takes(o, 1) ==> {
            let (t, o1, r) = s.sdp_prepared(
                o,
                s.media_generation,
                PrepareSdpPurpose::Answer { payload_types },
                Some(rewritten),
                now,
            );
            &&& r is Ok
            &&& adds(
                o,
                o1,
                seq![
                    asks(
                        s,
                        SessionRef::Caller,
                        ActionKind::AnswerInboundInvite,
                        ActionLabel::Answer,
                        ActionBody::Answer { sdp: rewritten },
                    ),
                    CallEffect::PublishView,
                ],
            )
            &&& t.state is Answering
            &&& t.pending_answer == Some(payload_types)
            &&& t.answered_at_ms == s.answered_at_ms
        },
{
    reveal(CallCore::callee_answered);
    reveal(CallCore::late_answer_retried);
    reveal(CallCore::sdp_prepared);
    reveal(CallCore::answer_sent);
    reveal(OutboxState::submitted);
    reveal(OutboxState::requested);
}

/// A second answer changes nothing but that nobody is dialled any more; an answer to a call
/// that is ending is hung up, once.
pub proof fn lemma_answer_counts_once(
    s: CallCore,
    o: OutboxState,
    sdp: Option<SdpBody>,
    payload_types: Vec<u8>,
    now: u64,
)
    requires
        s.retry_after_cleanup is None,
    ensures
        s.answered_at_ms is Some || s.pending_answer is Some ==> {
            let (t, o1, r) = s.callee_answered(o, sdp, payload_types, now);
            &&& r is Ok && o1 == o
            &&& t == CallCore { timers: t.timers, ..s }
            &&& t.timers.ring == s.timers.ring && t.timers.cleanup == s.timers.cleanup
        },
        s.answered_at_ms is None && s.pending_answer is None && !alive(s)
            && !s.late_answer_cleanup_sent && takes(o, 1) ==> {
            let (t, o1, r) = s.callee_answered(o, sdp, payload_types, now);
            &&& r is Ok
            &&& adds(
                o,
                o1,
                seq![
                    asks(
                        s,
                        SessionRef::CalleeAttempt(s.current_attempt_seq),
                        ActionKind::HangupDialog,
                        ActionLabel::HangupLateAnswer,
                        ActionBody::Empty,
                    ),
                ],
            )
            &&& t.late_answer_cleanup_sent
            &&& t.callee_answered(o1, sdp, payload_types, now).1 == o1
        },
{
    reveal(CallCore::callee_answered);
    reveal(CallCore::late_answer_retried);
    reveal(OutboxState::submitted);
}

/// The confirmed answer connects the call: it is answered from now on, with 200, and its
/// media begins, recorded from this time where that was asked for. The fast path is open
/// only to a call that is neither recorded nor captured.
pub proof fn lemma_confirmed_answer_starts_the_media(
    s: CallCore,
    o: OutboxState,
    recording: bool,
    ai: bool,
    now_ms: u64,
    now: u64,
)
    requires
        alive(s),
        s.pending_answer is Some,
        s.deferred_callee_disconnect is None,
        media_takes(o),
        o.topology.answered == AnswerRuling::Accepted,
    ensures
        ({
            let (t, o1, r) = s.answer_confirmed(o, true, recording, ai, now_ms, now);
            &&& r is Ok
            &&& adds(
                o,
                o1,
                seq![
                    CallEffect::Topology(
                        TopologyChange::Answered {
                            attempt: s.current_attempt_seq,
                            at_ms: now_ms,
                            media_generation: s.media_generation,
                        },
                    ),
                    CallEffect::Media(
                        MediaRequest::StartAnswerMedia {
                            generation: s.media_generation,
                            recording_from_ms: if recording {
                                Some(now_ms)
                            } else {
                                None
                            },
                            payload_types: s.pending_answer->Some_0,
                            allow_fast_path: !(recording || ai),
                        },
                    ),
                    CallEffect::PublishView,
                ],
            )
            &&& t.state is Connected
            &&& t.answered_at_ms == Some(now_ms)
            &&& t.last_status == Some(200u16)
            &&& t.has_bridge
            &&& t.timers.ring.slot is None
            &&& t.pending_answer is None && !t.answer_in_progress
            &&& !t.callee_terminated == !s.callee_terminated
            &&& t.hangup_cause == s.hangup_cause
        }),
        ({
            let (t, o1, r) = s.answer_confirmed(o, false, recording, ai, now_ms, now);
            &&& r is Ok && o1 == o
            &&& t.state == s.state && t.answered_at_ms == s.answered_at_ms
            &&& t.pending_answer is None && !t.answer_in_progress
        }),
{
    reveal(CallCore::answer_confirmed);
    reveal(OutboxState::requested);
}

/// A callee that hung up while its answer was being confirmed is dealt with right after:
/// the caller is hung up, and the call has been answered.
pub proof fn lemma_deferred_hangup_follows_the_answer(
    s: CallCore,
    o: OutboxState,
    recording: bool,
    ai: bool,
    now_ms: u64,
    now: u64,
)
    requires
        alive(s),
        s.pending_answer is Some,
        s.retry_after_cleanup is None,
        s.deferred_callee_disconnect matches Some(waiting) && waiting.attempt_seq
            == s.current_attempt_seq,
        !s.caller_terminated,
        media_takes(o),
        takes(o, 1),
        o.topology.answered == AnswerRuling::Accepted,
    ensures
        ({
            let (t, o1, r) = s.answer_confirmed(o, true, recording, ai, now_ms, now);
            let n = o1.effects.len() as int;
            &&& r is Ok
            &&& n == o.effects.len() + 5
            &&& o1.effects[n - 2] == asks(
                s,
                SessionRef::Caller,
                ActionKind::HangupDialog,
                ActionLabel::Hangup,
                ActionBody::Empty,
            )
            &&& t.state is Terminating
            &&& t.answered_at_ms == Some(now_ms)
            &&& t.callee_terminated && !t.caller_terminated
            &&& t.deferred_callee_disconnect is None
            &&& s.deferred_callee_disconnect->Some_0.status_code is Some ==> t.last_status
                == s.deferred_callee_disconnect->Some_0.status_code
            &&& s.deferred_callee_disconnect->Some_0.status_code is None ==> t.last_status == Some(
                200u16,
            )
        }),
{
    reveal(CallCore::answer_confirmed);
    reveal(CallCore::disconnected);
    reveal(CallCore::told_and_settled);
    reveal(CallCore::settled);
    reveal(OutboxState::requested);
    reveal(OutboxState::submitted);
}

/// Media that runs makes the bridge active; a recording that could not be started is
/// noted, and does not end the call.
pub proof fn lemma_running_media_activates_the_bridge(
    s: CallCore,
    o: OutboxState,
    error: Option<String>,
    now_ms: u64,
)
    requires
        s.has_bridge,
        o.topology.bridge_active,
    ensures
        ({
            let (t, o1, r) = s.answer_media_started(o, s.media_generation, error, now_ms);
            &&& r is Ok
            &&& adds(
                o,
                o1,
                seq![
                    CallEffect::Topology(
                        TopologyChange::BridgeActive {
                            generation: s.media_generation,
                            at_ms: now_ms,
                        },
                    ),
                    CallEffect::PublishView,
                ],
            )
            &&& error is Some ==> t.recording_start_error == error
            &&& error is None ==> t == s
            &&& t.state == s.state && t.hangup_cause == s.hangup_cause
        }),
{
    reveal(CallCore::answer_media_started);
}

/// An action that fails ends the call. Where the callee could not be rung, the caller is
/// refused with 503; otherwise both legs have the cleanup time to go.
pub proof fn lemma_failed_action_ends_the_call(
    s: CallCore,
    o: OutboxState,
    originate: bool,
    peer: bool,
    now: u64,
)
    requires
        alive(s),
        takes(o, 1),
        !(originate && peer) || s.answered_at_ms is Some || s.next_candidate
            >= s.candidate_count,
    ensures
        ({
            let (t, o1, r) = s.action_failed(o, originate, peer, now);
            &&& r is Ok
            &&& originate ==> adds(
                o,
                o1,
                seq![
                    asks(
                        s,
                        SessionRef::Caller,
                        ActionKind::RejectInboundInvite,
                        ActionLabel::RejectActionFailure,
                        ActionBody::Status(503),
                    ),
                    CallEffect::PublishView,
                ],
            )
            &&& !originate ==> adds(o, o1, seq![CallEffect::PublishView])
            &&& t.state is Terminating
            &&& t.hangup_cause == Some(HangupCause::InternalError)
            &&& s.last_status is None ==> t.last_status == Some(503u16)
            &&& s.last_status is Some ==> t.last_status == s.last_status
            &&& t.callee_terminated == (s.callee_terminated || peer)
            &&& t.caller_terminated == s.caller_terminated
            &&& search_stopped(t)
            &&& armed(t, CallTimerKind::Cleanup, now + s.timeouts.cleanup)
        }),
{
    reveal(CallCore::action_failed);
    reveal(CallCore::failure_ended);
    reveal(CallCore::refused);
    reveal(OutboxState::submitted);
}

/// A candidate that could not even be rung is followed by the next one, as one that
/// answered 503 would be.
pub proof fn lemma_candidate_that_cannot_be_rung_is_replaced(s: CallCore, o: OutboxState, now: u64)
    requires
        alive(s),
        s.answered_at_ms is None,
        s.pending_attempt_candidate is None,
        s.pending_attempt_registration is None,
        s.retry_after_cleanup is None,
        s.next_candidate < s.candidate_count,
        s.route_deadline >= now + s.timeouts.min_attempt_window,
        media_takes(o),
        o.topology.attempt_failed,
    ensures
        ({
            let (t, o1, r) = s.action_failed(o, true, true, now);
            &&& r is Ok
            &&& t.state == s.state
            &&& t.next_candidate == s.next_candidate + 1
            &&& t.last_status == Some(503u16)
            &&& t.callee_terminated
            &&& o1.effects.len() == o.effects.len() + 3
            &&& o1.effects[o.effects.len() as int + 1] matches CallEffect::Media(
                MediaRequest::PrepareCalleeOffer { candidate, .. },
            ) && candidate == s.next_candidate
        }),
{
    reveal(CallCore::action_failed);
    reveal(CallCore::next_begun);
    reveal(OutboxState::requested);
}

/// When no candidate or no time is left, the caller is refused with the status that the
/// last attempt had.
pub proof fn lemma_exhausted_search_refuses_the_caller(
    s: CallCore,
    o: OutboxState,
    status: u16,
    now: u64,
)
    requires
        takes(o, 1),
        s.next_candidate >= s.candidate_count || s.route_deadline < now
            + s.timeouts.min_attempt_window,
        s.timeouts.min_attempt_window > 0,
    ensures
        ({
            let (t, o1, r) = s.next_or_exhausted(o, status, now);
            &&& r == Ok::<bool, CallError>(true)
            &&& adds(
                o,
                o1,
                seq![
                    asks(
                        s,
                        SessionRef::Caller,
                        ActionKind::RejectInboundInvite,
                        ActionLabel::RejectRouteBudget,
                        ActionBody::Status(status),
                    ),
                    CallEffect::PublishView,
                ],
            )
            &&& t.state is Terminating
            &&& t.last_status == Some(status)
            &&& t.hangup_cause == Some(HangupCause::NoRoute)
            &&& t.callee_terminated && t.caller_terminated == s.caller_terminated
            &&& armed(t, CallTimerKind::Cleanup, now + s.timeouts.cleanup)
        }),
{
    reveal(CallCore::next_or_exhausted);
    reveal(CallCore::next_begun);
    reveal(CallCore::retry_exhausted);
    reveal(CallCore::refused);
    reveal(OutboxState::submitted);
}

/// A timer that is armed runs for its own time, and no other timer is touched: dialling
/// and ringing no longer than the search, the cleanup in any case. What is cancelled does
/// not run.
pub proof fn lemma_timers_run_for_their_time(s: CallCore, kind: CallTimerKind, now: u64)
    ensures
        ({
            let t = s.timer_started(kind, now);
            let c = s.timer_cancelled(kind);
            &&& t == CallCore { timers: t.timers, ..s }
            &&& c == CallCore { timers: c.timers, ..s }
            &&& kind is Dial ==> (t.timers.dial.slot matches Some(slot) && within_search(
                s,
                now,
                s.timeouts.dial,
                slot.deadline as int,
            ) && slot.generation == t.timers.dial.generation) && c.timers.dial.slot is None
            &&& kind is Ring ==> (t.timers.ring.slot matches Some(slot) && within_search(
                s,
                now,
                s.timeouts.ring,
                slot.deadline as int,
            ) && slot.generation == t.timers.ring.generation) && c.timers.ring.slot is None
            &&& kind is Cleanup ==> (t.timers.cleanup.slot matches Some(slot) && slot.deadline
                == now + s.timeouts.cleanup && slot.generation == t.timers.cleanup.generation)
                && c.timers.cleanup.slot is None
            &&& !(kind is Dial) ==> t.timers.dial == s.timers.dial && c.timers.dial == s.timers.dial
            &&& !(kind is Ring) ==> t.timers.ring == s.timers.ring && c.timers.ring == s.timers.ring
            &&& !(kind is Cleanup) ==> t.timers.cleanup == s.timers.cleanup && c.timers.cleanup
                == s.timers.cleanup
        }),
{
}

/// A timer that has run out is not armed any more, whatever comes of it.
pub proof fn lemma_expired_timer_is_used_up(
    s: CallCore,
    o: OutboxState,
    kind: CallTimerKind,
    generation: u64,
    now: u64,
)
    requires
        kind is Dial ==> generation != s.timers.dial.generation,
        kind is Ring ==> generation != s.timers.ring.generation,
        kind is Cleanup ==> generation != s.timers.cleanup.generation,
    ensures
        ({
            let (t, o1, r) = s.timer_expired(o, kind, generation, now);
            &&& r is Ok && o1 == o
            &&& t == CallCore { timers: t.timers, ..s }
            &&& kind is Dial ==> t.timers.dial.slot is None
            &&& kind is Ring ==> t.timers.ring.slot is None
            &&& kind is Cleanup ==> t.timers.cleanup.slot is None
        }),
{
    reveal(CallCore::timer_expired);
    reveal(CallCore::timer_fired);
}

/// A call that ends lets go of everything: no timer runs, its media is given up, and
/// whatever the media worker still reports comes too late. What is known of the call, and
/// who has left it, stays.
pub proof fn lemma_finished_call_lets_go(s: CallCore)
    requires
        !s.finalization_started,
        s.media_generation < u64::MAX,
    ensures
        ({
            let t = s.finishing();
            &&& t.finalization_started && !t.has_media
            &&& search_stopped(t) && t.timers.cleanup.slot is None
            &&& t.media_generation > s.media_generation
            &&& t.closing_generation == s.media_generation
            &&& t.state == s.state && t.hangup_cause == s.hangup_cause
            &&& t.last_status == s.last_status && t.answered_at_ms == s.answered_at_ms
            &&& t.caller_terminated == s.caller_terminated
            &&& t.callee_terminated == s.callee_terminated
            &&& t.finalized == s.finalized
            &&& t.recording_start_error == s.recording_start_error
        }),
{
    reveal(CallCore::finishing);
}

/// An owner that stops takes its leg with it and ends the call; the first cause stands.
pub proof fn lemma_stopping_owner_ends_the_call(s: CallCore, owner: SessionRef)
    ensures
        ({
            let t = s.shut_down(owner);
            &&& t.finalization_started
            &&& !alive(t)
            &&& owner is Caller ==> t.caller_terminated && t.callee_terminated
                == s.callee_terminated
            &&& owner == SessionRef::CalleeAttempt(s.current_attempt_seq) ==> t.callee_terminated
                && t.caller_terminated == s.caller_terminated
            &&& s.hangup_cause is None ==> t.hangup_cause == Some(HangupCause::InternalError)
            &&& s.hangup_cause is Some ==> t.hangup_cause == s.hangup_cause
        }),
{
    reveal(CallCore::shut_down);
    reveal(CallCore::finishing);
}

/// After a step without a failure the call goes on as it is, unless both legs are gone or
/// its record is written; a failure ends it.
pub proof fn lemma_call_goes_on_with_a_leg(s: CallCore, error: CallError)
    ensures
        !s.finalized && !(s.caller_terminated && s.callee_terminated) ==> s.processed(Ok(())) == (
            s,
            true,
        ),
        s.finalized ==> s.processed(Ok(())) == (s, false),
        ({
            let (t, goes_on) = s.processed(Err(error));
            &&& goes_on && t.finalization_started && !alive(t)
            &&& s.hangup_cause is None ==> t.hangup_cause == Some(HangupCause::InternalError)
            &&& s.hangup_cause is Some ==> t.hangup_cause == s.hangup_cause
            &&& t.caller_terminated == s.caller_terminated
            &&& t.callee_terminated == s.callee_terminated
        }),
{
    reveal(CallCore::processed);
    reveal(CallCore::finishing);
}

/// What is put into a queue comes last and takes one place; a queue that is closed or full
/// takes nothing, and says which.
pub proof fn lemma_queues_take_what_they_have_room_for(
    o: OutboxState,
    action: CallAction,
    request: MediaRequest,
    attempt: u16,
    candidate: usize,
    generation: u64,
)
    ensures
        ({
            let (o1, r) = o.submitted(action);
            &&& !o.adapter.open ==> o1 == o && r == Err::<(), _>(CallError::AdapterClosed)
            &&& o.adapter.open && o.adapter.room == 0 ==> o1 == o && r == Err::<(), _>(
                CallError::AdapterFull,
            )
            &&& o.adapter.open && o.adapter.room > 0 ==> r is Ok && adds(
                o,
                o1,
                seq![CallEffect::Submit(action)],
            ) && o1.adapter.room == o.adapter.room - 1 && o1.adapter.open && o1.media == o.media
                && o1.registrar == o.registrar && o1.topology == o.topology
        }),
        ({
            let (o1, r) = o.requested(request);
            &&& !o.media.open ==> o1 == o && r == Err::<(), _>(CallError::MediaClosed)
            &&& o.media.open && o.media.room == 0 ==> o1 == o && r == Err::<(), _>(
                CallError::MediaFull,
            )
            &&& o.media.open && o.media.room > 0 ==> r is Ok && adds(
                o,
                o1,
                seq![CallEffect::Media(request)],
            ) && o1.media.room == o.media.room - 1 && o1.media.open && o1.adapter == o.adapter
                && o1.registrar == o.registrar && o1.topology == o.topology
        }),
        ({
            let (o1, r) = o.registered(attempt, candidate, generation);
            &&& !o.registrar.open ==> o1 == o && r == Err::<(), _>(CallError::RegistrarClosed)
            &&& o.registrar.open && o.registrar.room == 0 ==> o1 == o && r == Err::<(), _>(
                CallError::RegistrarFull,
            )
            &&& o.registrar.open && o.registrar.room > 0 ==> r is Ok && adds(
                o,
                o1,
                seq![
                    CallEffect::RegisterAttempt {
                        attempt,
                        candidate,
                        action_generation: generation,
                    },
                ],
            ) && o1.registrar.room == o.registrar.room - 1 && o1.registrar.open && o1.adapter
                == o.adapter && o1.media == o.media && o1.topology == o.topology
        }),
{
    reveal(OutboxState::submitted);
    reveal(OutboxState::requested);
    reveal(OutboxState::registered);
}

/// A timer that is armed or cancelled gets a new generation, so that an expiry under way
/// comes too late; one that has fired keeps its generation and is not armed. To cancel
/// all is to cancel each.
pub proof fn lemma_timers_have_generations(t: CallTimers, kind: CallTimerKind, deadline: u128)
    ensures
        t.of(kind).generation < u64::MAX ==> t.started(kind, deadline).of(kind).generation == t.of(
            kind,
        ).generation + 1,
        t.of(kind).generation < u64::MAX ==> t.cancelled(kind).of(kind).generation == t.of(
            kind,
        ).generation + 1,
        t.started(kind, deadline).of(kind).slot matches Some(slot) && slot.deadline == deadline
            && slot.generation == t.started(kind, deadline).of(kind).generation,
        t.cancelled(kind).of(kind).slot is None,
        t.fired(kind).of(kind).slot is None,
        t.fired(kind).of(kind).generation == t.of(kind).generation,
        t.all_cancelled() == t.cancelled(CallTimerKind::Dial).cancelled(
            CallTimerKind::Ring,
        ).cancelled(CallTimerKind::Cleanup),
        t.of(CallTimerKind::Dial) == t.dial,
        t.of(CallTimerKind::Ring) == t.ring,
        t.of(CallTimerKind::Cleanup) == t.cleanup,
{
}

/// What one timer does leaves the others alone.
pub proof fn lemma_timers_are_apart(
    t: CallTimers,
    kind: CallTimerKind,
    other: CallTimerKind,
    deadline: u128,
)
    requires
        kind != other,
    ensures
        t.started(kind, deadline).of(other) == t.of(other),
        t.cancelled(kind).of(other) == t.of(other),
        t.fired(kind).of(other) == t.of(other),
{
}

/// What is said of a step that failed: which queue had no room or was closed, or what was
/// missing or refused.
pub proof fn lemma_words_for_failed_steps()
    ensures
        CallError::AdapterFull.says() == "adapter action queue full"@,
        CallError::AdapterClosed.says() == "adapter runtime writer stopped"@,
        CallError::MediaFull.says() == "media action queue full"@,
        CallError::MediaClosed.says() == "media action executor stopped"@,
        CallError::RegistrarFull.says() == "attempt registration queue full"@,
        CallError::RegistrarClosed.says() == "attempt registration service stopped"@,
        CallError::BridgeMissing.says() == "current bridge missing"@,
        CallError::NumberRefused.says() == "endpoint number refused"@,
        CallError::TopologyRefused.says() == "call topology change refused"@,
{
}

/// Everything is accepted where each change of the topology is.
pub proof fn lemma_everything_accepted(answers: TopologyAnswers)
    ensures
        answers.all() <==> answers.attempt_failed && answers.attempt_registered && answers.answered
            is Accepted && answers.bridge_active,
{
}

} // verus!
