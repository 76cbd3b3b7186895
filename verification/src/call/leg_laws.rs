//! What each side of a call is told: which leg is rung, hung up, refused or answered when
//! something happens on the other.

use crate::call::coordinator::{
    cause_of_status, retryable, ActionBody, ActionKind, ActionLabel, CallAction, CallCore,
    CallEffect, CallError, CallTimerKind, CancelReason, MediaRequest, OutboxState, TopologyChange,
};
use crate::call::model::{HangupCause, SdpBody, SessionRef};
use vstd::prelude::*;

verus! {

/// Whether the call has not begun to end.
pub open spec fn alive(s: CallCore) -> bool {
    s.state is Establishing || s.state is Answering || s.state is Connected
}

/// Whether the adapter takes that many actions.
pub open spec fn takes(o: OutboxState, actions: nat) -> bool {
    o.adapter.open && o.adapter.room >= actions
}

/// Whether the media worker takes a request.
pub open spec fn media_takes(o: OutboxState) -> bool {
    o.media.open && o.media.room >= 1
}

/// Whether a step asked for exactly this, behind what was asked for before.
pub open spec fn adds(before: OutboxState, after: OutboxState, added: Seq<CallEffect>) -> bool {
    after.effects =~= before.effects + added
}

/// What is asked of a leg, under the call's current generation.
pub open spec fn asks(
    s: CallCore,
    session: SessionRef,
    kind: ActionKind,
    label: ActionLabel,
    body: ActionBody,
) -> CallEffect {
    CallEffect::Submit(
        CallAction { session, kind, label, generation: s.action_generation, body },
    )
}

/// Whether this timer of the call is armed, for this time.
pub open spec fn armed(s: CallCore, kind: CallTimerKind, at: int) -> bool {
    match kind {
        CallTimerKind::Dial => s.timers.dial.slot matches Some(slot) && slot.deadline == at,
        CallTimerKind::Ring => s.timers.ring.slot matches Some(slot) && slot.deadline == at,
        CallTimerKind::Cleanup => s.timers.cleanup.slot matches Some(slot) && slot.deadline == at,
    }
}

/// Whether nobody is dialled or rung any more.
pub open spec fn search_stopped(s: CallCore) -> bool {
    s.timers.dial.slot is None && s.timers.ring.slot is None
}

/// When one leg is hung up while the call is under way, the other leg is hung up, and only
/// that one: the callee's current attempt where the caller left, the caller where the
/// callee did. The leg that left counts as gone, and the other has the cleanup time to
/// leave too. Where both are gone the call ends.
pub proof fn lemma_hangup_reaches_the_other_leg(
    s: CallCore,
    o: OutboxState,
    leaving: SessionRef,
    staying: SessionRef,
    status: Option<u16>,
    now: u64,
)
    requires
        alive(s),
        takes(o, 1),
        s.retry_after_cleanup is None,
        leaving is Caller <==> staying is CalleeAttempt,
        leaving is CalleeAttempt ==> leaving->CalleeAttempt_0 == s.current_attempt_seq,
        staying is CalleeAttempt ==> staying->CalleeAttempt_0 == s.current_attempt_seq,
    ensures
        ({
            let (t, o1, r) = s.disconnected(o, Some(leaving), status, now);
            let hangup = asks(
                s,
                staying,
                ActionKind::HangupDialog,
                ActionLabel::Hangup,
                ActionBody::Empty,
            );
            let both_gone = t.caller_terminated && t.callee_terminated;
            &&& r is Ok
            &&& adds(
                o,
                o1,
                if both_gone {
                    seq![hangup]
                } else {
                    seq![hangup, CallEffect::PublishView]
                },
            )
            &&& t.state is Terminating
            &&& t.caller_terminated == (s.caller_terminated || leaving is Caller)
            &&& t.callee_terminated == (s.callee_terminated || leaving is CalleeAttempt)
            &&& search_stopped(t)
            &&& both_gone ==> t.finalization_started
            &&& !both_gone ==> t.finalization_started == s.finalization_started && armed(
                t,
                CallTimerKind::Cleanup,
                now + s.timeouts.cleanup,
            )
            &&& s.hangup_cause is None ==> t.hangup_cause == Some(HangupCause::NormalClearing)
            &&& s.hangup_cause is Some ==> t.hangup_cause == s.hangup_cause
            &&& status is Some ==> t.last_status == status
            &&& status is None ==> t.last_status == s.last_status
            &&& t.answered_at_ms == s.answered_at_ms
            &&& t.current_attempt_seq == s.current_attempt_seq
        }),
{
    reveal(CallCore::disconnected);
    reveal(CallCore::told_and_settled);
    reveal(CallCore::settled);
    reveal(CallCore::finishing);
    reveal(OutboxState::submitted);
}

/// A leg that is hung up once the call is ending is only noted: nothing is asked of either
/// leg again.
pub proof fn lemma_ending_call_is_not_ended_again(
    s: CallCore,
    o: OutboxState,
    session: Option<SessionRef>,
    status: Option<u16>,
    now: u64,
)
    requires
        !alive(s),
        s.retry_after_cleanup is None,
    ensures
        ({
            let (t, o1, r) = s.disconnected(o, session, status, now);
            &&& r is Ok
            &&& adds(o, o1, Seq::empty()) || adds(o, o1, seq![CallEffect::PublishView])
            &&& t.caller_terminated == (s.caller_terminated || session == Some(SessionRef::Caller))
            &&& t.callee_terminated == (s.callee_terminated || session == Some(
                SessionRef::CalleeAttempt(s.current_attempt_seq),
            ))
            &&& t.timers.cleanup == s.timers.cleanup || t.finalization_started
            &&& t.caller_terminated && t.callee_terminated ==> t.finalization_started
        }),
        ({
            let (t, o1, r) = s.caller_cancelled(o, now);
            &&& r is Ok
            &&& adds(o, o1, Seq::empty()) || adds(o, o1, seq![CallEffect::PublishView])
            &&& t.caller_terminated && t.callee_terminated == s.callee_terminated
        }),
        s.media_failed(o, ActionKind::HangupDialog, now) == (s, o, Ok::<(), CallError>(())),
        s.action_failed(o, true, false, now) == (s, o, Ok::<(), CallError>(())),
{
    reveal(CallCore::disconnected);
    reveal(CallCore::caller_cancelled);
    reveal(CallCore::told_and_settled);
    reveal(CallCore::settled);
    reveal(CallCore::finishing);
    reveal(CallCore::media_failed);
    reveal(CallCore::action_failed);
    reveal(CallCore::failure_ended);
}

/// A caller that gives up takes the callee along: its attempt is cancelled, or hung up
/// where it has answered.
pub proof fn lemma_cancel_reaches_the_callee(s: CallCore, o: OutboxState, now: u64)
    requires
        alive(s),
        takes(o, 1),
        !s.callee_terminated,
    ensures
        ({
            let (t, o1, r) = s.caller_cancelled(o, now);
            let callee = SessionRef::CalleeAttempt(s.current_attempt_seq);
            let why = ActionBody::Reason(CancelReason::CallerCancelled);
            &&& r is Ok
            &&& s.answered_at_ms is None ==> adds(
                o,
                o1,
                seq![
                    asks(s, callee, ActionKind::CancelOutbound, ActionLabel::Cancel, why),
                    CallEffect::PublishView,
                ],
            )
            &&& s.answered_at_ms is Some ==> adds(
                o,
                o1,
                seq![
                    asks(s, callee, ActionKind::HangupDialog, ActionLabel::HangupAfterCancel, why),
                    CallEffect::PublishView,
                ],
            )
            &&& t.caller_terminated && !t.callee_terminated
            &&& t.state is Terminating
            &&& t.hangup_cause == Some(HangupCause::OriginatorCancel)
            &&& t.last_status == s.last_status
            &&& search_stopped(t)
            &&& armed(t, CallTimerKind::Cleanup, now + s.timeouts.cleanup)
        }),
{
    reveal(CallCore::caller_cancelled);
    reveal(CallCore::told_and_settled);
    reveal(CallCore::settled);
    reveal(OutboxState::submitted);
}

/// The statuses after which another candidate may be tried: those that say that this one
/// was out of reach, not that it declined.
pub proof fn lemma_only_unreachable_callees_are_replaced(status: u16)
    ensures
        retryable(status) <==> set![408u16, 480, 500, 502, 503, 504].contains(status),
        !retryable(486) && !retryable(487) && !retryable(404) && !retryable(603),
{
}

/// What is noted of an attempt that failed.
pub proof fn lemma_causes_of_failures(status: u16)
    ensures
        cause_of_status(status) is RecoveryOnTimerExpire <==> status == 408 || status == 504,
        cause_of_status(status) is NoUserResponse <==> status == 480,
        cause_of_status(status) is UserBusy <==> status == 486 || status == 600,
        cause_of_status(status) is TemporaryFailure <==> status == 503,
        cause_of_status(status) is NetworkFailure <==> !set![
            408u16,
            504,
            480,
            486,
            600,
            503,
        ].contains(status),
{
}

/// Whether another candidate can take the place of the current attempt.
pub open spec fn has_another(s: CallCore, now: u64) -> bool {
    &&& s.answered_at_ms is None
    &&& alive(s)
    &&& s.pending_attempt_candidate is None
    &&& s.pending_attempt_registration is None
    &&& s.retry_after_cleanup is None
    &&& s.next_candidate < s.candidate_count
    &&& s.route_deadline >= now + s.timeouts.min_attempt_window
}

/// A callee that declines, or one for whom there is no other, is reported to the caller:
/// the caller is refused with the callee's status, and with 480 where there is none.
pub proof fn lemma_refusal_reaches_the_caller(
    s: CallCore,
    o: OutboxState,
    status: Option<u16>,
    now: u64,
)
    requires
        alive(s),
        takes(o, 1),
        s.retry_after_cleanup is None,
        !has_another(s, now) || !set![408u16, 480, 500, 502, 503, 504].contains(
            if status is Some {
                status->Some_0
            } else {
                480
            },
        ),
        !s.caller_terminated,
        s.timeouts.min_attempt_window > 0,
    ensures
        ({
            let (t, o1, r) = s.callee_failed(o, true, status, now);
            let code: u16 = if status is Some {
                status->Some_0
            } else {
                480
            };
            &&& r is Ok
            &&& adds(
                o,
                o1,
                seq![
                    asks(
                        s,
                        SessionRef::Caller,
                        ActionKind::RejectInboundInvite,
                        ActionLabel::Reject,
                        ActionBody::Status(code),
                    ),
                    CallEffect::PublishView,
                ],
            )
            &&& t.state is Terminating
            &&& t.last_status == status
            &&& t.hangup_cause == Some(HangupCause::CallRejected)
            &&& t.callee_terminated && !t.caller_terminated
            &&& t.next_candidate == s.next_candidate
            &&& search_stopped(t)
            &&& armed(t, CallTimerKind::Cleanup, now + s.timeouts.cleanup)
        }),
{
    reveal(CallCore::callee_failed);
    reveal(CallCore::attempt_ended);
    reveal(CallCore::told_and_settled);
    reveal(CallCore::settled);
    reveal(OutboxState::submitted);
}

/// A callee out of reach is replaced by the next candidate, without a word to the caller:
/// the attempt is noted as failed, and an offer is asked for the candidate that comes next,
/// under the next number.
pub proof fn lemma_next_candidate_takes_over(s: CallCore, o: OutboxState, status: u16, now: u64)
    requires
        has_another(s, now),
        set![408u16, 480, 500, 502, 503, 504].contains(status),
        media_takes(o),
        o.topology.attempt_failed,
        s.current_attempt_seq < u16::MAX,
        s.media_generation < u64::MAX,
    ensures
        ({
            let (t, o1, r) = s.callee_failed(o, true, Some(status), now);
            &&& r is Ok
            &&& adds(
                o,
                o1,
                seq![
                    CallEffect::Topology(
                        TopologyChange::AttemptFailed {
                            attempt: s.current_attempt_seq,
                            cause: cause_of_status(status),
                        },
                    ),
                    CallEffect::Media(
                        MediaRequest::PrepareCalleeOffer {
                            generation: (s.media_generation + 1) as u64,
                            attempt_seq: (s.current_attempt_seq + 1) as u16,
                            candidate: s.next_candidate,
                        },
                    ),
                    CallEffect::PublishView,
                ],
            )
            &&& t.state == s.state
            &&& t.next_candidate == s.next_candidate + 1
            &&& t.pending_attempt_candidate matches Some(next) && next.candidate
                == s.next_candidate && next.attempt_seq == s.current_attempt_seq + 1
            &&& t.media_generation == s.media_generation + 1
            &&& t.last_status == Some(status)
            &&& t.callee_terminated && t.caller_terminated == s.caller_terminated
            &&& search_stopped(t) && t.timers.cleanup.slot is None
        }),
{
    reveal(CallCore::callee_failed);
    reveal(CallCore::attempt_ended);
    reveal(CallCore::next_begun);
    reveal(OutboxState::requested);
}

/// The offer for the next attempt goes to its registration, as it is; the attempt has a
/// generation of its own.
pub proof fn lemma_prepared_offer_is_registered(
    s: CallCore,
    o: OutboxState,
    offer: SdpBody,
    now: u64,
)
    requires
        s.wf(),
        alive(s),
        s.pending_attempt_candidate is Some,
        s.numbers_accepted@[s.pending_attempt_candidate->Some_0.candidate as int],
        o.registrar.open && o.registrar.room > 0,
        s.action_generation < u64::MAX,
    ensures
        ({
            let pending = s.pending_attempt_candidate->Some_0;
            let (t, o1, r) = s.offer_prepared(o, pending.attempt_seq, Some(offer), now);
            &&& r is Ok
            &&& adds(
                o,
                o1,
                seq![
                    CallEffect::RegisterAttempt {
                        attempt: pending.attempt_seq,
                        candidate: pending.candidate,
                        action_generation: (s.action_generation + 1) as u64,
                    },
                ],
            )
            &&& t.action_generation == s.action_generation + 1
            &&& t.pending_attempt_candidate is None
            &&& t.pending_attempt_registration matches Some(next) && next.callee_offer == offer
                && next.attempt_seq == pending.attempt_seq && next.candidate == pending.candidate
            &&& t.current_attempt_seq == s.current_attempt_seq
            &&& t.state == s.state
        }),
        ({
            let pending = s.pending_attempt_candidate->Some_0;
            forall|other: u16|
                other != pending.attempt_seq ==> {
                    let (t, o1, r) = #[trigger] s.offer_prepared(o, other, Some(offer), now);
                    r is Ok && o1 == o && t.pending_attempt_registration
                        == s.pending_attempt_registration && t.action_generation
                        == s.action_generation
                }
        }),
{
    reveal(CallCore::offer_prepared);
    reveal(OutboxState::registered);
}

/// An attempt whose setup fails ends the call: the caller is refused with 503.
pub proof fn lemma_failed_setup_refuses_the_caller(
    s: CallCore,
    o: OutboxState,
    attempt: u16,
    now: u64,
)
    requires
        alive(s),
        takes(o, 1),
    ensures
        s.pending_attempt_candidate matches Some(p) && p.attempt_seq == attempt ==> {
            let (t, o1, r) = s.offer_prepared(o, attempt, None, now);
            &&& r is Ok
            &&& adds(
                o,
                o1,
                seq![
                    asks(
                        s,
                        SessionRef::Caller,
                        ActionKind::RejectInboundInvite,
                        ActionLabel::RejectAttemptMedia,
                        ActionBody::Status(503),
                    ),
                    CallEffect::PublishView,
                ],
            )
            &&& setup_failed(s, t, now)
        },
        s.pending_attempt_registration matches Some(p) && p.attempt_seq == attempt ==> {
            let (t, o1, r) = s.attempt_rejected(
                o,
                attempt,
                Some(SessionRef::CalleeAttempt(attempt)),
                now,
            );
            &&& r is Ok
            &&& adds(
                o,
                o1,
                seq![
                    asks(
                        s,
                        SessionRef::Caller,
                        ActionKind::RejectInboundInvite,
                        ActionLabel::RejectAttemptRegistration,
                        ActionBody::Status(503),
                    ),
                    CallEffect::PublishView,
                ],
            )
            &&& setup_failed(s, t, now)
            &&& t.pending_attempt_registration is None
        },
        !(s.pending_attempt_registration matches Some(p) && p.attempt_seq == attempt)
            ==> s.attempt_rejected(o, attempt, Some(SessionRef::CalleeAttempt(attempt)), now) == (
            s,
            o,
            Ok::<(), CallError>(()),
        ),
{
    reveal(CallCore::offer_prepared);
    reveal(CallCore::attempt_rejected);
    reveal(CallCore::retry_setup_failed);
    reveal(CallCore::refused);
    reveal(OutboxState::submitted);
}

pub open spec fn setup_failed(s: CallCore, t: CallCore, now: u64) -> bool {
    &&& t.state is Terminating
    &&& t.last_status == Some(503u16)
    &&& t.hangup_cause == Some(HangupCause::InternalError)
    &&& t.callee_terminated && t.caller_terminated == s.caller_terminated
    &&& armed(t, CallTimerKind::Cleanup, now + s.timeouts.cleanup)
}

/// The least of what a timer would run and what is left of the search.
pub open spec fn within_search(s: CallCore, now: u64, limit: u64, at: int) -> bool {
    &&& now <= at <= now + limit
    &&& s.route_deadline >= now ==> at <= s.route_deadline
    &&& at == now + limit || at == s.route_deadline || (at == now && s.route_deadline < now)
}

/// A registered attempt is rung: it is the current one from now on, it is sent the offer
/// that was made for it, and has until the end of the dialling time, or of the search, to
/// say something. Whatever the attempt before came to is forgotten.
pub proof fn lemma_registered_attempt_is_rung(s: CallCore, o: OutboxState, now: u64)
    requires
        alive(s),
        s.pending_attempt_registration is Some,
        takes(o, 1),
        o.topology.attempt_registered,
    ensures
        ({
            let pending = s.pending_attempt_registration->Some_0;
            let session = SessionRef::CalleeAttempt(pending.attempt_seq);
            let (t, o1, r) = s.attempt_registered(o, pending.attempt_seq, Some(session), now);
            &&& r is Ok
            &&& adds(
                o,
                o1,
                seq![
                    CallEffect::Topology(
                        TopologyChange::AttemptRegistered {
                            attempt: pending.attempt_seq,
                            candidate: pending.candidate,
                        },
                    ),
                    CallEffect::FollowAttempt { attempt: pending.attempt_seq },
                    asks(
                        s,
                        session,
                        ActionKind::Originate,
                        ActionLabel::Originate { attempt: pending.attempt_seq },
                        ActionBody::Originate {
                            candidate: pending.candidate,
                            sdp: pending.callee_offer,
                        },
                    ),
                    CallEffect::PublishView,
                ],
            )
            &&& t.current_attempt_seq == pending.attempt_seq
            &&& t.current_candidate == pending.candidate
            &&& t.pending_attempt_registration is None
            &&& t.last_status is None && t.hangup_cause is None
            &&& t.recording_start_error is None
            &&& !t.callee_terminated && !t.late_answer_cleanup_sent
            &&& t.state == s.state
            &&& t.timers.dial.slot matches Some(slot) && within_search(
                s,
                now,
                s.timeouts.dial,
                slot.deadline as int,
            )
        }),
{
    reveal(CallCore::attempt_registered);
    reveal(OutboxState::submitted);
}

/// An attempt that is registered too late, or under another name, is shut down.
pub proof fn lemma_late_registration_is_shut_down(
    s: CallCore,
    o: OutboxState,
    attempt: u16,
    session: Option<SessionRef>,
    now: u64,
)
    requires
        s.pending_attempt_registration is Some,
        !alive(s) || attempt != s.pending_attempt_registration->Some_0.attempt_seq || session
            != Some(
            SessionRef::CalleeAttempt(s.pending_attempt_registration->Some_0.attempt_seq),
        ),
    ensures
        ({
            let pending = s.pending_attempt_registration->Some_0;
            let (t, o1, r) = s.attempt_registered(o, attempt, session, now);
            &&& r is Ok
            &&& adds(o, o1, seq![CallEffect::ShutdownAttempt { attempt: pending.attempt_seq }])
            &&& t == CallCore { pending_attempt_registration: None, ..s }
        }),
{
    reveal(CallCore::attempt_registered);
}

/// Whether the call ends because its callee did not answer in time.
pub open spec fn timed_out(
    s: CallCore,
    t: CallCore,
    status: u16,
    cause: HangupCause,
    now: u64,
) -> bool {
    &&& t.state is Terminating
    &&& t.last_status == Some(status)
    &&& t.hangup_cause == Some(cause)
    &&& t.caller_terminated == s.caller_terminated && t.callee_terminated == s.callee_terminated
    &&& armed(t, CallTimerKind::Cleanup, now + s.timeouts.cleanup)
}

/// A callee that does not react to being dialled is cancelled and the caller refused with
/// 408; one that rings too long is cancelled and the caller refused with 480. That is where
/// there is nobody else to try.
pub proof fn lemma_unanswered_call_ends_on_both_sides(s: CallCore, o: OutboxState, now: u64)
    requires
        alive(s),
        s.answered_at_ms is None,
        !has_another(s, now),
        s.timeouts.min_attempt_window > 0,
        takes(o, 2),
    ensures
        ({
            let callee = SessionRef::CalleeAttempt(s.current_attempt_seq);
            let (t, o1, r) = s.timer_fired(
                o,
                CallTimerKind::Dial,
                s.timers.dial.generation,
                now,
            );
            &&& r is Ok
            &&& adds(
                o,
                o1,
                seq![
                    asks(
                        s,
                        callee,
                        ActionKind::CancelOutbound,
                        ActionLabel::DialTimeoutCancel,
                        ActionBody::Reason(CancelReason::DialTimeout),
                    ),
                    asks(
                        s,
                        SessionRef::Caller,
                        ActionKind::RejectInboundInvite,
                        ActionLabel::DialTimeoutReject,
                        ActionBody::Status(408),
                    ),
                    CallEffect::PublishView,
                ],
            )
            &&& timed_out(s, t, 408, HangupCause::RecoveryOnTimerExpire, now)
            &&& t.timers.dial.slot is None
        }),
        ({
            let callee = SessionRef::CalleeAttempt(s.current_attempt_seq);
            let (t, o1, r) = s.timer_fired(
                o,
                CallTimerKind::Ring,
                s.timers.ring.generation,
                now,
            );
            &&& r is Ok
            &&& adds(
                o,
                o1,
                seq![
                    asks(
                        s,
                        callee,
                        ActionKind::CancelOutbound,
                        ActionLabel::RingTimeoutCancel,
                        ActionBody::Reason(CancelReason::RingTimeout),
                    ),
                    asks(
                        s,
                        SessionRef::Caller,
                        ActionKind::RejectInboundInvite,
                        ActionLabel::RingTimeoutReject,
                        ActionBody::Status(480),
                    ),
                    CallEffect::PublishView,
                ],
            )
            &&& timed_out(s, t, 480, HangupCause::NoUserResponse, now)
            &&& t.timers.ring.slot is None
        }),
{
    reveal(CallCore::timer_fired);
    reveal(CallCore::unanswered);
    reveal(CallCore::waiting_for_cleanup);
    reveal(CallCore::refused);
    reveal(OutboxState::submitted);
}

/// Where there is somebody else to try, an attempt that was not answered in time is
/// cancelled and the caller hears nothing: the next attempt waits until the cancelled one
/// is gone, for the cleanup time at most.
pub proof fn lemma_unanswered_attempt_makes_room(
    s: CallCore,
    o: OutboxState,
    kind: CallTimerKind,
    now: u64,
)
    requires
        has_another(s, now),
        takes(o, 1),
        !(kind is Cleanup),
    ensures
        ({
            let generation = if kind is Dial {
                s.timers.dial.generation
            } else {
                s.timers.ring.generation
            };
            let status: u16 = if kind is Dial {
                408
            } else {
                480
            };
            let (t, o1, r) = s.timer_fired(o, kind, generation, now);
            &&& r is Ok
            &&& adds(
                o,
                o1,
                seq![
                    asks(
                        s,
                        SessionRef::CalleeAttempt(s.current_attempt_seq),
                        ActionKind::CancelOutbound,
                        ActionLabel::RetryCancel { attempt: s.current_attempt_seq },
                        ActionBody::Reason(CancelReason::SequentialHuntRetry),
                    ),
                    CallEffect::PublishView,
                ],
            )
            &&& t.retry_after_cleanup == Some(status)
            &&& t.last_status == Some(status)
            &&& t.state == s.state
            &&& t.next_candidate == s.next_candidate
            &&& search_stopped(t)
            &&& armed(t, CallTimerKind::Cleanup, now + s.timeouts.cleanup)
        }),
{
    reveal(CallCore::timer_fired);
    reveal(CallCore::unanswered);
    reveal(CallCore::waiting_for_cleanup);
    reveal(OutboxState::submitted);
}

/// When the cleanup of a call has taken too long, every leg that is still there is hung
/// up, and the call ends.
pub proof fn lemma_cleanup_hangs_up_what_is_left(s: CallCore, o: OutboxState, now: u64)
    requires
        !alive(s),
        s.retry_after_cleanup is None,
        takes(o, 2),
    ensures
        ({
            let (t, o1, r) = s.timer_fired(
                o,
                CallTimerKind::Cleanup,
                s.timers.cleanup.generation,
                now,
            );
            let caller = asks(
                s,
                SessionRef::Caller,
                ActionKind::HangupDialog,
                ActionLabel::CleanupHangupCaller,
                ActionBody::Empty,
            );
            let callee = asks(
                s,
                SessionRef::CalleeAttempt(s.current_attempt_seq),
                ActionKind::HangupDialog,
                ActionLabel::CleanupHangupCallee,
                ActionBody::Empty,
            );
            &&& r is Ok
            &&& adds(
                o,
                o1,
                (if s.caller_terminated {
                    Seq::empty()
                } else {
                    seq![caller]
                }) + (if s.callee_terminated {
                    Seq::empty()
                } else {
                    seq![callee]
                }),
            )
            &&& t.finalization_started
            &&& t.hangup_cause is Some
            &&& s.hangup_cause is Some ==> t.hangup_cause == s.hangup_cause
        }),
{
    reveal(CallCore::timer_fired);
    reveal(CallCore::cleanup_over);
    reveal(CallCore::finishing);
    reveal(OutboxState::submitted);
}

/// An attempt that was given up and answers all the same, or does not go away in time, is
/// hung up, and the next candidate is tried.
pub proof fn lemma_given_up_attempt_is_hung_up(
    s: CallCore,
    o: OutboxState,
    sdp: Option<SdpBody>,
    payload_types: Vec<u8>,
    now: u64,
)
    requires
        alive(s),
        s.retry_after_cleanup is Some,
        set![408u16, 480, 500, 502, 503, 504].contains(s.retry_after_cleanup->Some_0),
        s.next_candidate < s.candidate_count,
        s.route_deadline >= now + s.timeouts.min_attempt_window,
        takes(o, 1),
        media_takes(o),
        o.topology.attempt_failed,
        s.current_attempt_seq < u16::MAX,
        s.media_generation < u64::MAX,
    ensures
        ({
            let callee = SessionRef::CalleeAttempt(s.current_attempt_seq);
            let (t, o1, r) = s.callee_answered(o, sdp, payload_types, now);
            &&& r is Ok
            &&& adds(
                o,
                o1,
                seq![
                    asks(
                        s,
                        callee,
                        ActionKind::HangupDialog,
                        ActionLabel::RetryLateAnswerHangup { attempt: s.current_attempt_seq },
                        ActionBody::Empty,
                    ),
                ] + next_attempt_effects(s),
            )
            &&& went_on(s, t)
        }),
        ({
            let callee = SessionRef::CalleeAttempt(s.current_attempt_seq);
            let (t, o1, r) = s.timer_fired(
                o,
                CallTimerKind::Cleanup,
                s.timers.cleanup.generation,
                now,
            );
            &&& r is Ok
            &&& adds(
                o,
                o1,
                seq![
                    asks(
                        s,
                        callee,
                        ActionKind::HangupDialog,
                        ActionLabel::RetryCleanupHangup { attempt: s.current_attempt_seq },
                        ActionBody::Empty,
                    ),
                ] + next_attempt_effects(s),
            )
            &&& went_on(s, t)
        }),
        ({
            let callee = SessionRef::CalleeAttempt(s.current_attempt_seq);
            let (t, o1, r) = s.disconnected(o, Some(callee), None, now);
            &&& r is Ok
            &&& adds(o, o1, next_attempt_effects(s))
            &&& went_on(s, t)
        }),
{
    reveal(CallCore::callee_answered);
    reveal(CallCore::late_answer_retried);
    reveal(CallCore::timer_fired);
    reveal(CallCore::cleanup_forced);
    reveal(CallCore::disconnected);
    reveal(CallCore::attempt_ended);
    reveal(CallCore::given_up);
    reveal(CallCore::next_or_exhausted);
    reveal(CallCore::next_begun);
    reveal(OutboxState::submitted);
    reveal(OutboxState::requested);
}

/// What is asked for when the next candidate's turn comes.
pub open spec fn next_attempt_effects(s: CallCore) -> Seq<CallEffect> {
    seq![
        CallEffect::Topology(
            TopologyChange::AttemptFailed {
                attempt: s.current_attempt_seq,
                cause: cause_of_status(s.retry_after_cleanup->Some_0),
            },
        ),
        CallEffect::Media(
            MediaRequest::PrepareCalleeOffer {
                generation: (s.media_generation + 1) as u64,
                attempt_seq: (s.current_attempt_seq + 1) as u16,
                candidate: s.next_candidate,
            },
        ),
        CallEffect::PublishView,
    ]
}

pub open spec fn went_on(s: CallCore, t: CallCore) -> bool {
    &&& t.retry_after_cleanup is None
    &&& t.callee_terminated
    &&& t.state == s.state
    &&& t.answered_at_ms == s.answered_at_ms
    &&& t.next_candidate == s.next_candidate + 1
    &&& t.last_status == s.retry_after_cleanup
    &&& t.pending_attempt_candidate matches Some(next) && next.candidate == s.next_candidate
    &&& search_stopped(t) && t.timers.cleanup.slot is None
}

} // verus!
