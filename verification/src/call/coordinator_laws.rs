//! What holds of every call, whatever happens to it.

use crate::call::coordinator::{
    next_attempt, AnswerRuling, CallCore, CallError, CallTimerKind, OutboxState, PrepareSdpPurpose,
};
use crate::call::model::{CallState, SdpBody, SessionRef};
use vstd::prelude::*;

verus! {

/// An expiry of a timer that was armed anew or cancelled since changes nothing.
pub proof fn lemma_stale_timer_is_ignored(
    s: CallCore,
    o: OutboxState,
    kind: CallTimerKind,
    generation: u64,
    now: u64,
)
    requires
        s.timers.of(kind).generation != generation,
    ensures
        s.timer_fired(o, kind, generation, now) == (s, o, Ok::<(), CallError>(())),
{
    reveal(CallCore::timer_fired);
}

/// Arming or cancelling a timer makes its earlier expiries stale, as long as the
/// count of its generations can still rise.
pub proof fn lemma_rearmed_timer_is_newer(s: CallCore, kind: CallTimerKind, now: u64)
    requires
        s.timers.of(kind).generation < u64::MAX,
    ensures
        s.timer_cancelled(kind).timers.of(kind).generation > s.timers.of(kind).generation,
        s.timer_started(kind, now).timers.of(kind).generation > s.timers.of(kind).generation,
{
}

/// A call ends once: ending it again does nothing.
pub proof fn lemma_call_finishes_once(s: CallCore)
    ensures
        s.finishing().finalization_started,
        s.finishing().finishing() == s.finishing(),
{
    reveal(CallCore::finishing);
}

/// Each candidate is tried at most once, in order, and each attempt has the next
/// number: beginning an attempt uses up the next candidate, and nothing begins
/// once none is left.
pub proof fn lemma_candidates_are_tried_in_turn(
    s: CallCore,
    o: OutboxState,
    status: u16,
    now: u64,
)
    requires
        s.wf(),
    ensures
        s.next_candidate == s.candidate_count ==> s.next_begun(o, status, now) == (
            s,
            o,
            Ok::<bool, CallError>(false),
        ),
        s.next_begun(o, status, now).2 == Ok::<bool, CallError>(true) ==> {
            let t = s.next_begun(o, status, now).0;
            &&& t.next_candidate == s.next_candidate + 1
            &&& t.pending_attempt_candidate matches Some(p)
            &&& p.candidate == s.next_candidate
            &&& p.attempt_seq == next_attempt(s.current_attempt_seq)
        },
        s.next_begun(o, status, now).2 == Ok::<bool, CallError>(false) ==> s.next_begun(
            o,
            status,
            now,
        ).0 == s,
{
    reveal(CallCore::next_begun);
}

/// No other candidate is tried once the call was answered or is ending.
pub proof fn lemma_no_retry_after_answer_or_end(s: CallCore, status: u16, now: u64)
    requires
        s.answered() || s.terminating(),
    ensures
        !s.can_retry(status, now),
{
}

/// The search for the callee never outlives its budget by a new attempt: without
/// the least window left nothing is begun.
pub proof fn lemma_no_attempt_beyond_budget(s: CallCore, o: OutboxState, status: u16, now: u64)
    requires
        s.budget(now) < s.timeouts.min_attempt_window,
    ensures
        !s.can_retry(status, now),
        s.next_begun(o, status, now) == (s, o, Ok::<bool, CallError>(false)),
{
    reveal(CallCore::next_begun);
}

/// The dial and ring timers never run past the end of the search.
pub proof fn lemma_timers_end_with_the_search(s: CallCore, now: u64)
    requires
        now <= s.route_deadline,
    ensures
        s.timer_deadline(CallTimerKind::Dial, now) <= s.route_deadline,
        s.timer_deadline(CallTimerKind::Ring, now) <= s.route_deadline,
{
}

/// What the media worker made for an earlier state of the call changes nothing.
pub proof fn lemma_stale_media_result_is_ignored(
    s: CallCore,
    o: OutboxState,
    generation: u64,
    purpose: PrepareSdpPurpose,
    prepared: Option<SdpBody>,
    error: Option<String>,
    now: u64,
)
    requires
        generation != s.media_generation,
    ensures
        s.sdp_prepared(o, generation, purpose, prepared, now) == (s, o, Ok::<(), CallError>(())),
        s.answer_media_started(o, generation, error, now) == (s, o, Ok::<(), CallError>(())),
{
    reveal(CallCore::sdp_prepared);
    reveal(CallCore::answer_media_started);
}

/// A queue that refuses an action ends the call, with a cause.
pub proof fn lemma_refusing_queue_ends_call(s: CallCore, error: CallError)
    ensures
        s.processed(Err(error)).0.finalization_started,
        s.processed(Err(error)).0.hangup_cause is Some,
        s.processed(Err(error)).1,
{
    reveal(CallCore::processed);
    reveal(CallCore::finishing);
}

/// Only a confirmed answer makes a call answered, and it says when.
pub proof fn lemma_confirmed_answer_connects(
    s: CallCore,
    o: OutboxState,
    current: bool,
    recording: bool,
    ai: bool,
    now_ms: u64,
    now: u64,
)
    requires
        !s.answered(),
    ensures
        s.answer_confirmed(o, current, recording, ai, now_ms, now).0.answered() ==> current
            && s.pending_answer is Some && !s.terminating(),
        s.answer_confirmed(o, false, recording, ai, now_ms, now).0.answered() == false,
        current && s.pending_answer is Some && !s.terminating()
            && s.deferred_callee_disconnect is None && o.topology.answered
            == AnswerRuling::Accepted ==> s.answer_confirmed(
            o,
            current,
            recording,
            ai,
            now_ms,
            now,
        ).0.answered_at_ms == Some(now_ms),
{
    reveal(CallCore::answer_confirmed);
}

/// A step that asks for a change of the topology that is refused stops there: nothing is
/// sent, and of the call only what comes before the change is different. Its status, its
/// timers and its generations are as they were.
pub proof fn lemma_refused_change_stops_the_step(
    s: CallCore,
    o: OutboxState,
    status: u16,
    attempt: u16,
    session: Option<SessionRef>,
    recording: bool,
    ai: bool,
    generation: u64,
    recording_error: Option<String>,
    now_ms: u64,
    now: u64,
)
    ensures
        !o.topology.attempt_failed && s.next_begun(o, status, now).2 is Err ==> s.next_begun(
            o,
            status,
            now,
        ) == (
            CallCore { next_candidate: (s.next_candidate + 1) as usize, ..s },
            o,
            Err::<bool, CallError>(CallError::TopologyRefused),
        ),
        !o.topology.attempt_failed ==> s.next_begun(o, status, now).2 != Ok::<bool, CallError>(true),
        !o.topology.attempt_registered && s.attempt_registered(o, attempt, session, now).2 is Err
            ==> s.attempt_registered(o, attempt, session, now) == (
            CallCore { pending_attempt_registration: None, ..s },
            o,
            Err::<(), CallError>(CallError::TopologyRefused),
        ),
        o.topology.answered != AnswerRuling::Accepted && s.pending_answer is Some
            && !s.terminating() ==> s.answer_confirmed(o, true, recording, ai, now_ms, now) == (
            CallCore {
                pending_answer: None,
                state: CallState::Connected,
                answered_at_ms: if o.topology.answered == AnswerRuling::BridgeRefused {
                    Some(now_ms)
                } else {
                    s.answered_at_ms
                },
                ..s
            },
            o,
            Err::<(), CallError>(CallError::TopologyRefused),
        ),
        !o.topology.bridge_active && s.has_bridge && generation == s.media_generation
            ==> s.answer_media_started(o, generation, recording_error, now_ms) == (
            CallCore {
                recording_start_error: match recording_error {
                    Some(error) => Some(error),
                    None => s.recording_start_error,
                },
                ..s
            },
            o,
            Err::<(), CallError>(CallError::TopologyRefused),
        ),
{
    reveal(CallCore::next_begun);
    reveal(CallCore::attempt_registered);
    reveal(CallCore::answer_confirmed);
    reveal(CallCore::answer_media_started);
}

/// When both legs are gone the call ends.
pub proof fn lemma_call_ends_with_its_legs(s: CallCore)
    requires
        s.caller_terminated && s.callee_terminated,
        !s.finalized,
    ensures
        s.processed(Ok(())).0.finalization_started,
{
    reveal(CallCore::processed);
    reveal(CallCore::finishing);
}

} // verus!
