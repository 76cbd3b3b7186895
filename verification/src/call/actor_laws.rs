//! What holds of the owner of a call, whatever comes in.

use crate::call::action::ActionIdentity;
use crate::call::actor::{ActorState, CallPlan, ControlMessage, ControlSource};
use crate::call::coordinator::{CallEffect, OutboxState, TopologyChange};
use crate::call::dtmf::{DigitEvent, DtmfSourceDecision};
use crate::call::event::{CallActionAck, CallLegEvent};
use crate::call::model::SessionRef;
use crate::text::opt_text;
use vstd::prelude::*;

verus! {

/// Once a call is being finalized, nothing but the end of that changes it.
pub proof fn lemma_finalization_shuts_the_door(
    s: ActorState,
    p: CallPlan,
    o: OutboxState,
    message: ControlMessage,
    source: ControlSource,
    now_ms: u64,
    now: u64,
)
    requires
        s.core.finalization_started,
        !(message is CallFinalized),
    ensures
        s.controlled(p, o, message, source, now_ms, now) == (s, o, true),
{
}

/// The owner stops when its call is finalized, and is told so only once.
pub proof fn lemma_finalized_call_stops(
    s: ActorState,
    p: CallPlan,
    o: OutboxState,
    source: ControlSource,
    now_ms: u64,
    now: u64,
)
    ensures
        !s.controlled(p, o, ControlMessage::CallFinalized, source, now_ms, now).2,
        s.controlled(p, o, ControlMessage::CallFinalized, source, now_ms, now).1 == o,
{
}

/// An event of the caller's leg that was taken before changes nothing, and nor does
/// one of another call.
pub proof fn lemma_repeated_leg_event_is_ignored(
    s: ActorState,
    p: CallPlan,
    o: OutboxState,
    frame: Seq<char>,
    event: CallLegEvent,
    now: u64,
)
    requires
        !s.leg_event_counts(p, event),
    ensures
        s.caller_leg(p, o, frame, event, now) == (s, o, Ok::<(), crate::call::coordinator::CallError>(
            (),
        )),
{
    reveal(ActorState::caller_leg);
}

/// An event of an attempt that is no longer the current one changes nothing.
pub proof fn lemma_event_of_old_attempt_is_ignored(
    s: ActorState,
    p: CallPlan,
    o: OutboxState,
    frame: Seq<char>,
    event: CallLegEvent,
    payload_types: Vec<u8>,
    attempt: u16,
    now: u64,
)
    requires
        attempt != s.core.current_attempt_seq,
        opt_text(event.session_id) == Some(p.name(SessionRef::CalleeAttempt(attempt))),
    ensures
        s.peer_leg(p, o, frame, event, payload_types, now) == (s, o, Ok::<
            (),
            crate::call::coordinator::CallError,
        >(())),
{
    reveal(ActorState::peer_leg);
    if p.name(s.core.callee()) == p.name(SessionRef::CalleeAttempt(attempt)) {
        crate::call::model::lemma_sessions_named_apart(
            p.call_id@,
            s.core.callee(),
            SessionRef::CalleeAttempt(attempt),
        );
    }
}

/// The result of an action counts once: the second time it changes nothing,
/// whether it is an acceptance or a rejection.
pub proof fn lemma_action_result_counts_once(
    s: ActorState,
    p: CallPlan,
    o: OutboxState,
    ack: CallActionAck,
    now_ms: u64,
    now: u64,
)
    requires
        s.completed.contains((ack.action_id@, ack.generation)),
    ensures
        s.action_acked(p, o, ack, now_ms, now) == (s, o, Ok::<
            (),
            crate::call::coordinator::CallError,
        >(())),
{
    reveal(ActorState::action_acked);
    reveal(ActorState::action_failure);
}

/// A result of another generation, session or call changes nothing.
pub proof fn lemma_stale_action_result_is_ignored(
    s: ActorState,
    p: CallPlan,
    o: OutboxState,
    identity: ActionIdentity,
    now: u64,
)
    requires
        !s.result_is_current(p, identity),
    ensures
        s.action_failure(p, o, identity, false, now) == (s, o, Ok::<
            (),
            crate::call::coordinator::CallError,
        >(())),
{
    reveal(ActorState::action_failure);
}

/// A digit that the arbitration of its source rejects is neither collected nor
/// handed on.
pub proof fn lemma_rejected_digit_goes_nowhere(
    s: ActorState,
    p: CallPlan,
    o: OutboxState,
    event: DigitEvent,
    now: u64,
)
    requires
        s.source.decision(event) != DtmfSourceDecision::Accepted,
    ensures
        s.source_digit(p, o, event, now).1 == o,
        s.source_digit(p, o, event, now).0.collection == s.collection,
        s.source_digit(p, o, event, now).0.router == s.router,
        s.source_digit(p, o, event, now).0.core == s.core,
{
    reveal(ActorState::source_digit);
}

/// When a call ends, no collection of digits is left, its topology is released and its
/// record is due, in this order and once.
pub proof fn lemma_end_of_call_ends_collections(s: ActorState, o: OutboxState)
    requires
        s.core.finalization_started,
    ensures
        s.settled(false, o).0.collection.collectors.len() == 0,
        s.settled(false, o).0.collection.timer is None,
        s.settled(false, o).1 == s.collection.aborted(
            o,
            "call_terminated"@,
            s.core.closing_generation,
        ).1.with(CallEffect::Topology(TopologyChange::Released)).with(CallEffect::Finish),
        s.settled(true, o) == (s, o),
{
    reveal(ActorState::settled);
    crate::call::collection::lemma_abort_clears(
        s.collection,
        o,
        "call_terminated"@,
        s.core.closing_generation,
    );
}

} // verus!
