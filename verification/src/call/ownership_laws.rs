//! What holds of sessions, of the ownership of a call, and of the queues and
//! mailboxes in between: who may take a call over, what a registration leaves
//! behind, and that what goes in first comes out first.

use crate::call::actor::ControlMessage;
use crate::call::handoff::{
    beginning, commitment_of, error_name, given_up, names_one, readiness, restored, HandoffFailure,
    HandoffRefusal, HandoffRequestError, HandoffSource, HandoffTarget,
};
use crate::call::mailbox::{
    answers, delivered, CallCoordinatorHandle, Delivery, PendingDispatch, PostboxState,
};
use crate::call::runtime_queue::{BindingState, QueueError, QueueState};
use crate::call::session::{
    submit_code, CoordinatorHandoffError, Mailbox, ManagerState, Owner, SubmitError, Token,
};
use vstd::prelude::*;

verus! {

// ---------------------------------------------------------------------------
// Registrations.

/// A caller's session owns its call from the first generation on: it is reached by
/// its handle and its leg, belongs to the call, and is the one that began it.
pub proof fn lemma_caller_owns_its_call<H>(
    s: ManagerState<H>,
    session: Seq<char>,
    call: Seq<char>,
    leg: Seq<char>,
    handle: H,
    coordinator: CallCoordinatorHandle,
    other_session: Seq<char>,
    other_call: Seq<char>,
    other_leg: Seq<char>,
)
    requires
        other_session != session,
        other_call != call,
        other_leg != leg,
    ensures
        ({
            let t = s.caller_registered(session, call, leg, handle, coordinator);
            &&& t.sessions[session] == handle && t.sessions.contains_key(session)
            &&& t.session_calls[session] == call && t.is_member(session, call)
            &&& t.originators[call] == session && t.originators.contains_key(call)
            &&& t.owners[call] == (Owner { session, generation: 1 }) && t.owners.contains_key(call)
            &&& t.coordinators[call] == coordinator && t.coordinators.contains_key(call)
            &&& t.legs[leg] == session && t.legs.contains_key(leg)
            &&& t.pending == s.pending
            &&& t.sessions.contains_key(other_session) == s.sessions.contains_key(other_session)
            &&& t.session_calls.contains_key(other_session) == s.session_calls.contains_key(
                other_session,
            ) && t.session_calls[other_session] == s.session_calls[other_session]
            &&& t.owners.contains_key(other_call) == s.owners.contains_key(other_call)
                && t.owners[other_call] == s.owners[other_call]
            &&& t.originators.contains_key(other_call) == s.originators.contains_key(other_call)
            &&& t.coordinators.contains_key(other_call) == s.coordinators.contains_key(other_call)
            &&& t.legs.contains_key(other_leg) == s.legs.contains_key(other_leg)
                && t.legs[other_leg] == s.legs[other_leg]
        }),
{
}

/// A callee's session belongs to its call and owns nothing.
pub proof fn lemma_callee_joins_its_call<H>(
    s: ManagerState<H>,
    session: Seq<char>,
    call: Seq<char>,
    handle: H,
)
    ensures
        ({
            let t = s.callee_registered(session, call, handle);
            &&& t.is_member(session, call) && t.sessions[session] == handle
            &&& t.owners == s.owners && t.originators == s.originators
            &&& t.coordinators == s.coordinators && t.pending == s.pending && t.legs == s.legs
        }),
{
}

/// A leg that is bound leads to its session, which is reached by no other; legs of
/// other sessions stay.
pub proof fn lemma_session_has_one_leg<H>(
    s: ManagerState<H>,
    session: Seq<char>,
    leg: Seq<char>,
    other: Seq<char>,
)
    requires
        other != leg,
    ensures
        ({
            let t = s.leg_bound(session, leg);
            &&& t.legs.contains_key(leg) && t.legs[leg] == session
            &&& s.legs.contains_key(other) && s.legs[other] == session ==> !t.legs.contains_key(
                other,
            )
            &&& s.legs.contains_key(other) && s.legs[other] != session ==> t.legs.contains_key(
                other,
            ) && t.legs[other] == s.legs[other]
            &&& !s.legs.contains_key(other) ==> !t.legs.contains_key(other)
            &&& t.sessions == s.sessions && t.session_calls == s.session_calls && t.owners
                == s.owners
        }),
{
}

/// A session that leaves takes with it what leads to it and nothing else: other
/// sessions, their legs and handoffs stay, and so does the ownership of the call.
pub proof fn lemma_session_leaves_alone<H>(
    s: ManagerState<H>,
    session: Seq<char>,
    other: Seq<char>,
    leg: Seq<char>,
    call: Seq<char>,
)
    requires
        other != session,
    ensures
        ({
            let t = s.unregistered(session);
            &&& !t.sessions.contains_key(session) && !t.session_calls.contains_key(session)
            &&& t.sessions.contains_key(other) == s.sessions.contains_key(other)
                && t.sessions[other] == s.sessions[other]
            &&& t.session_calls.contains_key(other) == s.session_calls.contains_key(other)
                && t.session_calls[other] == s.session_calls[other]
            &&& s.legs.contains_key(leg) && s.legs[leg] == other ==> t.legs.contains_key(leg)
                && t.legs[leg] == other
            &&& s.pending.contains_key(call) && s.pending[call].source != session
                && s.pending[call].target != session ==> t.pending.contains_key(call)
                && t.pending[call] == s.pending[call]
            &&& t.owners == s.owners && t.originators == s.originators && t.coordinators
                == s.coordinators
        }),
{
}

// ---------------------------------------------------------------------------
// Handoffs.

/// Who may take a call over: another session of the same call, from the owner of
/// now, while no other handoff is under way. The token names both, and the target
/// owns the call one generation later.
pub proof fn lemma_who_may_take_over<H>(
    s: ManagerState<H>,
    call: Seq<char>,
    source: Seq<char>,
    generation: u64,
    target: Seq<char>,
)
    ensures
        s.preparation(call, source, generation, target) is Ok <==> {
            &&& !s.pending.contains_key(call)
            &&& s.owners.contains_key(call)
            &&& s.owners[call].session == source && s.owners[call].generation == generation
            &&& target != source
            &&& s.sessions.contains_key(target)
            &&& s.session_calls.contains_key(target) && s.session_calls[target] == call
            &&& generation < u64::MAX
        },
        s.preparation(call, source, generation, target) matches Ok(token) ==> token.call == call
            && token.source == source && token.target == target && token.source_generation
            == generation && token.target_generation == generation + 1,
{
}

/// What stands in the way of a preparation, the first that does.
pub proof fn lemma_why_a_preparation_fails<H>(
    s: ManagerState<H>,
    call: Seq<char>,
    source: Seq<char>,
    generation: u64,
    target: Seq<char>,
)
    ensures
        ({
            let p = s.preparation(call, source, generation, target);
            let owned = s.owners.contains_key(call) && s.owners[call].session == source
                && s.owners[call].generation == generation;
            &&& s.pending.contains_key(call) <==> p == Err::<Token, _>(
                CoordinatorHandoffError::HandoffInProgress,
            )
            &&& !s.pending.contains_key(call) && !s.owners.contains_key(call) <==> p == Err::<
                Token,
                _,
            >(CoordinatorHandoffError::CallNotFound)
            &&& !s.pending.contains_key(call) && s.owners.contains_key(call) && !owned <==> p
                == Err::<Token, _>(CoordinatorHandoffError::StaleOwner)
            &&& !s.pending.contains_key(call) && owned && (target == source || !s.is_member(
                target,
                call,
            )) <==> p == Err::<Token, _>(CoordinatorHandoffError::InvalidTarget)
            &&& p == Err::<Token, _>(CoordinatorHandoffError::GenerationExhausted) ==> generation
                == u64::MAX
            &&& p != Err::<Token, _>(CoordinatorHandoffError::TokenMismatch)
        }),
{
}

/// What stands in the way of a commit and of its undoing, the first that does.
pub proof fn lemma_why_a_commit_fails<H>(s: ManagerState<H>, token: Token)
    ensures
        ({
            let waits = s.pending.contains_key(token.call) && s.pending[token.call] == token;
            let known = s.owners.contains_key(token.call);
            let from = known && s.owners[token.call].session == token.source
                && s.owners[token.call].generation == token.source_generation;
            let to = known && s.owners[token.call].session == token.target
                && s.owners[token.call].generation == token.target_generation;
            &&& s.commitment(token) is Ok <==> waits && from && s.is_member(
                token.target,
                token.call,
            )
            &&& !waits ==> s.commitment(token) == Err::<Owner, _>(
                CoordinatorHandoffError::TokenMismatch,
            )
            &&& waits && !known ==> s.commitment(token) == Err::<Owner, _>(
                CoordinatorHandoffError::CallNotFound,
            )
            &&& waits && known && !from ==> s.commitment(token) == Err::<Owner, _>(
                CoordinatorHandoffError::StaleOwner,
            )
            &&& waits && from && !s.is_member(token.target, token.call) ==> s.commitment(token)
                == Err::<Owner, _>(CoordinatorHandoffError::InvalidTarget)
            &&& s.rollback(token) is Ok <==> !s.pending.contains_key(token.call) && to
                && s.is_member(token.source, token.call)
            &&& !s.pending.contains_key(token.call) && known && !to ==> s.rollback(token) == Err::<
                Owner,
                _,
            >(CoordinatorHandoffError::StaleOwner)
            &&& s.commitment(token) matches Ok(owner) ==> owner.session == token.target
                && owner.generation == token.target_generation
            &&& s.rollback(token) matches Ok(owner) ==> owner.session == token.source
                && owner.generation == token.source_generation
        }),
{
}

/// A handoff begins where there is room for one, the call is known and can be
/// reached, and the target exists; the token is for the owner of now.
pub proof fn lemma_how_a_handoff_begins<H>(
    s: ManagerState<H>,
    permits: nat,
    call: Seq<char>,
    target: Seq<char>,
)
    ensures
        permits == 0 ==> beginning(s, permits, call, target) == Err::<Token, _>(
            HandoffRefusal::CapacityExhausted,
        ),
        permits > 0 && !s.owners.contains_key(call) ==> beginning(s, permits, call, target)
            == Err::<Token, _>(HandoffRefusal::CallNotFound),
        permits > 0 && s.owners.contains_key(call) && !(s.coordinators.contains_key(call)
            && s.coordinators[call].open()) ==> beginning(s, permits, call, target) == Err::<
            Token,
            _,
        >(HandoffRefusal::SourceUnavailable),
        permits > 0 && s.owners.contains_key(call) && s.coordinators.contains_key(call)
            && s.coordinators[call].open() && !s.sessions.contains_key(target) ==> beginning(
            s,
            permits,
            call,
            target,
        ) == Err::<Token, _>(HandoffRefusal::TargetUnavailable),
        beginning(s, permits, call, target) matches Ok(token) ==> token.source
            == s.owners[call].session && token.source_generation == s.owners[call].generation
            && token.target == target && token.call == call && permits > 0
            && s.coordinators[call].open(),
{
}

/// A coordinator is reached while both its mailboxes are open.
pub proof fn lemma_open_coordinator(handle: CallCoordinatorHandle)
    ensures
        handle.open() <==> handle.control@.open && handle.event@.open,
{
}

/// Both sides have to agree: the owner is the one that the token names, the target
/// is its session and still lives, and both speak of the same call.
pub proof fn lemma_both_sides_have_to_agree(
    token: Token,
    source: HandoffSource,
    target: HandoffTarget,
)
    ensures
        readiness(token, source, target) is Ok <==> {
            &&& target.call_id@ == token.call && target.session_id@ == token.target
                && !target.terminal && target.handle_call_id@ == token.call
            &&& source.call_id@ == token.call && source.owned_session_id@ == token.source
                && source.coordinator_session_id@ == token.source && source.handle_call_id@
                == token.call
            &&& source.coordinator_generation == token.source_generation
        },
        target.terminal || target.call_id@ != token.call || target.session_id@ != token.target
            ==> readiness(token, source, target) == Err::<(), _>(HandoffFailure::TargetUnavailable),
        readiness(token, source, target) is Err ==> readiness(token, source, target) == Err::<(), _>(
            HandoffFailure::TargetUnavailable,
        ) || readiness(token, source, target) == Err::<(), _>(HandoffFailure::PackageMismatch),
{
}

/// A side that is not ready says why, the owner before the target; where both are,
/// the token decides.
pub proof fn lemma_unready_side_stops_the_handoff<H>(
    s: ManagerState<H>,
    token: Token,
    source: Result<HandoffSource, String>,
    target: Result<HandoffTarget, String>,
)
    ensures
        source matches Err(reason) ==> commitment_of(s, token, source, target) == Err::<Owner, _>(
            HandoffFailure::NotReady(reason),
        ),
        source is Ok ==> (target matches Err(reason) ==> commitment_of(s, token, source, target)
            == Err::<Owner, _>(HandoffFailure::NotReady(reason))),
        commitment_of(s, token, source, target) matches Ok(owner) ==> owner.session == token.target
            && owner.generation == token.target_generation && source is Ok && target is Ok
            && readiness(token, source->Ok_0, target->Ok_0) is Ok && s.pending.contains_key(
            token.call,
        ) && s.pending[token.call] == token,
{
}

/// A handoff that is given up is no longer under way, and one that another token
/// began stays; a previous owner is restored exactly where it can be.
pub proof fn lemma_given_up_handoff_is_gone<H>(s: ManagerState<H>, token: Token)
    ensures
        s.pending.contains_key(token.call) && s.pending[token.call] == token ==> !given_up(
            s,
            token,
        ).pending.contains_key(token.call) && given_up(s, token).owners == s.owners,
        s.pending.contains_key(token.call) && s.pending[token.call] != token ==> given_up(s, token)
            == s,
        s.rollback(token) is Ok ==> restored(s, token).owners[token.call] == (Owner {
            session: token.source,
            generation: token.source_generation,
        }),
        s.rollback(token) is Err ==> restored(s, token) == s,
{
}

/// The words for what may go wrong with a handoff.
pub proof fn lemma_words_for_failed_handoffs(error: CoordinatorHandoffError, reason: String)
    ensures
        HandoffRequestError::Unconnected.code()
            == "ADAPTER_UNAVAILABLE: call runtime is not connected"@,
        HandoffRequestError::QueueFull.code()
            == "RESOURCE_EXHAUSTED: coordinator handoff queue is full"@,
        HandoffRequestError::QueueClosed.code()
            == "ADAPTER_UNAVAILABLE: coordinator handoff queue is closed"@,
        HandoffRefusal::CapacityExhausted.code() == "coordinator_handoff_capacity_exhausted"@,
        HandoffRefusal::CallNotFound.code() == "coordinator_handoff_call_not_found"@,
        HandoffRefusal::SourceUnavailable.code() == "coordinator_handoff_source_unavailable"@,
        HandoffRefusal::TargetUnavailable.code() == "coordinator_handoff_target_unavailable"@,
        HandoffRefusal::PrepareFailed(error).code() == "coordinator_handoff_prepare_failed:"@
            + error_name(error),
        HandoffFailure::NotReady(reason).code() == reason@,
        HandoffFailure::Refused(reason).code() == reason@,
        HandoffFailure::TargetUnavailable.code() == "coordinator_handoff_target_unavailable"@,
        HandoffFailure::PackageMismatch.code() == "coordinator_handoff_package_mismatch"@,
        HandoffFailure::GenerationMismatch.code() == "coordinator_handoff_generation_mismatch"@,
        HandoffFailure::CommitFailed(error).code() == "coordinator_handoff_commit_failed:"@
            + error_name(error),
        error_name(CoordinatorHandoffError::CallNotFound) == "CallNotFound"@,
        error_name(CoordinatorHandoffError::HandoffInProgress) == "HandoffInProgress"@,
        error_name(CoordinatorHandoffError::StaleOwner) == "StaleOwner"@,
        error_name(CoordinatorHandoffError::InvalidTarget) == "InvalidTarget"@,
        error_name(CoordinatorHandoffError::GenerationExhausted) == "GenerationExhausted"@,
        error_name(CoordinatorHandoffError::TokenMismatch) == "TokenMismatch"@,
{
}

// ---------------------------------------------------------------------------
// Mailboxes and queues.

/// A mailbox gives back what it was given, the first first: what comes out next is
/// what stood in front, and what is put in stands behind all that wait.
pub proof fn lemma_mailbox_keeps_the_order<T>(s: PostboxState<T>, item: T)
    ensures
        s.open && s.waiting.len() < s.capacity <==> s.submitted(item).1 is Ok,
        !s.open ==> s.submitted(item) == (s, Err::<(), SubmitError>(SubmitError::Closed)),
        s.open && s.waiting.len() >= s.capacity ==> s.submitted(item) == (s, Err::<
            (),
            SubmitError,
        >(SubmitError::Full)),
        s.submitted(item).1 is Ok ==> {
            let t = s.submitted(item).0;
            &&& t.waiting.len() == s.waiting.len() + 1
            &&& t.waiting.last() == item
            &&& s.waiting.is_prefix_of(t.waiting)
            &&& t.capacity == s.capacity && t.open == s.open
        },
        s.taken().1 is None <==> s.waiting.len() == 0,
        s.taken().1 matches Some(first) ==> s.waiting == seq![first] + s.taken().0.waiting
            && s.taken().0.open == s.open && s.taken().0.capacity == s.capacity,
        PostboxState::<T>::fresh(s.capacity).waiting.len() == 0 && PostboxState::<T>::fresh(
            s.capacity,
        ).open && PostboxState::<T>::fresh(s.capacity).capacity == s.capacity,
{
    if s.waiting.len() > 0 {
        assert(s.waiting =~= seq![s.waiting[0]] + s.waiting.drop_first());
    }
}

/// An item put into an empty mailbox is the one that is taken out.
pub proof fn lemma_mailbox_gives_back_what_it_took<T>(s: PostboxState<T>, item: T)
    requires
        s.open,
        s.waiting.len() == 0,
        s.capacity > 0,
    ensures
        s.submitted(item).0.taken().1 == Some(item),
        s.submitted(item).0.taken().0.waiting.len() == 0,
{
}

/// How it is said that a mailbox took nothing.
pub proof fn lemma_words_for_refused_events()
    ensures
        submit_code(Mailbox::Session, SubmitError::Full) == "session_event_mailbox_full"@,
        submit_code(Mailbox::Session, SubmitError::Closed) == "session_gone"@,
        submit_code(Mailbox::Coordinator, SubmitError::Full)
            == "call_coordinator_event_mailbox_full"@,
        submit_code(Mailbox::Coordinator, SubmitError::Closed) == "call_coordinator_gone"@,
{
}

/// The next message is delivered where its mailbox has room, waits where it is full,
/// and is dropped where nobody listens any more.
pub proof fn lemma_what_becomes_of_the_next_message(
    waiting: Seq<PendingDispatch>,
    mailbox: PostboxState<ControlMessage>,
)
    requires
        waiting.len() > 0,
    ensures
        ({
            let (left, filled, outcome) = delivered(waiting, mailbox);
            &&& outcome == Delivery::Delivered <==> mailbox.open && mailbox.waiting.len()
                < mailbox.capacity
            &&& outcome == Delivery::Waiting <==> mailbox.open && mailbox.waiting.len()
                >= mailbox.capacity
            &&& outcome == Delivery::Dropped <==> !mailbox.open
            &&& outcome == Delivery::Delivered ==> filled.waiting == mailbox.waiting.push(
                waiting[0].message,
            ) && left == waiting.drop_first()
            &&& outcome == Delivery::Waiting ==> filled == mailbox && left == waiting
            &&& outcome == Delivery::Dropped ==> filled == mailbox && left == waiting.drop_first()
        }),
        delivered(Seq::empty(), mailbox) == (
            Seq::<PendingDispatch>::empty(),
            mailbox,
            Delivery::Nothing,
        ),
{
}

/// A runtime that attaches finds an empty, open queue under a new generation; what it
/// is offered stands behind what waits, up to the capacity, and without a runtime
/// nothing is taken.
pub proof fn lemma_runtime_queue_takes_what_it_can<T>(s: QueueState<T>, item: T, generation: u64)
    ensures
        s.generation < u64::MAX ==> s.attached().generation == s.generation + 1,
        s.attached().runtime == Some(
            BindingState::<T> {
                generation: s.attached().generation,
                open: true,
                queue: Seq::empty(),
            },
        ),
        s.attached().capacity == s.capacity,
        s.capacity > 0 ==> s.attached().offered(item).1 is Ok,
        s.runtime is None ==> s.offered(item) == (s, Err::<(), QueueError>(
            QueueError::Unconnected,
        )),
        s.runtime matches Some(runtime) ==> {
            &&& !runtime.open ==> s.offered(item).1 == Err::<(), QueueError>(QueueError::Closed)
                && s.offered(item).0.runtime is None
            &&& runtime.open && runtime.queue.len() >= s.capacity ==> s.offered(item) == (s, Err::<
                (),
                QueueError,
            >(QueueError::Full))
            &&& runtime.open && runtime.queue.len() < s.capacity ==> s.offered(item).1 is Ok && (
            s.offered(item).0.runtime matches Some(after) && after.queue == runtime.queue.push(item)
                && after.open && after.generation == runtime.generation)
            &&& runtime.generation == generation ==> s.detached(generation).runtime is None
            &&& runtime.generation != generation ==> s.detached(generation) == s
        },
        s.detached(generation).generation == s.generation,
{
}

/// A name is one of several exactly where it is in the list.
pub proof fn lemma_name_in_a_list(candidates: Seq<String>, name: Seq<char>, i: int)
    ensures
        names_one(candidates, name) <==> candidates.map_values(|c: String| c@).contains(name),
        0 <= i < candidates.len() ==> names_one(candidates, candidates[i]@),
{
    let list = candidates.map_values(|c: String| c@);
    if names_one(candidates, name) {
        let k = choose|k: int| 0 <= k < candidates.len() && (#[trigger] candidates[k])@ == name;
        assert(list[k] == name);
    }
    if list.contains(name) {
        let k = choose|k: int| 0 <= k < list.len() && list[k] == name;
        assert(candidates[k]@ == name);
    }
}

/// A sender is told that its message was taken exactly where it was, and otherwise the
/// code of the mailbox that did not take it.
pub proof fn lemma_senders_are_told(
    mailbox: Mailbox,
    expected: Result<(), SubmitError>,
    result: Result<(), String>,
)
    requires
        answers(mailbox, expected, result),
    ensures
        result is Ok <==> expected is Ok,
        result matches Err(code) ==> (expected matches Err(error) && {
            &&& mailbox is Session && error is Full ==> code@ == "session_event_mailbox_full"@
            &&& mailbox is Session && error is Closed ==> code@ == "session_gone"@
            &&& mailbox is Coordinator && error is Full ==> code@
                == "call_coordinator_event_mailbox_full"@
            &&& mailbox is Coordinator && error is Closed ==> code@ == "call_coordinator_gone"@
        }),
{
}

} // verus!
