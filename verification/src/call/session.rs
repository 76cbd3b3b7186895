//! The sessions of all calls: which exist, which call and which leg they belong
//! to, and which of them owns the coordinator of its call. Ownership moves in two
//! steps, prepare and commit, and can be undone.

use crate::call::mailbox::CallCoordinatorHandle;
use crate::keyed::{text_map, without_value, KeyedMap};
use crate::text::same_text;
use vstd::prelude::*;

verus! {

pub const CONTROL_MAILBOX_CAPACITY: usize = 64;

pub const EVENT_MAILBOX_CAPACITY: usize = 128;

pub const COORDINATOR_CONTROL_MAILBOX_CAPACITY: usize = 128;

pub const COORDINATOR_EVENT_MAILBOX_CAPACITY: usize = 128;

pub const CRITICAL_DISPATCHER_CAPACITY: usize = 50_000;

/// Who owns the coordinator of a call, for the how manieth time, and how it is
/// reached.
pub struct CoordinatorRegistration {
    pub session_id: String,
    pub generation: u64,
    pub handle: CallCoordinatorHandle,
}

/// A mailbox for events.
#[derive(Debug, Clone, Copy, PartialEq, Eq, Structural)]
pub enum Mailbox {
    Session,
    Coordinator,
}

/// Why an event was not taken.
#[derive(Debug, Clone, Copy, PartialEq, Eq, Structural)]
pub enum SubmitError {
    Full,
    Closed,
}

/// How the refusal of an event is reported.
pub open spec fn submit_code(mailbox: Mailbox, error: SubmitError) -> Seq<char> {
    match (mailbox, error) {
        (Mailbox::Session, SubmitError::Full) => "session_event_mailbox_full"@,
        (Mailbox::Session, SubmitError::Closed) => "session_gone"@,
        (Mailbox::Coordinator, SubmitError::Full) => "call_coordinator_event_mailbox_full"@,
        (Mailbox::Coordinator, SubmitError::Closed) => "call_coordinator_gone"@,
    }
}

pub fn submit_error_code(mailbox: Mailbox, error: SubmitError) -> (code: String)
    ensures
        code@ == submit_code(mailbox, error),
{
    match (mailbox, error) {
        (Mailbox::Session, SubmitError::Full) => "session_event_mailbox_full".to_owned(),
        (Mailbox::Session, SubmitError::Closed) => "session_gone".to_owned(),
        (Mailbox::Coordinator, SubmitError::Full) => {
            "call_coordinator_event_mailbox_full".to_owned()
        },
        (Mailbox::Coordinator, SubmitError::Closed) => "call_coordinator_gone".to_owned(),
    }
}

#[derive(Debug, Clone)]
pub struct CoordinatorIdentity {
    pub session_id: String,
    pub generation: u64,
}

pub struct Owner {
    pub session: Seq<char>,
    pub generation: u64,
}

impl CoordinatorIdentity {
    pub open spec fn view(&self) -> Owner {
        Owner { session: self.session_id@, generation: self.generation }
    }
}

/// The permission to move the coordinator of a call from one session to another.
#[derive(Debug, Clone)]
pub struct CoordinatorHandoffToken {
    pub call_id: String,
    pub source_session_id: String,
    pub target_session_id: String,
    pub source_generation: u64,
    pub target_generation: u64,
}

pub struct Token {
    pub call: Seq<char>,
    pub source: Seq<char>,
    pub target: Seq<char>,
    pub source_generation: u64,
    pub target_generation: u64,
}

impl CoordinatorHandoffToken {
    pub open spec fn view(&self) -> Token {
        Token {
            call: self.call_id@,
            source: self.source_session_id@,
            target: self.target_session_id@,
            source_generation: self.source_generation,
            target_generation: self.target_generation,
        }
    }

    pub fn same(&self, other: &Self) -> (same: bool)
        ensures
            same == (self@ == other@),
    {
        self.call_id.eq(&other.call_id) && self.source_session_id.eq(&other.source_session_id)
            && self.target_session_id.eq(&other.target_session_id) && self.source_generation
            == other.source_generation && self.target_generation == other.target_generation
    }

    pub fn copy(&self) -> (token: Self)
        ensures
            token == *self,
    {
        CoordinatorHandoffToken {
            call_id: self.call_id.clone(),
            source_session_id: self.source_session_id.clone(),
            target_session_id: self.target_session_id.clone(),
            source_generation: self.source_generation,
            target_generation: self.target_generation,
        }
    }
}

#[derive(Debug, Clone, Copy, PartialEq, Eq, Structural)]
pub enum CoordinatorHandoffError {
    CallNotFound,
    HandoffInProgress,
    StaleOwner,
    InvalidTarget,
    GenerationExhausted,
    TokenMismatch,
}

/// What is known of all sessions.
#[verifier::ext_equal]
#[verifier::reject_recursive_types(H)]
pub struct ManagerState<H> {
    pub sessions: Map<Seq<char>, H>,
    pub session_calls: Map<Seq<char>, Seq<char>>,
    pub originators: Map<Seq<char>, Seq<char>>,
    pub owners: Map<Seq<char>, Owner>,
    pub coordinators: Map<Seq<char>, CallCoordinatorHandle>,
    pub pending: Map<Seq<char>, Token>,
    pub legs: Map<Seq<char>, Seq<char>>,
}

/// The sessions that belong to a call.
pub open spec fn members(session_calls: Map<Seq<char>, Seq<char>>, call: Seq<char>) -> Set<Seq<char>> {
    Set::new(|session: Seq<char>| session_calls.contains_key(session) && session_calls[session] == call)
}

impl<H> ManagerState<H> {
    /// Whether a session exists and belongs to the call.
    pub open spec fn is_member(self, session: Seq<char>, call: Seq<char>) -> bool {
        self.sessions.contains_key(session) && self.session_calls.contains_key(session)
            && self.session_calls[session] == call
    }

    /// Whether the coordinator of a call still takes what it is sent.
    pub open spec fn reachable(self, call: Seq<char>) -> bool {
        self.coordinators.contains_key(call) && self.coordinators[call].open()
    }

    /// What the preparation of a handoff is answered.
    pub open spec fn preparation(
        self,
        call: Seq<char>,
        source: Seq<char>,
        generation: u64,
        target: Seq<char>,
    ) -> Result<Token, CoordinatorHandoffError> {
        if self.pending.contains_key(call) {
            Err(CoordinatorHandoffError::HandoffInProgress)
        } else if !self.owners.contains_key(call) {
            Err(CoordinatorHandoffError::CallNotFound)
        } else if self.owners[call] != (Owner { session: source, generation }) {
            Err(CoordinatorHandoffError::StaleOwner)
        } else if target == source || !self.is_member(target, call) {
            Err(CoordinatorHandoffError::InvalidTarget)
        } else if generation == u64::MAX {
            Err(CoordinatorHandoffError::GenerationExhausted)
        } else {
            Ok(
                Token {
                    call,
                    source,
                    target,
                    source_generation: generation,
                    target_generation: (generation + 1) as u64,
                },
            )
        }
    }

    pub open spec fn prepared(self, token: Token) -> Self {
        ManagerState { pending: self.pending.insert(token.call, token), ..self }
    }

    /// What the commit of a handoff is answered.
    pub open spec fn commitment(self, token: Token) -> Result<Owner, CoordinatorHandoffError> {
        if !self.pending.contains_key(token.call) || self.pending[token.call] != token {
            Err(CoordinatorHandoffError::TokenMismatch)
        } else if !self.owners.contains_key(token.call) {
            Err(CoordinatorHandoffError::CallNotFound)
        } else if self.owners[token.call] != (Owner {
            session: token.source,
            generation: token.source_generation,
        }) {
            Err(CoordinatorHandoffError::StaleOwner)
        } else if !self.is_member(token.target, token.call) {
            Err(CoordinatorHandoffError::InvalidTarget)
        } else {
            Ok(Owner { session: token.target, generation: token.target_generation })
        }
    }

    pub open spec fn committed(self, token: Token) -> Self {
        ManagerState {
            owners: self.owners.insert(
                token.call,
                Owner { session: token.target, generation: token.target_generation },
            ),
            pending: self.pending.remove(token.call),
            ..self
        }
    }

    /// What the undoing of a committed handoff is answered.
    pub open spec fn rollback(self, token: Token) -> Result<Owner, CoordinatorHandoffError> {
        if self.pending.contains_key(token.call) {
            Err(CoordinatorHandoffError::HandoffInProgress)
        } else if !self.owners.contains_key(token.call) {
            Err(CoordinatorHandoffError::CallNotFound)
        } else if self.owners[token.call] != (Owner {
            session: token.target,
            generation: token.target_generation,
        }) {
            Err(CoordinatorHandoffError::StaleOwner)
        } else if !self.is_member(token.source, token.call) {
            Err(CoordinatorHandoffError::InvalidTarget)
        } else {
            Ok(Owner { session: token.source, generation: token.source_generation })
        }
    }

    pub open spec fn rolled_back(self, token: Token) -> Self {
        ManagerState {
            owners: self.owners.insert(
                token.call,
                Owner { session: token.source, generation: token.source_generation },
            ),
            ..self
        }
    }

    pub open spec fn caller_registered(
        self,
        session: Seq<char>,
        call: Seq<char>,
        leg: Seq<char>,
        handle: H,
        coordinator: CallCoordinatorHandle,
    ) -> Self {
        ManagerState {
            sessions: self.sessions.insert(session, handle),
            session_calls: self.session_calls.insert(session, call),
            originators: self.originators.insert(call, session),
            owners: self.owners.insert(call, Owner { session, generation: 1 }),
            coordinators: self.coordinators.insert(call, coordinator),
            legs: self.legs.insert(leg, session),
            ..self
        }
    }

    pub open spec fn callee_registered(self, session: Seq<char>, call: Seq<char>, handle: H) -> Self {
        ManagerState {
            sessions: self.sessions.insert(session, handle),
            session_calls: self.session_calls.insert(session, call),
            ..self
        }
    }

    /// A session has one leg.
    pub open spec fn leg_bound(self, session: Seq<char>, leg: Seq<char>) -> Self {
        ManagerState { legs: without_value(self.legs, session).insert(leg, session), ..self }
    }

    /// A session is gone, and with it every handoff it had a part in.
    pub open spec fn unregistered(self, session: Seq<char>) -> Self {
        ManagerState {
            sessions: self.sessions.remove(session),
            session_calls: self.session_calls.remove(session),
            pending: Map::new(
                |call: Seq<char>|
                    self.pending.contains_key(call) && self.pending[call].source != session
                        && self.pending[call].target != session,
                |call: Seq<char>| self.pending[call],
            ),
            legs: without_value(self.legs, session),
            ..self
        }
    }

    /// A call is gone, with all its sessions and their legs.
    pub open spec fn destroyed(self, call: Seq<char>) -> Self {
        let gone = members(self.session_calls, call);
        ManagerState {
            sessions: Map::new(
                |session: Seq<char>| self.sessions.contains_key(session) && !gone.contains(session),
                |session: Seq<char>| self.sessions[session],
            ),
            session_calls: Map::new(
                |session: Seq<char>|
                    self.session_calls.contains_key(session) && !gone.contains(session),
                |session: Seq<char>| self.session_calls[session],
            ),
            originators: self.originators.remove(call),
            owners: self.owners.remove(call),
            coordinators: self.coordinators.remove(call),
            pending: self.pending.remove(call),
            legs: Map::new(
                |leg: Seq<char>| self.legs.contains_key(leg) && !gone.contains(self.legs[leg]),
                |leg: Seq<char>| self.legs[leg],
            ),
        }
    }
}

/// Preparing a handoff moves nothing, and aborting it leaves everything as it
/// was.
pub proof fn lemma_abort_undoes_prepare<H>(
    s: ManagerState<H>,
    call: Seq<char>,
    source: Seq<char>,
    generation: u64,
    target: Seq<char>,
)
    requires
        s.preparation(call, source, generation, target) is Ok,
    ensures
        ({
            let token = s.preparation(call, source, generation, target)->Ok_0;
            let p = s.prepared(token);
            &&& p.owners == s.owners
            &&& p.pending[call] == token
            &&& ManagerState { pending: p.pending.remove(call), ..p } == s
        }),
{
    let token = s.preparation(call, source, generation, target)->Ok_0;
    let p = s.prepared(token);
    assert(p.pending.remove(call) =~= s.pending);
}

/// A prepared handoff whose sessions are still there can be committed; the
/// generation then rises by one and the target owns the coordinator.
pub proof fn lemma_prepared_handoff_commits<H>(
    s: ManagerState<H>,
    call: Seq<char>,
    source: Seq<char>,
    generation: u64,
    target: Seq<char>,
)
    requires
        s.preparation(call, source, generation, target) is Ok,
    ensures
        ({
            let token = s.preparation(call, source, generation, target)->Ok_0;
            &&& s.prepared(token).commitment(token) == Ok::<Owner, CoordinatorHandoffError>(
                Owner { session: target, generation: (generation + 1) as u64 },
            )
            &&& s.prepared(token).committed(token).owners[call] == (Owner {
                session: target,
                generation: (generation + 1) as u64,
            })
            &&& !s.prepared(token).committed(token).pending.contains_key(call)
        }),
{
}

/// Undoing a committed handoff gives back exactly what was there before it.
pub proof fn lemma_rollback_undoes_commit<H>(
    s: ManagerState<H>,
    call: Seq<char>,
    source: Seq<char>,
    generation: u64,
    target: Seq<char>,
)
    requires
        s.preparation(call, source, generation, target) is Ok,
        s.is_member(source, call),
    ensures
        ({
            let token = s.preparation(call, source, generation, target)->Ok_0;
            let done = s.prepared(token).committed(token);
            &&& done.rollback(token) is Ok
            &&& done.rolled_back(token) == s
        }),
{
    let token = s.preparation(call, source, generation, target)->Ok_0;
    let back = s.prepared(token).committed(token).rolled_back(token);
    assert(back.owners =~= s.owners);
    assert(back.pending =~= s.pending);
    assert(back =~= s);
}

/// The coordinator of a call is reached in the same way throughout a handoff, and what
/// waits in its mailboxes stays there.
pub proof fn lemma_handoff_keeps_the_coordinator<H>(s: ManagerState<H>, token: Token)
    ensures
        s.prepared(token).coordinators == s.coordinators,
        s.committed(token).coordinators == s.coordinators,
        s.rolled_back(token).coordinators == s.coordinators,
        s.unregistered(token.source).coordinators == s.coordinators,
{
}

/// Nothing is committed without having been prepared, and only the token that was
/// handed out counts.
pub proof fn lemma_commit_needs_prepare<H>(s: ManagerState<H>, token: Token)
    requires
        s.commitment(token) is Ok,
    ensures
        s.pending.contains_key(token.call),
        s.pending[token.call] == token,
{
}

/// While one handoff of a call is under way there is no other.
pub proof fn lemma_one_handoff_at_a_time<H>(
    s: ManagerState<H>,
    token: Token,
    source: Seq<char>,
    generation: u64,
    target: Seq<char>,
)
    ensures
        s.prepared(token).preparation(token.call, source, generation, target) == Err::<
            Token,
            CoordinatorHandoffError,
        >(CoordinatorHandoffError::HandoffInProgress),
        s.prepared(token).rollback(token) == Err::<Owner, CoordinatorHandoffError>(
            CoordinatorHandoffError::HandoffInProgress,
        ),
{
}

/// A session that is gone takes its handoffs with it: they cannot be committed.
pub proof fn lemma_gone_session_ends_handoff<H>(s: ManagerState<H>, token: Token, session: Seq<char>)
    requires
        session == token.source || session == token.target,
    ensures
        s.unregistered(session).commitment(token) == Err::<Owner, CoordinatorHandoffError>(
            CoordinatorHandoffError::TokenMismatch,
        ),
        !s.unregistered(session).sessions.contains_key(session),
        forall|leg: Seq<char>|
            #[trigger] s.unregistered(session).legs.contains_key(leg) ==> s.unregistered(
                session,
            ).legs[leg] != session,
{
}

/// After a call was destroyed nothing of it is left, and other calls keep what
/// they have.
pub proof fn lemma_destroyed_call_leaves_nothing<H>(
    s: ManagerState<H>,
    call: Seq<char>,
    session: Seq<char>,
    other: Seq<char>,
)
    requires
        other != call,
    ensures
        !s.destroyed(call).is_member(session, call),
        s.is_member(session, call) ==> !s.destroyed(call).sessions.contains_key(session),
        !s.destroyed(call).owners.contains_key(call),
        !s.destroyed(call).originators.contains_key(call),
        !s.destroyed(call).coordinators.contains_key(call),
        !s.destroyed(call).pending.contains_key(call),
        forall|leg: Seq<char>|
            #[trigger] s.destroyed(call).legs.contains_key(leg) ==> !members(
                s.session_calls,
                call,
            ).contains(s.destroyed(call).legs[leg]),
        s.is_member(session, other) ==> s.destroyed(call).is_member(session, other),
        s.is_member(session, other) && s.sessions.contains_key(session) ==> s.destroyed(
            call,
        ).sessions.contains_key(session) && s.destroyed(call).sessions[session]
            == s.sessions[session],
        forall|leg: Seq<char>|
            #[trigger] s.legs.contains_key(leg) && !members(s.session_calls, call).contains(
                s.legs[leg],
            ) ==> s.destroyed(call).legs.contains_key(leg) && s.destroyed(call).legs[leg] == s.legs[leg],
        s.originators.contains_key(other) ==> s.destroyed(call).originators.contains_key(other)
            && s.destroyed(call).originators[other] == s.originators[other],
        s.coordinators.contains_key(other) ==> s.destroyed(call).coordinators.contains_key(other)
            && s.destroyed(call).coordinators[other] == s.coordinators[other],
        s.pending.contains_key(other) ==> s.destroyed(call).pending.contains_key(other)
            && s.destroyed(call).pending[other] == s.pending[other],
        s.owners.contains_key(other) ==> s.destroyed(call).owners.contains_key(other) && s.destroyed(
            call,
        ).owners[other] == s.owners[other],
{
}

/// The registry of sessions. `H` is how a session is reached.
#[verifier::reject_recursive_types(H)]
pub struct SessionManager<H> {
    pub sessions: KeyedMap<H>,
    pub session_calls: KeyedMap<String>,
    pub call_originators: KeyedMap<String>,
    pub call_coordinators: KeyedMap<CoordinatorRegistration>,
    pub pending_coordinator_handoffs: KeyedMap<CoordinatorHandoffToken>,
    pub leg_sessions: KeyedMap<String>,
}

pub open spec fn owner_map(map: Map<Seq<char>, CoordinatorRegistration>) -> Map<Seq<char>, Owner> {
    map.map_values(
        |r: CoordinatorRegistration| Owner { session: r.session_id@, generation: r.generation },
    )
}

pub open spec fn handle_map(map: Map<Seq<char>, CoordinatorRegistration>) -> Map<
    Seq<char>,
    CallCoordinatorHandle,
> {
    map.map_values(|r: CoordinatorRegistration| r.handle)
}

pub open spec fn token_map(map: Map<Seq<char>, CoordinatorHandoffToken>) -> Map<Seq<char>, Token> {
    map.map_values(|t: CoordinatorHandoffToken| t@)
}

impl<H> SessionManager<H> {
    pub open spec fn view(&self) -> ManagerState<H> {
        ManagerState {
            sessions: self.sessions@,
            session_calls: text_map(self.session_calls@),
            originators: text_map(self.call_originators@),
            owners: owner_map(self.call_coordinators@),
            coordinators: handle_map(self.call_coordinators@),
            pending: token_map(self.pending_coordinator_handoffs@),
            legs: text_map(self.leg_sessions@),
        }
    }

    pub open spec fn wf(self) -> bool {
        &&& self.sessions.wf()
        &&& self.session_calls.wf()
        &&& self.call_originators.wf()
        &&& self.call_coordinators.wf()
        &&& self.pending_coordinator_handoffs.wf()
        &&& self.leg_sessions.wf()
    }

    pub fn new() -> (manager: Self)
        ensures
            manager.wf(),
            manager@ == (ManagerState::<H> {
                sessions: Map::empty(),
                session_calls: Map::empty(),
                originators: Map::empty(),
                owners: Map::empty(),
                coordinators: Map::empty(),
                pending: Map::empty(),
                legs: Map::empty(),
            }),
    {
        let manager = SessionManager {
            sessions: KeyedMap::new(),
            session_calls: KeyedMap::new(),
            call_originators: KeyedMap::new(),
            call_coordinators: KeyedMap::new(),
            pending_coordinator_handoffs: KeyedMap::new(),
            leg_sessions: KeyedMap::new(),
        };
        assert(manager@ =~= (ManagerState::<H> {
            sessions: Map::empty(),
            session_calls: Map::empty(),
            originators: Map::empty(),
            owners: Map::empty(),
            coordinators: Map::empty(),
            pending: Map::empty(),
            legs: Map::empty(),
        }));
        manager
    }

    pub fn register_caller(
        &mut self,
        session_id: &str,
        call_id: &str,
        adapter_call_leg_id: &str,
        handle: H,
        coordinator: CallCoordinatorHandle,
    )
        requires
            old(self).wf(),
        ensures
            final(self).wf(),
            final(self)@ == old(self)@.caller_registered(
                session_id@,
                call_id@,
                adapter_call_leg_id@,
                handle,
                coordinator,
            ),
    {
        self.sessions.insert(session_id.to_owned(), handle);
        self.session_calls.insert(session_id.to_owned(), call_id.to_owned());
        self.call_originators.insert(call_id.to_owned(), session_id.to_owned());
        self.call_coordinators.insert(
            call_id.to_owned(),
            CoordinatorRegistration {
                session_id: session_id.to_owned(),
                generation: 1,
                handle: coordinator,
            },
        );
        self.leg_sessions.insert(adapter_call_leg_id.to_owned(), session_id.to_owned());
        assert(self@ =~= old(self)@.caller_registered(
            session_id@,
            call_id@,
            adapter_call_leg_id@,
            handle,
            coordinator,
        ));
    }

    pub fn register_callee(&mut self, session_id: &str, call_id: &str, handle: H)
        requires
            old(self).wf(),
        ensures
            final(self).wf(),
            final(self)@ == old(self)@.callee_registered(session_id@, call_id@, handle),
    {
        self.sessions.insert(session_id.to_owned(), handle);
        self.session_calls.insert(session_id.to_owned(), call_id.to_owned());
        assert(self@ =~= old(self)@.callee_registered(session_id@, call_id@, handle));
    }

    pub fn bind_adapter_leg(&mut self, session_id: &str, adapter_call_leg_id: &str) -> (bound: bool)
        requires
            old(self).wf(),
        ensures
            final(self).wf(),
            bound == old(self)@.sessions.contains_key(session_id@),
            final(self)@ == (if bound {
                old(self)@.leg_bound(session_id@, adapter_call_leg_id@)
            } else {
                old(self)@
            }),
    {
        if !self.sessions.contains(session_id) {
            return false;
        }
        self.leg_sessions.remove_value(session_id);
        self.leg_sessions.insert(adapter_call_leg_id.to_owned(), session_id.to_owned());
        assert(self@ =~= old(self)@.leg_bound(session_id@, adapter_call_leg_id@));
        true
    }

    fn drop_handoffs_of(&mut self, session_id: &str)
        requires
            old(self).wf(),
        ensures
            final(self).wf(),
            final(self)@ == (ManagerState::<H> {
                pending: old(self)@.unregistered(session_id@).pending,
                ..old(self)@
            }),
            final(self).sessions == old(self).sessions,
    {
        let ghost before = self.pending_coordinator_handoffs@;
        let ghost me = session_id@;
        let wanted: String = session_id.to_owned();
        let mut i: usize = 0;
        while i < self.pending_coordinator_handoffs.len()
            invariant
                self.wf(),
                wanted@ == me,
                self.sessions == old(self).sessions,
                self.session_calls == old(self).session_calls,
                self.call_originators == old(self).call_originators,
                self.call_coordinators == old(self).call_coordinators,
                self.leg_sessions == old(self).leg_sessions,
                i <= self.pending_coordinator_handoffs.entries().len(),
                forall|k: int|
                    0 <= k < i ==> (
                    #[trigger] self.pending_coordinator_handoffs.entries()[k]).value@.source != me
                        && self.pending_coordinator_handoffs.entries()[k].value@.target != me,
                forall|key: Seq<char>| #[trigger]
                    self.pending_coordinator_handoffs@.contains_key(key) ==> before.contains_key(key)
                        && self.pending_coordinator_handoffs@[key] == before[key],
                forall|key: Seq<char>| #[trigger]
                    before.contains_key(key) && !self.pending_coordinator_handoffs@.contains_key(key)
                        ==> before[key]@.source == me || before[key]@.target == me,
            decreases self.pending_coordinator_handoffs.entries().len() - i,
        {
            let token = self.pending_coordinator_handoffs.value_at(i);
            if token.source_session_id.eq(&wanted) || token.target_session_id.eq(&wanted) {
                let key = self.pending_coordinator_handoffs.key_at(i).clone();
                let ghost earlier = self.pending_coordinator_handoffs;
                proof {
                    assert(earlier.has_at(key@, i as int));
                    earlier.lemma_index(key@, i as int);
                }
                let _ = self.pending_coordinator_handoffs.remove(key.as_str());
                proof {
                    assert forall|k: int| 0 <= k < i implies (
                    #[trigger] self.pending_coordinator_handoffs.entries()[k]).value@.source != me
                        && self.pending_coordinator_handoffs.entries()[k].value@.target != me by {
                        assert(self.pending_coordinator_handoffs.entries()[k]
                            == earlier.entries()[k]);
                    }
                }
            } else {
                i = i + 1;
            }
        }
        proof {
            let left = self.pending_coordinator_handoffs;
            assert forall|key: Seq<char>| #[trigger] left@.contains_key(key) implies left@[key]@.source
                != me && left@[key]@.target != me by {
                let at = left.index_of(key);
                assert(left.has_at(key, at));
                left.lemma_index(key, at);
            }
            assert(token_map(left@) =~= old(self)@.unregistered(me).pending);
        }
    }

    pub fn unregister_session(&mut self, session_id: &str) -> (handle: Option<H>)
        requires
            old(self).wf(),
        ensures
            final(self).wf(),
            final(self)@ == old(self)@.unregistered(session_id@),
            handle is Some <==> old(self)@.sessions.contains_key(session_id@),
            handle matches Some(h) ==> h == old(self)@.sessions[session_id@],
    {
        self.drop_handoffs_of(session_id);
        let ghost calls = self.session_calls@;
        let _ = self.session_calls.remove(session_id);
        self.leg_sessions.remove_value(session_id);
        let handle = self.sessions.remove(session_id);
        assert(text_map(self.session_calls@) =~= text_map(calls).remove(session_id@));
        assert(self@ =~= old(self)@.unregistered(session_id@));
        handle
    }

    pub fn coordinator_identity(&self, call_id: &str) -> (owner: Option<CoordinatorIdentity>)
        requires
            self.wf(),
        ensures
            owner is Some <==> self@.owners.contains_key(call_id@),
            owner matches Some(identity) ==> identity@ == self@.owners[call_id@],
    {
        match self.call_coordinators.get(call_id) {
            Some(registration) => Some(
                CoordinatorIdentity {
                    session_id: registration.session_id.clone(),
                    generation: registration.generation,
                },
            ),
            None => None,
        }
    }

    pub fn coordinator_session(&self, call_id: &str) -> (session: Option<&str>)
        requires
            self.wf(),
        ensures
            session is Some <==> self@.owners.contains_key(call_id@),
            session matches Some(id) ==> id@ == self@.owners[call_id@].session,
    {
        match self.call_coordinators.get(call_id) {
            Some(registration) => Some(registration.session_id.as_str()),
            None => None,
        }
    }

    pub fn caller_session(&self, call_id: &str) -> (session: Option<&str>)
        requires
            self.wf(),
        ensures
            session is Some <==> self@.originators.contains_key(call_id@),
            session matches Some(id) ==> id@ == self@.originators[call_id@],
    {
        match self.call_originators.get(call_id) {
            Some(session) => Some(session.as_str()),
            None => None,
        }
    }

    /// The coordinator of a call, where it still takes what it is sent.
    pub fn coordinator_handle(&self, call_id: &str) -> (handle: Option<&CallCoordinatorHandle>)
        requires
            self.wf(),
        ensures
            handle is Some <==> self@.reachable(call_id@),
            handle matches Some(h) ==> *h == self@.coordinators[call_id@],
    {
        match self.call_coordinators.get(call_id) {
            Some(registration) => if registration.handle.is_closed() {
                None
            } else {
                Some(&registration.handle)
            },
            None => None,
        }
    }

    /// The mailboxes of the coordinator of a call, to be filled or emptied.
    pub fn coordinator_mailbox(&mut self, call_id: &str) -> (handle: Option<
        &mut CallCoordinatorHandle,
    >)
        requires
            old(self).wf(),
        ensures
            match handle {
                Some(h) => {
                    &&& old(self)@.coordinators.contains_key(call_id@)
                    &&& *h == old(self)@.coordinators[call_id@]
                    &&& final(self).wf()
                    &&& final(self)@ == (ManagerState::<H> {
                        coordinators: old(self)@.coordinators.insert(call_id@, *final(h)),
                        ..old(self)@
                    })
                },
                None => !old(self)@.coordinators.contains_key(call_id@) && *final(self) == *old(
                    self,
                ),
            },
    {
        match self.call_coordinators.get_mut(call_id) {
            Some(registration) => Some(&mut registration.handle),
            None => None,
        }
    }

    fn belongs_to(&self, session_id: &str, call_id: &str) -> (member: bool)
        requires
            self.wf(),
        ensures
            member == self@.is_member(session_id@, call_id@),
    {
        self.sessions.contains(session_id) && match self.session_calls.get(session_id) {
            Some(call) => same_text(call.as_str(), call_id),
            None => false,
        }
    }

    pub fn prepare_coordinator_handoff(
        &mut self,
        call_id: &str,
        source_session_id: &str,
        source_generation: u64,
        target_session_id: &str,
    ) -> (result: Result<CoordinatorHandoffToken, CoordinatorHandoffError>)
        requires
            old(self).wf(),
        ensures
            final(self).wf(),
            match (
                result,
                old(self)@.preparation(
                    call_id@,
                    source_session_id@,
                    source_generation,
                    target_session_id@,
                ),
            ) {
                (Ok(token), Ok(expected)) => token@ == expected && final(self)@ == old(
                    self,
                )@.prepared(expected),
                (Err(error), Err(expected)) => error == expected && final(self)@ == old(self)@,
                _ => false,
            },
    {
        if self.pending_coordinator_handoffs.contains(call_id) {
            return Err(CoordinatorHandoffError::HandoffInProgress);
        }
        match self.call_coordinators.get(call_id) {
            None => return Err(CoordinatorHandoffError::CallNotFound),
            Some(registration) => {
                if !same_text(registration.session_id.as_str(), source_session_id)
                    || registration.generation != source_generation {
                    return Err(CoordinatorHandoffError::StaleOwner);
                }
            },
        }
        if same_text(target_session_id, source_session_id) || !self.belongs_to(
            target_session_id,
            call_id,
        ) {
            return Err(CoordinatorHandoffError::InvalidTarget);
        }
        if source_generation == u64::MAX {
            return Err(CoordinatorHandoffError::GenerationExhausted);
        }
        let token = CoordinatorHandoffToken {
            call_id: call_id.to_owned(),
            source_session_id: source_session_id.to_owned(),
            target_session_id: target_session_id.to_owned(),
            source_generation,
            target_generation: source_generation + 1,
        };
        self.pending_coordinator_handoffs.insert(call_id.to_owned(), token.copy());
        assert(self@ =~= old(self)@.prepared(token@));
        Ok(token)
    }

    fn set_owner(&mut self, call_id: &str, session_id: &str, generation: u64)
        requires
            old(self).wf(),
            old(self)@.owners.contains_key(call_id@),
        ensures
            final(self).wf(),
            final(self)@ == (ManagerState::<H> {
                owners: old(self)@.owners.insert(
                    call_id@,
                    Owner { session: session_id@, generation },
                ),
                ..old(self)@
            }),
    {
        match self.call_coordinators.remove(call_id) {
            Some(registration) => {
                self.call_coordinators.insert(
                    call_id.to_owned(),
                    CoordinatorRegistration {
                        session_id: session_id.to_owned(),
                        generation,
                        handle: registration.handle,
                    },
                );
            },
            None => {},
        }
        assert(self@.owners =~= old(self)@.owners.insert(
            call_id@,
            Owner { session: session_id@, generation },
        ));
    }

    fn holds_token(&self, token: &CoordinatorHandoffToken) -> (held: bool)
        requires
            self.wf(),
        ensures
            held == (self@.pending.contains_key(token.call_id@) && self@.pending[token.call_id@]
                == token@),
    {
        match self.pending_coordinator_handoffs.get(token.call_id.as_str()) {
            Some(pending) => pending.same(token),
            None => false,
        }
    }

    pub fn commit_coordinator_handoff(&mut self, token: &CoordinatorHandoffToken) -> (result: Result<
        CoordinatorIdentity,
        CoordinatorHandoffError,
    >)
        requires
            old(self).wf(),
        ensures
            final(self).wf(),
            match (result, old(self)@.commitment(token@)) {
                (Ok(identity), Ok(owner)) => identity@ == owner && final(self)@ == old(
                    self,
                )@.committed(token@),
                (Err(error), Err(expected)) => error == expected && final(self)@ == old(self)@,
                _ => false,
            },
    {
        if !self.holds_token(token) {
            return Err(CoordinatorHandoffError::TokenMismatch);
        }
        match self.call_coordinators.get(token.call_id.as_str()) {
            None => return Err(CoordinatorHandoffError::CallNotFound),
            Some(registration) => {
                if !registration.session_id.eq(&token.source_session_id) || registration.generation
                    != token.source_generation {
                    return Err(CoordinatorHandoffError::StaleOwner);
                }
            },
        }
        if !self.belongs_to(token.target_session_id.as_str(), token.call_id.as_str()) {
            return Err(CoordinatorHandoffError::InvalidTarget);
        }
        self.set_owner(
            token.call_id.as_str(),
            token.target_session_id.as_str(),
            token.target_generation,
        );
        let _ = self.pending_coordinator_handoffs.remove(token.call_id.as_str());
        assert(self@ =~= old(self)@.committed(token@));
        Ok(
            CoordinatorIdentity {
                session_id: token.target_session_id.clone(),
                generation: token.target_generation,
            },
        )
    }

    pub fn abort_coordinator_handoff(&mut self, token: &CoordinatorHandoffToken) -> (result: Result<
        (),
        CoordinatorHandoffError,
    >)
        requires
            old(self).wf(),
        ensures
            final(self).wf(),
            if old(self)@.pending.contains_key(token.call_id@) && old(
                self,
            )@.pending[token.call_id@] == token@ {
                result is Ok && final(self)@ == (ManagerState::<H> {
                    pending: old(self)@.pending.remove(token.call_id@),
                    ..old(self)@
                })
            } else {
                result == Err::<(), CoordinatorHandoffError>(CoordinatorHandoffError::TokenMismatch)
                    && final(self)@ == old(self)@
            },
    {
        if !self.holds_token(token) {
            return Err(CoordinatorHandoffError::TokenMismatch);
        }
        let _ = self.pending_coordinator_handoffs.remove(token.call_id.as_str());
        assert(self@.pending =~= old(self)@.pending.remove(token.call_id@));
        Ok(())
    }

    pub fn rollback_committed_coordinator_handoff(&mut self, token: &CoordinatorHandoffToken) -> (result:
        Result<CoordinatorIdentity, CoordinatorHandoffError>)
        requires
            old(self).wf(),
        ensures
            final(self).wf(),
            match (result, old(self)@.rollback(token@)) {
                (Ok(identity), Ok(owner)) => identity@ == owner && final(self)@ == old(
                    self,
                )@.rolled_back(token@),
                (Err(error), Err(expected)) => error == expected && final(self)@ == old(self)@,
                _ => false,
            },
    {
        if self.pending_coordinator_handoffs.contains(token.call_id.as_str()) {
            return Err(CoordinatorHandoffError::HandoffInProgress);
        }
        match self.call_coordinators.get(token.call_id.as_str()) {
            None => return Err(CoordinatorHandoffError::CallNotFound),
            Some(registration) => {
                if !registration.session_id.eq(&token.target_session_id) || registration.generation
                    != token.target_generation {
                    return Err(CoordinatorHandoffError::StaleOwner);
                }
            },
        }
        if !self.belongs_to(token.source_session_id.as_str(), token.call_id.as_str()) {
            return Err(CoordinatorHandoffError::InvalidTarget);
        }
        self.set_owner(
            token.call_id.as_str(),
            token.source_session_id.as_str(),
            token.source_generation,
        );
        Ok(
            CoordinatorIdentity {
                session_id: token.source_session_id.clone(),
                generation: token.source_generation,
            },
        )
    }

    /// A session of the call that does not own its coordinator.
    pub fn peer_session(&self, call_id: &str) -> (peer: Option<String>)
        requires
            self.wf(),
        ensures
            match peer {
                Some(session) => members(self@.session_calls, call_id@).contains(session@) && !(
                self@.owners.contains_key(call_id@) && self@.owners[call_id@].session == session@),
                None => forall|session: Seq<char>|
                    #[trigger] members(self@.session_calls, call_id@).contains(session) ==> (
                    self@.owners.contains_key(call_id@) && self@.owners[call_id@].session == session),
            },
    {
        let coordinator = self.coordinator_identity(call_id);
        let ghost calls = self@.session_calls;
        let mut i: usize = 0;
        while i < self.session_calls.len()
            invariant
                self.wf(),
                calls == text_map(self.session_calls@),
                i <= self.session_calls.entries().len(),
                coordinator is Some <==> self@.owners.contains_key(call_id@),
                coordinator matches Some(identity) ==> identity@ == self@.owners[call_id@],
                forall|k: int|
                    0 <= k < i ==> (#[trigger] self.session_calls.entries()[k]).value@ != call_id@
                        || (self@.owners.contains_key(call_id@) && self@.owners[call_id@].session
                        == self.session_calls.entries()[k].key@),
            decreases self.session_calls.entries().len() - i,
        {
            let session = self.session_calls.key_at(i);
            proof {
                assert(self.session_calls.has_at(session@, i as int));
                self.session_calls.lemma_index(session@, i as int);
            }
            if same_text(self.session_calls.value_at(i).as_str(), call_id) {
                let owns = match &coordinator {
                    Some(identity) => identity.session_id.eq(session),
                    None => false,
                };
                if !owns {
                    return Some(session.clone());
                }
            }
            i = i + 1;
        }
        proof {
            assert forall|session: Seq<char>| #[trigger]
                members(calls, call_id@).contains(session) implies (self@.owners.contains_key(
                call_id@,
            ) && self@.owners[call_id@].session == session) by {
                let at = self.session_calls.index_of(session);
                assert(self.session_calls.has_at(session, at));
                self.session_calls.lemma_index(session, at);
            }
        }
        None
    }

    /// The sessions of a call, each once.
    pub fn sessions_of(&self, call_id: &str) -> (ids: Vec<String>)
        requires
            self.wf(),
        ensures
            forall|k: int|
                0 <= k < ids@.len() ==> members(self@.session_calls, call_id@).contains(
                    (#[trigger] ids@[k])@,
                ),
            forall|session: Seq<char>|
                #[trigger] members(self@.session_calls, call_id@).contains(session) ==> exists|k: int|
                    0 <= k < ids@.len() && (#[trigger] ids@[k])@ == session,
            forall|j: int, k: int|
                0 <= j < k < ids@.len() ==> (#[trigger] ids@[j])@ != (#[trigger] ids@[k])@,
    {
        let ghost calls = self@.session_calls;
        let mut ids: Vec<String> = Vec::new();
        let mut i: usize = 0;
        while i < self.session_calls.len()
            invariant
                self.wf(),
                calls == text_map(self.session_calls@),
                i <= self.session_calls.entries().len(),
                forall|k: int|
                    0 <= k < ids@.len() ==> members(calls, call_id@).contains(
                        (#[trigger] ids@[k])@,
                    ) && self.session_calls.index_of(ids@[k]@) < i,
                forall|j: int, k: int|
                    0 <= j < k < ids@.len() ==> (#[trigger] ids@[j])@ != (#[trigger] ids@[k])@,
                forall|j: int|
                    0 <= j < i && (#[trigger] self.session_calls.entries()[j]).value@ == call_id@
                        ==> exists|k: int|
                        0 <= k < ids@.len() && (#[trigger] ids@[k])@
                            == self.session_calls.entries()[j].key@,
            decreases self.session_calls.entries().len() - i,
        {
            let session = self.session_calls.key_at(i);
            proof {
                assert(self.session_calls.has_at(session@, i as int));
                self.session_calls.lemma_index(session@, i as int);
            }
            let ghost before = ids@;
            if same_text(self.session_calls.value_at(i).as_str(), call_id) {
                ids.push(session.clone());
                proof {
                    assert(ids@[before.len() as int]@ == session@);
                }
            }
            proof {
                assert forall|j: int|
                    0 <= j < i + 1 && (#[trigger] self.session_calls.entries()[j]).value@ == call_id@ implies exists|
                    k: int,
                |
                    0 <= k < ids@.len() && (#[trigger] ids@[k])@
                        == self.session_calls.entries()[j].key@ by {
                    if j < i {
                        let k = choose|k: int|
                            0 <= k < before.len() && (#[trigger] before[k])@
                                == self.session_calls.entries()[j].key@;
                        assert(ids@[k] == before[k]);
                    }
                }
            }
            i = i + 1;
        }
        proof {
            assert forall|session: Seq<char>| #[trigger]
                members(calls, call_id@).contains(session) implies exists|k: int|
                0 <= k < ids@.len() && (#[trigger] ids@[k])@ == session by {
                let at = self.session_calls.index_of(session);
                assert(self.session_calls.has_at(session, at));
                self.session_calls.lemma_index(session, at);
            }
        }
        ids
    }

    pub fn destroy_call(&mut self, call_id: &str)
        requires
            old(self).wf(),
        ensures
            final(self).wf(),
            final(self)@ == old(self)@.destroyed(call_id@),
    {
        let ghost before = self@;
        let ghost gone = members(before.session_calls, call_id@);
        let ids = self.sessions_of(call_id);
        let mut i: usize = 0;
        while i < ids.len()
            invariant
                self.wf(),
                i <= ids.len(),
                gone == members(before.session_calls, call_id@),
                forall|k: int| 0 <= k < ids@.len() ==> gone.contains((#[trigger] ids@[k])@),
                self.call_originators == old(self).call_originators,
                self.call_coordinators == old(self).call_coordinators,
                self.pending_coordinator_handoffs == old(self).pending_coordinator_handoffs,
                before == old(self)@,
                forall|s: Seq<char>| #[trigger]
                    self.sessions@.contains_key(s) ==> before.sessions.contains_key(s)
                        && self.sessions@[s] == before.sessions[s],
                forall|s: Seq<char>| #[trigger]
                    before.sessions.contains_key(s) && !gone.contains(s)
                        ==> self.sessions@.contains_key(s),
                forall|k: int|
                    0 <= k < i ==> !self.sessions@.contains_key((#[trigger] ids@[k])@)
                        && !text_map(self.session_calls@).contains_key(ids@[k]@),
                forall|s: Seq<char>| #[trigger]
                    text_map(self.session_calls@).contains_key(s) ==> before.session_calls.contains_key(s)
                        && text_map(self.session_calls@)[s] == before.session_calls[s],
                forall|s: Seq<char>| #[trigger]
                    before.session_calls.contains_key(s) && !gone.contains(s)
                        ==> text_map(self.session_calls@).contains_key(s),
                forall|leg: Seq<char>| #[trigger]
                    text_map(self.leg_sessions@).contains_key(leg) ==> before.legs.contains_key(leg)
                        && text_map(self.leg_sessions@)[leg] == before.legs[leg] && forall|k: int|
                        0 <= k < i ==> text_map(self.leg_sessions@)[leg] != (#[trigger] ids@[k])@,
                forall|leg: Seq<char>| #[trigger]
                    before.legs.contains_key(leg) && !gone.contains(before.legs[leg])
                        ==> text_map(self.leg_sessions@).contains_key(leg),
            decreases ids.len() - i,
        {
            let id = ids[i].as_str();
            assert(gone.contains(ids@[i as int]@));
            let _ = self.sessions.remove(id);
            let ghost calls = self.session_calls@;
            let _ = self.session_calls.remove(id);
            assert(text_map(self.session_calls@) =~= text_map(calls).remove(id@));
            self.leg_sessions.remove_value(id);
            i = i + 1;
        }
        let _ = self.call_coordinators.remove(call_id);
        let _ = self.pending_coordinator_handoffs.remove(call_id);
        let _ = self.call_originators.remove(call_id);
        proof {
            let after = before.destroyed(call_id@);
            assert(self@.sessions =~= after.sessions);
            assert(self@.session_calls =~= after.session_calls);
            assert(self@.originators =~= after.originators);
            assert(self@.owners =~= after.owners);
            assert(self@.pending =~= after.pending);
            assert(self@.legs =~= after.legs);
        }
    }

    pub fn lookup_by_session(&self, session_id: &str) -> (handle: Option<&H>)
        requires
            self.wf(),
        ensures
            handle is Some <==> self@.sessions.contains_key(session_id@),
            handle matches Some(h) ==> *h == self@.sessions[session_id@],
    {
        self.sessions.get(session_id)
    }

    pub fn lookup_by_adapter_leg(&self, adapter_call_leg_id: &str) -> (session: Option<&str>)
        requires
            self.wf(),
        ensures
            session is Some <==> self@.legs.contains_key(adapter_call_leg_id@),
            session matches Some(id) ==> id@ == self@.legs[adapter_call_leg_id@],
    {
        match self.leg_sessions.get(adapter_call_leg_id) {
            Some(session) => Some(session.as_str()),
            None => None,
        }
    }
}

} // verus!
