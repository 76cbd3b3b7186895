//! Moving the ownership of a call from a leg that leaves to one that stays.

use crate::call::runtime_queue::{QueueError, QueueState, RuntimeQueue};
use crate::call::session::{
    CoordinatorHandoffError, CoordinatorHandoffToken, CoordinatorIdentity, ManagerState, Owner,
    SessionManager, Token,
};
use crate::text::{join2, same_text};
use vstd::prelude::*;

verus! {

pub const HANDOFF_REQUEST_CAPACITY: usize = 32;

pub const HANDOFF_READY_CAPACITY: usize = 32;

/// A request that another session take over a call.
#[derive(Debug)]
pub struct CoordinatorHandoffRequest {
    pub call_id: String,
    pub target_session_id: String,
}

#[derive(Debug, Clone, Copy, PartialEq, Eq, Structural)]
pub enum HandoffRequestError {
    Unconnected,
    QueueFull,
    QueueClosed,
}

impl HandoffRequestError {
    pub open spec fn code(self) -> Seq<char> {
        match self {
            HandoffRequestError::Unconnected =>
                "ADAPTER_UNAVAILABLE: call runtime is not connected"@,
            HandoffRequestError::QueueFull =>
                "RESOURCE_EXHAUSTED: coordinator handoff queue is full"@,
            HandoffRequestError::QueueClosed =>
                "ADAPTER_UNAVAILABLE: coordinator handoff queue is closed"@,
        }
    }

    pub fn text(self) -> (text: String)
        ensures
            text@ == self.code(),
    {
        match self {
            HandoffRequestError::Unconnected =>
                "ADAPTER_UNAVAILABLE: call runtime is not connected".to_owned(),
            HandoffRequestError::QueueFull =>
                "RESOURCE_EXHAUSTED: coordinator handoff queue is full".to_owned(),
            HandoffRequestError::QueueClosed =>
                "ADAPTER_UNAVAILABLE: coordinator handoff queue is closed".to_owned(),
        }
    }
}

/// Bounded entry point for a part of the system whose current coordinator leg is
/// leaving while another leg must continue owning the call.
pub struct CoordinatorHandoffService {
    pub queue: RuntimeQueue<CoordinatorHandoffRequest>,
}

impl CoordinatorHandoffService {
    pub fn new() -> (service: Self)
        ensures
            service.queue@ == (QueueState::<CoordinatorHandoffRequest> {
                generation: 0,
                runtime: None,
                capacity: HANDOFF_REQUEST_CAPACITY as nat,
            }),
    {
        CoordinatorHandoffService { queue: RuntimeQueue::new(HANDOFF_REQUEST_CAPACITY) }
    }

    pub fn attach_runtime(&mut self) -> (generation: u64)
        ensures
            final(self).queue@ == old(self).queue@.attached(),
            generation == final(self).queue@.generation,
    {
        self.queue.attach_runtime()
    }

    pub fn detach_runtime(&mut self, generation: u64)
        ensures
            final(self).queue@ == old(self).queue@.detached(generation),
    {
        self.queue.detach_runtime(generation)
    }

    /// Asks for a handoff. A queue that nobody listens to stays attached.
    pub fn request_owner_exit_handoff(&mut self, call_id: String, target_session_id: String) -> (result:
        Result<(), HandoffRequestError>)
        ensures
            ({
                let request = CoordinatorHandoffRequest { call_id, target_session_id };
                let (queue, answer) = old(self).queue@.offered(request);
                match answer {
                    Ok(()) => result is Ok && final(self).queue@ == queue,
                    Err(error) => final(self).queue@ == old(self).queue@ && result == Err::<
                        (),
                        HandoffRequestError,
                    >(
                        match error {
                            QueueError::Unconnected => HandoffRequestError::Unconnected,
                            QueueError::Full => HandoffRequestError::QueueFull,
                            QueueError::Closed => HandoffRequestError::QueueClosed,
                        },
                    ),
                }
            }),
    {
        let closed = match &self.queue.runtime {
            Some(runtime) => !runtime.open,
            None => false,
        };
        if closed {
            return Err(HandoffRequestError::QueueClosed);
        }
        match self.queue.offer(CoordinatorHandoffRequest { call_id, target_session_id }) {
            Ok(()) => Ok(()),
            Err(QueueError::Unconnected) => Err(HandoffRequestError::Unconnected),
            Err(QueueError::Full) => Err(HandoffRequestError::QueueFull),
            Err(QueueError::Closed) => Err(HandoffRequestError::QueueClosed),
        }
    }
}

/// What the present owner of a call knows of itself.
#[derive(Debug, Clone)]
pub struct HandoffSource {
    pub call_id: String,
    pub owned_session_id: String,
    pub coordinator_session_id: String,
    pub coordinator_generation: u64,
    pub handle_call_id: String,
}

/// What the session that is to take over knows of itself.
#[derive(Debug, Clone)]
pub struct HandoffTarget {
    pub call_id: String,
    pub session_id: String,
    pub terminal: bool,
    pub handle_call_id: String,
}

/// Whether the present owner is the one that the token names.
pub open spec fn source_fits(source: HandoffSource, token: Token) -> bool {
    &&& source.call_id@ == token.call
    &&& source.owned_session_id@ == token.source
    &&& source.coordinator_session_id@ == token.source
    &&& source.coordinator_generation == token.source_generation
}

pub open spec fn names_one(candidates: Seq<String>, name: Seq<char>) -> bool {
    exists|i: int| 0 <= i < candidates.len() && (#[trigger] candidates[i])@ == name
}

/// Whether a handoff may begin: the owner fits, the generation goes up by one, and
/// the target is among the sessions that could take over.
pub fn may_prepare_handoff(
    source: &HandoffSource,
    token: &CoordinatorHandoffToken,
    candidates: &Vec<String>,
) -> (may: bool)
    ensures
        may == (source_fits(*source, token@) && token.source_generation + 1
            == token.target_generation && names_one(candidates@, token.target_session_id@)),
{
    if !source.call_id.eq(&token.call_id) || !source.owned_session_id.eq(&token.source_session_id)
        || !source.coordinator_session_id.eq(&token.source_session_id)
        || source.coordinator_generation != token.source_generation {
        return false;
    }
    if token.source_generation == u64::MAX || token.source_generation + 1
        != token.target_generation {
        return false;
    }
    let mut i: usize = 0;
    while i < candidates.len()
        invariant
            i <= candidates.len(),
            forall|k: int| 0 <= k < i ==> (#[trigger] candidates@[k])@ != token.target_session_id@,
            source_fits(*source, token@),
            token.source_generation + 1 == token.target_generation,
        decreases candidates.len() - i,
    {
        if candidates[i].eq(&token.target_session_id) {
            assert(candidates@[i as int]@ == token.target_session_id@);
            return true;
        }
        i = i + 1;
    }
    false
}

/// Why a handoff that was begun did not end in a new owner.
#[derive(Debug)]
pub enum HandoffFailure {
    NotReady(String),
    TargetUnavailable,
    PackageMismatch,
    CommitFailed(CoordinatorHandoffError),
    GenerationMismatch,
    Refused(String),
}

pub open spec fn error_name(error: CoordinatorHandoffError) -> Seq<char> {
    match error {
        CoordinatorHandoffError::CallNotFound => "CallNotFound"@,
        CoordinatorHandoffError::HandoffInProgress => "HandoffInProgress"@,
        CoordinatorHandoffError::StaleOwner => "StaleOwner"@,
        CoordinatorHandoffError::InvalidTarget => "InvalidTarget"@,
        CoordinatorHandoffError::GenerationExhausted => "GenerationExhausted"@,
        CoordinatorHandoffError::TokenMismatch => "TokenMismatch"@,
    }
}

fn name_of(error: CoordinatorHandoffError) -> (name: String)
    ensures
        name@ == error_name(error),
{
    match error {
        CoordinatorHandoffError::CallNotFound => "CallNotFound".to_owned(),
        CoordinatorHandoffError::HandoffInProgress => "HandoffInProgress".to_owned(),
        CoordinatorHandoffError::StaleOwner => "StaleOwner".to_owned(),
        CoordinatorHandoffError::InvalidTarget => "InvalidTarget".to_owned(),
        CoordinatorHandoffError::GenerationExhausted => "GenerationExhausted".to_owned(),
        CoordinatorHandoffError::TokenMismatch => "TokenMismatch".to_owned(),
    }
}

impl HandoffFailure {
    pub open spec fn code(self) -> Seq<char> {
        match self {
            HandoffFailure::NotReady(reason) => reason@,
            HandoffFailure::TargetUnavailable => "coordinator_handoff_target_unavailable"@,
            HandoffFailure::PackageMismatch => "coordinator_handoff_package_mismatch"@,
            HandoffFailure::CommitFailed(error) => "coordinator_handoff_commit_failed:"@
                + error_name(error),
            HandoffFailure::GenerationMismatch => "coordinator_handoff_generation_mismatch"@,
            HandoffFailure::Refused(reason) => reason@,
        }
    }

    pub fn text(&self) -> (text: String)
        ensures
            text@ == self.code(),
    {
        match self {
            HandoffFailure::NotReady(reason) => reason.clone(),
            HandoffFailure::TargetUnavailable => "coordinator_handoff_target_unavailable".to_owned(),
            HandoffFailure::PackageMismatch => "coordinator_handoff_package_mismatch".to_owned(),
            HandoffFailure::CommitFailed(error) => join2(
                "coordinator_handoff_commit_failed:",
                name_of(*error).as_str(),
            ),
            HandoffFailure::GenerationMismatch =>
                "coordinator_handoff_generation_mismatch".to_owned(),
            HandoffFailure::Refused(reason) => reason.clone(),
        }
    }
}

pub open spec fn target_fits(target: HandoffTarget, token: Token) -> bool {
    target.call_id@ == token.call && target.session_id@ == token.target && !target.terminal
}

/// What stands in the way of the target, as the owner sees it.
pub open spec fn readiness(token: Token, source: HandoffSource, target: HandoffTarget) -> Result<
    (),
    HandoffFailure,
> {
    if !target_fits(target, token) {
        Err(HandoffFailure::TargetUnavailable)
    } else if !source_fits(source, token) || source.handle_call_id@ != token.call
        || target.handle_call_id@ != token.call {
        Err(HandoffFailure::PackageMismatch)
    } else {
        Ok(())
    }
}

pub fn target_ready(
    token: &CoordinatorHandoffToken,
    source: &HandoffSource,
    target: &HandoffTarget,
) -> (result: Result<(), HandoffFailure>)
    ensures
        result == readiness(token@, *source, *target),
{
    if !target.call_id.eq(&token.call_id) || !target.session_id.eq(&token.target_session_id)
        || target.terminal {
        return Err(HandoffFailure::TargetUnavailable);
    }
    if !source.call_id.eq(&token.call_id) || !source.owned_session_id.eq(&token.source_session_id)
        || !source.coordinator_session_id.eq(&token.source_session_id)
        || source.coordinator_generation != token.source_generation || !source.handle_call_id.eq(
        &token.call_id,
    ) || !target.handle_call_id.eq(&token.call_id) {
        return Err(HandoffFailure::PackageMismatch);
    }
    Ok(())
}

/// Why a handoff was not begun.
#[derive(Debug, Clone, Copy, PartialEq, Eq, Structural)]
pub enum HandoffRefusal {
    CapacityExhausted,
    CallNotFound,
    SourceUnavailable,
    TargetUnavailable,
    PrepareFailed(CoordinatorHandoffError),
}

impl HandoffRefusal {
    pub open spec fn code(self) -> Seq<char> {
        match self {
            HandoffRefusal::CapacityExhausted => "coordinator_handoff_capacity_exhausted"@,
            HandoffRefusal::CallNotFound => "coordinator_handoff_call_not_found"@,
            HandoffRefusal::SourceUnavailable => "coordinator_handoff_source_unavailable"@,
            HandoffRefusal::TargetUnavailable => "coordinator_handoff_target_unavailable"@,
            HandoffRefusal::PrepareFailed(error) => "coordinator_handoff_prepare_failed:"@
                + error_name(error),
        }
    }

    pub fn text(self) -> (text: String)
        ensures
            text@ == self.code(),
    {
        match self {
            HandoffRefusal::CapacityExhausted => "coordinator_handoff_capacity_exhausted".to_owned(),
            HandoffRefusal::CallNotFound => "coordinator_handoff_call_not_found".to_owned(),
            HandoffRefusal::SourceUnavailable => "coordinator_handoff_source_unavailable".to_owned(),
            HandoffRefusal::TargetUnavailable => "coordinator_handoff_target_unavailable".to_owned(),
            HandoffRefusal::PrepareFailed(error) => join2(
                "coordinator_handoff_prepare_failed:",
                name_of(error).as_str(),
            ),
        }
    }
}

/// What the beginning of a handoff comes to, with `permits` places left.
pub open spec fn beginning<H>(
    s: ManagerState<H>,
    permits: nat,
    call: Seq<char>,
    target: Seq<char>,
) -> Result<Token, HandoffRefusal> {
    if permits == 0 {
        Err(HandoffRefusal::CapacityExhausted)
    } else if !s.owners.contains_key(call) {
        Err(HandoffRefusal::CallNotFound)
    } else if !s.reachable(call) {
        Err(HandoffRefusal::SourceUnavailable)
    } else if !s.sessions.contains_key(target) {
        Err(HandoffRefusal::TargetUnavailable)
    } else {
        match s.preparation(call, s.owners[call].session, s.owners[call].generation, target) {
            Ok(token) => Ok(token),
            Err(error) => Err(HandoffRefusal::PrepareFailed(error)),
        }
    }
}

/// Begins a handoff: the token goes to both sides, which have to agree.
pub fn begin_coordinator_handoff<H>(
    manager: &mut SessionManager<H>,
    permits: usize,
    call_id: &str,
    target_session_id: &str,
) -> (result: Result<CoordinatorHandoffToken, HandoffRefusal>)
    requires
        old(manager).wf(),
    ensures
        final(manager).wf(),
        match (result, beginning(old(manager)@, permits as nat, call_id@, target_session_id@)) {
            (Ok(token), Ok(expected)) => token@ == expected && final(manager)@ == old(manager)@.prepared(expected),
            (Err(error), Err(expected)) => error == expected && final(manager)@ == old(manager)@,
            _ => false,
        },
{
    if permits == 0 {
        return Err(HandoffRefusal::CapacityExhausted);
    }
    let source = match manager.coordinator_identity(call_id) {
        Some(source) => source,
        None => return Err(HandoffRefusal::CallNotFound),
    };
    if manager.coordinator_handle(call_id).is_none() {
        return Err(HandoffRefusal::SourceUnavailable);
    }
    if manager.lookup_by_session(target_session_id).is_none() {
        return Err(HandoffRefusal::TargetUnavailable);
    }
    match manager.prepare_coordinator_handoff(
        call_id,
        source.session_id.as_str(),
        source.generation,
        target_session_id,
    ) {
        Ok(token) => Ok(token),
        Err(error) => Err(HandoffRefusal::PrepareFailed(error)),
    }
}

/// The registry without a handoff that came to nothing.
pub open spec fn given_up<H>(s: ManagerState<H>, token: Token) -> ManagerState<H> {
    if s.pending.contains_key(token.call) && s.pending[token.call] == token {
        ManagerState { pending: s.pending.remove(token.call), ..s }
    } else {
        s
    }
}

/// What the commit of a handoff comes to once both sides have answered.
pub open spec fn commitment_of<H>(
    s: ManagerState<H>,
    token: Token,
    source: Result<HandoffSource, String>,
    target: Result<HandoffTarget, String>,
) -> Result<Owner, HandoffFailure> {
    match (source, target) {
        (Err(reason), _) => Err(HandoffFailure::NotReady(reason)),
        (_, Err(reason)) => Err(HandoffFailure::NotReady(reason)),
        (Ok(source), Ok(target)) => match readiness(token, source, target) {
            Err(failure) => Err(failure),
            Ok(()) => match s.commitment(token) {
                Ok(owner) => Ok(owner),
                Err(error) => Err(HandoffFailure::CommitFailed(error)),
            },
        },
    }
}

/// Commits a handoff, or gives it up where one side is not ready.
pub fn commit_ready_handoff<H>(
    manager: &mut SessionManager<H>,
    token: &CoordinatorHandoffToken,
    source: Result<HandoffSource, String>,
    target: Result<HandoffTarget, String>,
) -> (result: Result<CoordinatorIdentity, HandoffFailure>)
    requires
        old(manager).wf(),
    ensures
        final(manager).wf(),
        match (result, commitment_of(old(manager)@, token@, source, target)) {
            (Ok(identity), Ok(owner)) => identity@ == owner && final(manager)@ == old(manager)@.committed(token@),
            (Err(error), Err(expected)) => error == expected && final(manager)@ == given_up(
                old(manager)@,
                token@,
            ),
            _ => false,
        },
{
    let source = match source {
        Ok(source) => source,
        Err(reason) => {
            let _ = manager.abort_coordinator_handoff(token);
            return Err(HandoffFailure::NotReady(reason));
        },
    };
    let target = match target {
        Ok(target) => target,
        Err(reason) => {
            let _ = manager.abort_coordinator_handoff(token);
            return Err(HandoffFailure::NotReady(reason));
        },
    };
    match target_ready(token, &source, &target) {
        Ok(()) => {},
        Err(failure) => {
            let _ = manager.abort_coordinator_handoff(token);
            return Err(failure);
        },
    }
    match manager.commit_coordinator_handoff(token) {
        Ok(identity) => Ok(identity),
        Err(error) => {
            let _ = manager.abort_coordinator_handoff(token);
            Err(HandoffFailure::CommitFailed(error))
        },
    }
}

/// The registry once the previous owner was restored, where it still can be.
pub open spec fn restored<H>(s: ManagerState<H>, token: Token) -> ManagerState<H> {
    match s.rollback(token) {
        Ok(_) => s.rolled_back(token),
        Err(_) => s,
    }
}

/// Ends a committed handoff. `handed` is the generation that the call itself gave
/// its new owner, or why it gave none; then the previous owner is restored.
pub fn finish_coordinator_handoff<H>(
    manager: &mut SessionManager<H>,
    token: &CoordinatorHandoffToken,
    handed: Result<u64, String>,
) -> (result: Result<(), HandoffFailure>)
    requires
        old(manager).wf(),
    ensures
        final(manager).wf(),
        match handed {
            Ok(generation) => if generation == token.target_generation {
                result is Ok && final(manager)@ == old(manager)@.unregistered(
                    token.source_session_id@,
                )
            } else {
                result == Err::<(), HandoffFailure>(HandoffFailure::GenerationMismatch) && final(manager)@ == restored(old(manager)@, token@)
            },
            Err(reason) => result == Err::<(), HandoffFailure>(HandoffFailure::Refused(reason))
                && final(manager)@ == restored(old(manager)@, token@),
        },
{
    match handed {
        Ok(generation) => {
            if generation == token.target_generation {
                let _ = manager.unregister_session(token.source_session_id.as_str());
                Ok(())
            } else {
                let _ = manager.rollback_committed_coordinator_handoff(token);
                Err(HandoffFailure::GenerationMismatch)
            }
        },
        Err(reason) => {
            let _ = manager.rollback_committed_coordinator_handoff(token);
            Err(HandoffFailure::Refused(reason))
        },
    }
}

/// A handoff that fails, at whatever step, leaves the registry as it was before it
/// began.
pub proof fn lemma_failed_handoff_changes_nothing<H>(
    s: ManagerState<H>,
    permits: nat,
    call: Seq<char>,
    target: Seq<char>,
)
    requires
        beginning(s, permits, call, target) is Ok,
        s.is_member(s.owners[call].session, call),
    ensures
        ({
            let token = beginning(s, permits, call, target)->Ok_0;
            &&& given_up(s.prepared(token), token) == s
            &&& restored(s.prepared(token).committed(token), token) == s
        }),
{
    let token = beginning(s, permits, call, target)->Ok_0;
    let source = s.owners[call].session;
    let generation = s.owners[call].generation;
    crate::call::session::lemma_abort_undoes_prepare(s, call, source, generation, target);
    crate::call::session::lemma_rollback_undoes_commit(s, call, source, generation, target);
}

/// A handoff that succeeds makes the target the owner, one generation later, and
/// the previous owner is gone.
pub proof fn lemma_finished_handoff_moves_the_call<H>(
    s: ManagerState<H>,
    permits: nat,
    call: Seq<char>,
    target: Seq<char>,
)
    requires
        beginning(s, permits, call, target) is Ok,
    ensures
        ({
            let token = beginning(s, permits, call, target)->Ok_0;
            let done = s.prepared(token).committed(token).unregistered(token.source);
            &&& done.owners[call] == (Owner {
                session: target,
                generation: (s.owners[call].generation + 1) as u64,
            })
            &&& done.is_member(target, call)
            &&& !done.sessions.contains_key(token.source)
        }),
{
}

} // verus!
