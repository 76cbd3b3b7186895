//! Leases of the telephone-event capability of a bridge: who may observe or collect
//! the digits of a leg, and how its relay is set for that.

use crate::dtmf::{detectable, DtmfMediaMode, ParserConfig};
use crate::fastpath::FastPathError;
use crate::keyed::KeyedMap;
use crate::media::{DtmfRelayDirection, DtmfSessionBindings};
use crate::text::{join2, join3, same_text};
use vstd::prelude::*;

verus! {

/// A wish to observe or collect the digits of a session.
#[derive(Debug, Clone)]
pub struct DtmfCapabilityLeaseRequest {
    pub lease_id: String,
    pub owner: String,
    pub source_session_id: String,
    pub mode: DtmfMediaMode,
    pub requested_generation: u64,
}

pub struct LeaseRequest {
    pub lease_id: Seq<char>,
    pub owner: Seq<char>,
    pub source_session_id: Seq<char>,
    pub mode: DtmfMediaMode,
    pub requested_generation: u64,
}

impl DtmfCapabilityLeaseRequest {
    pub open spec fn view(&self) -> LeaseRequest {
        LeaseRequest {
            lease_id: self.lease_id@,
            owner: self.owner@,
            source_session_id: self.source_session_id@,
            mode: self.mode,
            requested_generation: self.requested_generation,
        }
    }

    fn same(&self, other: &Self) -> (same: bool)
        ensures
            same == (self@ == other@),
    {
        self.lease_id.eq(&other.lease_id) && self.owner.eq(&other.owner)
            && self.source_session_id.eq(&other.source_session_id) && self.mode == other.mode
            && self.requested_generation == other.requested_generation
    }
}

pub struct DtmfCapabilityLease {
    pub request: DtmfCapabilityLeaseRequest,
    pub direction: DtmfRelayDirection,
    pub ready_generation: u64,
    pub active: bool,
    pub released_generation: Option<u64>,
}

pub struct Lease {
    pub request: LeaseRequest,
    pub direction: DtmfRelayDirection,
    pub ready_generation: u64,
    pub active: bool,
    pub released_generation: Option<u64>,
}

impl DtmfCapabilityLease {
    pub open spec fn view(&self) -> Lease {
        Lease {
            request: self.request@,
            direction: self.direction,
            ready_generation: self.ready_generation,
            active: self.active,
            released_generation: self.released_generation,
        }
    }
}

#[derive(Debug, Clone, Copy, PartialEq, Eq, Structural)]
pub enum CapabilityError {
    Terminating,
    InvalidMode,
    BindingsUnavailable,
    StaleSourceSession,
    LeaseIdCollision,
    LeaseReleased,
    StaleMediaGeneration,
    NotNegotiated,
    CollectorConflict,
    LeaseNotFound,
    PolicyApplyTimeout,
}

impl CapabilityError {
    pub open spec fn code(self) -> Seq<char> {
        match self {
            CapabilityError::Terminating => "call_or_leg_terminating"@,
            CapabilityError::InvalidMode => "invalid_dtmf_capability_mode"@,
            CapabilityError::BindingsUnavailable => "dtmf_session_bindings_unavailable"@,
            CapabilityError::StaleSourceSession => "stale_source_session"@,
            CapabilityError::LeaseIdCollision => "media_capability_lease_id_collision"@,
            CapabilityError::LeaseReleased => "media_capability_lease_released"@,
            CapabilityError::StaleMediaGeneration => "stale_media_generation"@,
            CapabilityError::NotNegotiated => "dtmf_not_negotiated"@,
            CapabilityError::CollectorConflict => "dtmf_collector_conflict"@,
            CapabilityError::LeaseNotFound => "media_capability_lease_not_found"@,
            CapabilityError::PolicyApplyTimeout => "dtmf_policy_apply_timeout"@,
        }
    }

    pub fn text(self) -> (text: String)
        ensures
            text@ == self.code(),
    {
        match self {
            CapabilityError::Terminating => "call_or_leg_terminating".to_owned(),
            CapabilityError::InvalidMode => "invalid_dtmf_capability_mode".to_owned(),
            CapabilityError::BindingsUnavailable => "dtmf_session_bindings_unavailable".to_owned(),
            CapabilityError::StaleSourceSession => "stale_source_session".to_owned(),
            CapabilityError::LeaseIdCollision => "media_capability_lease_id_collision".to_owned(),
            CapabilityError::LeaseReleased => "media_capability_lease_released".to_owned(),
            CapabilityError::StaleMediaGeneration => "stale_media_generation".to_owned(),
            CapabilityError::NotNegotiated => "dtmf_not_negotiated".to_owned(),
            CapabilityError::CollectorConflict => "dtmf_collector_conflict".to_owned(),
            CapabilityError::LeaseNotFound => "media_capability_lease_not_found".to_owned(),
            CapabilityError::PolicyApplyTimeout => "dtmf_policy_apply_timeout".to_owned(),
        }
    }
}

/// What is said when the fast path could not be left.
pub fn demotion_failure(error: &FastPathError) -> (text: String)
    ensures
        text@ == "capability_demotion_failed:"@ + error.code@ + ":"@ + error.message@,
{
    let front = join3("capability_demotion_failed:", error.code.as_str(), ":");
    join2(front.as_str(), error.message.as_str())
}

pub open spec fn lease_map(map: Map<Seq<char>, DtmfCapabilityLease>) -> Map<Seq<char>, Lease> {
    map.map_values(|lease: DtmfCapabilityLease| lease@)
}

/// Whether a lease is in force for a direction.
pub open spec fn holds(lease: Lease, direction: DtmfRelayDirection, mode: DtmfMediaMode) -> bool {
    lease.active && lease.direction == direction && lease.request.mode == mode
}

/// Whether any lease in force for a direction asks for a mode.
pub open spec fn leased(
    leases: Map<Seq<char>, Lease>,
    direction: DtmfRelayDirection,
    mode: DtmfMediaMode,
) -> bool {
    exists|id: Seq<char>| #[trigger] leases.contains_key(id) && holds(leases[id], direction, mode)
}

/// The mode that a relay has to be in: the strongest that a lease asks for.
/// Collecting is stronger than observing.
pub open spec fn desired(leases: Map<Seq<char>, Lease>, direction: DtmfRelayDirection) -> DtmfMediaMode {
    if leased(leases, direction, DtmfMediaMode::Collect) {
        DtmfMediaMode::Collect
    } else if leased(leases, direction, DtmfMediaMode::Observe) {
        DtmfMediaMode::Observe
    } else {
        DtmfMediaMode::Transparent
    }
}

/// A relay's parser set to a mode. Another mode is another generation.
pub open spec fn set_to(config: ParserConfig, mode: DtmfMediaMode) -> ParserConfig {
    if config.mode == mode {
        config
    } else {
        ParserConfig {
            generation: if config.generation < u64::MAX {
                (config.generation + 1) as u64
            } else {
                u64::MAX
            },
            capability: detectable(config.capability),
            mode,
        }
    }
}

pub fn set_dtmf_mode(config: &mut ParserConfig, mode: DtmfMediaMode) -> (generation: u64)
    ensures
        *final(config) == set_to(*old(config), mode),
        generation == final(config).generation,
{
    if config.mode == mode {
        return config.generation;
    }
    let generation: u64 = config.generation.saturating_add(1);
    *config = ParserConfig::with_mode(generation, config.capability, mode);
    generation
}

/// The direction of a session's media.
pub open spec fn direction_of(bindings: Option<DtmfSessionBindings>, session: Seq<char>) -> Result<
    DtmfRelayDirection,
    CapabilityError,
> {
    match bindings {
        None => Err(CapabilityError::BindingsUnavailable),
        Some(bindings) => if bindings.caller_session_id@ == session {
            Ok(DtmfRelayDirection::CallerToCallee)
        } else if bindings.callee_session_id@ == session {
            Ok(DtmfRelayDirection::CalleeToCaller)
        } else {
            Err(CapabilityError::StaleSourceSession)
        },
    }
}

pub fn dtmf_direction(bindings: &Option<DtmfSessionBindings>, source_session_id: &str) -> (result:
    Result<DtmfRelayDirection, CapabilityError>)
    ensures
        result == direction_of(*bindings, source_session_id@),
{
    match bindings {
        None => Err(CapabilityError::BindingsUnavailable),
        Some(bindings) => {
            if same_text(bindings.caller_session_id.as_str(), source_session_id) {
                Ok(DtmfRelayDirection::CallerToCallee)
            } else if same_text(bindings.callee_session_id.as_str(), source_session_id) {
                Ok(DtmfRelayDirection::CalleeToCaller)
            } else {
                Err(CapabilityError::StaleSourceSession)
            }
        },
    }
}

/// What a request comes to, before the fast path is left for it.
#[derive(Debug, Clone, Copy, PartialEq, Eq, Structural)]
pub enum AcquirePlan {
    /// The lease is in force already, since this generation.
    AlreadyReady(u64),
    /// The lease can be installed for this direction.
    Install(DtmfRelayDirection),
}

pub open spec fn acquisition(
    leases: Map<Seq<char>, Lease>,
    bindings: Option<DtmfSessionBindings>,
    stopped: bool,
    caller: ParserConfig,
    callee: ParserConfig,
    request: LeaseRequest,
) -> Result<AcquirePlan, CapabilityError> {
    if stopped {
        Err(CapabilityError::Terminating)
    } else if request.mode == DtmfMediaMode::Transparent {
        Err(CapabilityError::InvalidMode)
    } else {
        match direction_of(bindings, request.source_session_id) {
            Err(error) => Err(error),
            Ok(direction) => {
                let config = if direction is CallerToCallee {
                    caller
                } else {
                    callee
                };
                if leases.contains_key(request.lease_id) {
                    let existing = leases[request.lease_id];
                    if existing.request != request {
                        Err(CapabilityError::LeaseIdCollision)
                    } else if !existing.active {
                        Err(CapabilityError::LeaseReleased)
                    } else {
                        Ok(AcquirePlan::AlreadyReady(existing.ready_generation))
                    }
                } else if request.requested_generation > config.generation {
                    Err(CapabilityError::StaleMediaGeneration)
                } else if config.capability is None {
                    Err(CapabilityError::NotNegotiated)
                } else if request.mode == DtmfMediaMode::Collect && leased(
                    leases,
                    direction,
                    DtmfMediaMode::Collect,
                ) {
                    Err(CapabilityError::CollectorConflict)
                } else {
                    Ok(AcquirePlan::Install(direction))
                }
            },
        }
    }
}

/// What a release comes to, before collecting ends.
#[derive(Debug, Clone, Copy, PartialEq, Eq, Structural)]
pub enum ReleasePlan {
    /// The lease was released before, in this generation.
    AlreadyReleased(u64),
    /// The lease is out of force. Where `drain` is set, repeated packets of the last
    /// digit have to pass before the relay is set anew.
    Settle { direction: DtmfRelayDirection, drain: bool },
}

/// The leases of a bridge.
pub struct DtmfCapabilities {
    pub leases: KeyedMap<DtmfCapabilityLease>,
}

/// No two collectors share a direction.
pub open spec fn one_collector(leases: Map<Seq<char>, Lease>) -> bool {
    forall|a: Seq<char>, b: Seq<char>, direction: DtmfRelayDirection|
        #![trigger holds(leases[a], direction, DtmfMediaMode::Collect), holds(leases[b], direction, DtmfMediaMode::Collect)]
        leases.contains_key(a) && leases.contains_key(b) && holds(
            leases[a],
            direction,
            DtmfMediaMode::Collect,
        ) && holds(leases[b], direction, DtmfMediaMode::Collect) ==> a == b
}

impl DtmfCapabilities {
    pub open spec fn view(&self) -> Map<Seq<char>, Lease> {
        lease_map(self.leases@)
    }

    pub open spec fn wf(self) -> bool {
        self.leases.wf() && one_collector(self@)
    }

    pub fn new() -> (capabilities: Self)
        ensures
            capabilities.wf(),
            capabilities@ == Map::<Seq<char>, Lease>::empty(),
    {
        let capabilities = DtmfCapabilities { leases: KeyedMap::new() };
        assert(capabilities@ =~= Map::<Seq<char>, Lease>::empty());
        capabilities
    }

    fn has_lease(&self, direction: DtmfRelayDirection, mode: DtmfMediaMode) -> (has: bool)
        requires
            self.leases.wf(),
        ensures
            has == leased(self@, direction, mode),
    {
        let mut i: usize = 0;
        while i < self.leases.len()
            invariant
                self.leases.wf(),
                i <= self.leases.entries().len(),
                forall|k: int|
                    0 <= k < i ==> !holds(
                        (#[trigger] self.leases.entries()[k]).value@,
                        direction,
                        mode,
                    ),
            decreases self.leases.entries().len() - i,
        {
            let lease = self.leases.value_at(i);
            let key = self.leases.key_at(i);
            if lease.active && lease.direction == direction && lease.request.mode == mode {
                proof {
                    assert(self.leases.has_at(key@, i as int));
                    self.leases.lemma_index(key@, i as int);
                    assert(self@.contains_key(key@));
                    assert(holds(self@[key@], direction, mode));
                }
                return true;
            }
            i = i + 1;
        }
        proof {
            assert forall|id: Seq<char>| #[trigger] self@.contains_key(id) implies !holds(
                self@[id],
                direction,
                mode,
            ) by {
                let at = self.leases.index_of(id);
                assert(self.leases.has_at(id, at));
                self.leases.lemma_index(id, at);
            }
        }
        false
    }

    /// The mode that the relay of a direction has to be in.
    pub fn desired_mode(&self, direction: DtmfRelayDirection) -> (mode: DtmfMediaMode)
        requires
            self.leases.wf(),
        ensures
            mode == desired(self@, direction),
    {
        if self.has_lease(direction, DtmfMediaMode::Collect) {
            DtmfMediaMode::Collect
        } else if self.has_lease(direction, DtmfMediaMode::Observe) {
            DtmfMediaMode::Observe
        } else {
            DtmfMediaMode::Transparent
        }
    }

    /// Decides on a request.
    pub fn plan_acquire(
        &self,
        bindings: &Option<DtmfSessionBindings>,
        stopped: bool,
        caller: &ParserConfig,
        callee: &ParserConfig,
        request: &DtmfCapabilityLeaseRequest,
    ) -> (plan: Result<AcquirePlan, CapabilityError>)
        requires
            self.wf(),
        ensures
            plan == acquisition(self@, *bindings, stopped, *caller, *callee, request@),
    {
        if stopped {
            return Err(CapabilityError::Terminating);
        }
        if request.mode == DtmfMediaMode::Transparent {
            return Err(CapabilityError::InvalidMode);
        }
        let direction = match dtmf_direction(bindings, request.source_session_id.as_str()) {
            Ok(direction) => direction,
            Err(error) => return Err(error),
        };
        match self.leases.get(request.lease_id.as_str()) {
            Some(existing) => {
                if !existing.request.same(request) {
                    return Err(CapabilityError::LeaseIdCollision);
                }
                if !existing.active {
                    return Err(CapabilityError::LeaseReleased);
                }
                return Ok(AcquirePlan::AlreadyReady(existing.ready_generation));
            },
            None => {},
        }
        let config = match direction {
            DtmfRelayDirection::CallerToCallee => caller,
            DtmfRelayDirection::CalleeToCaller => callee,
        };
        if request.requested_generation > config.generation {
            return Err(CapabilityError::StaleMediaGeneration);
        }
        if config.capability.is_none() {
            return Err(CapabilityError::NotNegotiated);
        }
        if request.mode == DtmfMediaMode::Collect && self.has_lease(
            direction,
            DtmfMediaMode::Collect,
        ) {
            return Err(CapabilityError::CollectorConflict);
        }
        Ok(AcquirePlan::Install(direction))
    }

    /// Puts a lease in force once the fast path is left, and sets the relay. Gives
    /// the generation from which on the relay does what the lease asks for.
    pub fn install(
        &mut self,
        request: DtmfCapabilityLeaseRequest,
        direction: DtmfRelayDirection,
        config: &mut ParserConfig,
    ) -> (ready_generation: u64)
        requires
            old(self).wf(),
            !old(self)@.contains_key(request.lease_id@),
            request.mode == DtmfMediaMode::Collect ==> !leased(
                old(self)@,
                direction,
                DtmfMediaMode::Collect,
            ),
        ensures
            final(self).wf(),
            final(self)@ == old(self)@.insert(
                request.lease_id@,
                Lease {
                    request: request@,
                    direction,
                    ready_generation,
                    active: true,
                    released_generation: None,
                },
            ),
            *final(config) == set_to(*old(config), desired(final(self)@, direction)),
            ready_generation == final(config).generation,
    {
        let ghost before = self@;
        let ghost asked = request@;
        let id = request.lease_id.clone();
        let collects = request.mode == DtmfMediaMode::Collect || self.has_lease(
            direction,
            DtmfMediaMode::Collect,
        );
        let observes = request.mode == DtmfMediaMode::Observe || self.has_lease(
            direction,
            DtmfMediaMode::Observe,
        );
        let mode = if collects {
            DtmfMediaMode::Collect
        } else if observes {
            DtmfMediaMode::Observe
        } else {
            DtmfMediaMode::Transparent
        };
        let ready_generation: u64 = set_dtmf_mode(config, mode);
        self.leases.insert(
            id,
            DtmfCapabilityLease {
                request,
                direction,
                ready_generation,
                active: true,
                released_generation: None,
            },
        );
        proof {
            let lease = Lease {
                request: asked,
                direction,
                ready_generation,
                active: true,
                released_generation: None,
            };
            let after = before.insert(asked.lease_id, lease);
            assert(self@ =~= after);
            lemma_leased_with(before, asked.lease_id, lease, direction, DtmfMediaMode::Collect);
            lemma_leased_with(before, asked.lease_id, lease, direction, DtmfMediaMode::Observe);
            assert(mode == desired(after, direction));
            assert forall|a: Seq<char>, b: Seq<char>, d: DtmfRelayDirection|
                #![trigger holds(after[a], d, DtmfMediaMode::Collect), holds(after[b], d, DtmfMediaMode::Collect)]
                after.contains_key(a) && after.contains_key(b) && holds(
                    after[a],
                    d,
                    DtmfMediaMode::Collect,
                ) && holds(after[b], d, DtmfMediaMode::Collect) implies a == b by {
                if a != b {
                    if a == asked.lease_id {
                        assert(before.contains_key(b) && holds(before[b], d, DtmfMediaMode::Collect));
                        assert(leased(before, direction, DtmfMediaMode::Collect));
                    } else if b == asked.lease_id {
                        assert(before.contains_key(a) && holds(before[a], d, DtmfMediaMode::Collect));
                        assert(leased(before, direction, DtmfMediaMode::Collect));
                    } else {
                        assert(holds(before[a], d, DtmfMediaMode::Collect));
                        assert(holds(before[b], d, DtmfMediaMode::Collect));
                    }
                }
            }
        }
        ready_generation
    }

    /// Takes back a lease whose relay did not follow in time.
    pub fn revoke(&mut self, lease_id: &str, direction: DtmfRelayDirection, config: &mut ParserConfig)
        requires
            old(self).wf(),
        ensures
            final(self).wf(),
            final(self)@ == old(self)@.remove(lease_id@),
            *final(config) == set_to(*old(config), desired(final(self)@, direction)),
    {
        let ghost before = self@;
        let _ = self.leases.remove(lease_id);
        proof {
            assert(self@ =~= before.remove(lease_id@));
            lemma_fewer_leases(before, self@);
        }
        let mode = self.desired_mode(direction);
        let _ = set_dtmf_mode(config, mode);
    }

    /// Puts a lease out of force.
    pub fn begin_release(&mut self, lease_id: &str, caller: &ParserConfig, callee: &ParserConfig) -> (plan:
        Result<ReleasePlan, CapabilityError>)
        requires
            old(self).wf(),
        ensures
            final(self).wf(),
            if !old(self)@.contains_key(lease_id@) {
                plan == Err::<ReleasePlan, CapabilityError>(CapabilityError::LeaseNotFound) && final(self)@ == old(self)@
            } else {
                let lease = old(self)@[lease_id@];
                if !lease.active {
                    final(self)@ == old(self)@ && plan == Ok::<ReleasePlan, CapabilityError>(
                        ReleasePlan::AlreadyReleased(
                            match lease.released_generation {
                                Some(generation) => generation,
                                None => lease.ready_generation,
                            },
                        ),
                    )
                } else {
                    let config = if lease.direction is CallerToCallee {
                        *caller
                    } else {
                        *callee
                    };
                    &&& final(self)@ == old(self)@.insert(
                        lease_id@,
                        Lease { active: false, ..lease },
                    )
                    &&& plan == Ok::<ReleasePlan, CapabilityError>(
                        ReleasePlan::Settle {
                            direction: lease.direction,
                            drain: config.mode == DtmfMediaMode::Collect && desired(
                                final(self)@,
                                lease.direction,
                            ) != DtmfMediaMode::Collect,
                        },
                    )
                }
            },
    {
        let ghost before = self@;
        let at: usize = match self.leases.find(lease_id) {
            Some(at) => at,
            None => return Err(CapabilityError::LeaseNotFound),
        };
        let lease = self.leases.value_at(at);
        if !lease.active {
            let generation: u64 = match lease.released_generation {
                Some(generation) => generation,
                None => lease.ready_generation,
            };
            return Ok(ReleasePlan::AlreadyReleased(generation));
        }
        let direction = lease.direction;
        let ended = DtmfCapabilityLease {
            request: DtmfCapabilityLeaseRequest {
                lease_id: lease.request.lease_id.clone(),
                owner: lease.request.owner.clone(),
                source_session_id: lease.request.source_session_id.clone(),
                mode: lease.request.mode,
                requested_generation: lease.request.requested_generation,
            },
            direction,
            ready_generation: lease.ready_generation,
            active: false,
            released_generation: lease.released_generation,
        };
        self.leases.set_at(at, ended);
        proof {
            assert(self@ =~= before.insert(
                lease_id@,
                Lease { active: false, ..before[lease_id@] },
            ));
            lemma_fewer_leases(before, self@);
        }
        let mode = self.desired_mode(direction);
        let config = match direction {
            DtmfRelayDirection::CallerToCallee => caller,
            DtmfRelayDirection::CalleeToCaller => callee,
        };
        let drain = config.mode == DtmfMediaMode::Collect && mode != DtmfMediaMode::Collect;
        Ok(ReleasePlan::Settle { direction, drain })
    }

    /// Sets the relay after a lease went out of force. Gives the generation from
    /// which on the lease has no effect.
    pub fn finish_release(
        &mut self,
        lease_id: &str,
        direction: DtmfRelayDirection,
        config: &mut ParserConfig,
    ) -> (released_generation: u64)
        requires
            old(self).wf(),
            old(self)@.contains_key(lease_id@),
            !old(self)@[lease_id@].active,
        ensures
            final(self).wf(),
            *final(config) == set_to(*old(config), desired(old(self)@, direction)),
            released_generation == final(config).generation,
            final(self)@ == old(self)@.insert(
                lease_id@,
                Lease {
                    released_generation: Some(released_generation),
                    ..old(self)@[lease_id@]
                },
            ),
    {
        let ghost before = self@;
        let mode = self.desired_mode(direction);
        let released_generation: u64 = set_dtmf_mode(config, mode);
        match self.leases.find(lease_id) {
            Some(at) => {
                let lease = self.leases.value_at(at);
                let ended = DtmfCapabilityLease {
                    request: DtmfCapabilityLeaseRequest {
                        lease_id: lease.request.lease_id.clone(),
                        owner: lease.request.owner.clone(),
                        source_session_id: lease.request.source_session_id.clone(),
                        mode: lease.request.mode,
                        requested_generation: lease.request.requested_generation,
                    },
                    direction: lease.direction,
                    ready_generation: lease.ready_generation,
                    active: lease.active,
                    released_generation: Some(released_generation),
                };
                self.leases.set_at(at, ended);
            },
            None => {},
        }
        proof {
            assert(self@ =~= before.insert(
                lease_id@,
                Lease { released_generation: Some(released_generation), ..before[lease_id@] },
            ));
            lemma_fewer_leases(before, self@);
        }
        released_generation
    }
}

proof fn lemma_leased_with(
    leases: Map<Seq<char>, Lease>,
    id: Seq<char>,
    lease: Lease,
    direction: DtmfRelayDirection,
    mode: DtmfMediaMode,
)
    requires
        !leases.contains_key(id),
    ensures
        leased(leases.insert(id, lease), direction, mode) == (leased(leases, direction, mode)
            || holds(lease, direction, mode)),
{
    let after = leases.insert(id, lease);
    if leased(leases, direction, mode) {
        let k = choose|k: Seq<char>| #[trigger]
            leases.contains_key(k) && holds(leases[k], direction, mode);
        assert(after.contains_key(k) && holds(after[k], direction, mode));
    }
    if holds(lease, direction, mode) {
        assert(after.contains_key(id) && holds(after[id], direction, mode));
    }
    if leased(after, direction, mode) {
        let k = choose|k: Seq<char>| #[trigger]
            after.contains_key(k) && holds(after[k], direction, mode);
        if k != id {
            assert(leases.contains_key(k) && holds(leases[k], direction, mode));
        }
    }
}

proof fn lemma_fewer_leases(before: Map<Seq<char>, Lease>, after: Map<Seq<char>, Lease>)
    requires
        one_collector(before),
        forall|id: Seq<char>| #[trigger]
            after.contains_key(id) ==> before.contains_key(id) && (after[id].active
                ==> before[id].active) && after[id].direction == before[id].direction
                && after[id].request == before[id].request,
    ensures
        one_collector(after),
{
    assert forall|a: Seq<char>, b: Seq<char>, d: DtmfRelayDirection|
        #![trigger holds(after[a], d, DtmfMediaMode::Collect), holds(after[b], d, DtmfMediaMode::Collect)]
        after.contains_key(a) && after.contains_key(b) && holds(
            after[a],
            d,
            DtmfMediaMode::Collect,
        ) && holds(after[b], d, DtmfMediaMode::Collect) implies a == b by {
        assert(holds(before[a], d, DtmfMediaMode::Collect));
        assert(holds(before[b], d, DtmfMediaMode::Collect));
    }
}

/// A second collector for the same direction is refused as being in conflict with the
/// first, unless its request is refused for what it asks of the media.
pub proof fn lemma_second_collector_is_refused(
    leases: Map<Seq<char>, Lease>,
    bindings: DtmfSessionBindings,
    caller: ParserConfig,
    callee: ParserConfig,
    request: LeaseRequest,
)
    requires
        request.mode == DtmfMediaMode::Collect,
        direction_of(Some(bindings), request.source_session_id) is Ok,
        leased(
            leases,
            direction_of(Some(bindings), request.source_session_id)->Ok_0,
            DtmfMediaMode::Collect,
        ),
        !leases.contains_key(request.lease_id),
    ensures
        ({
            let config = if direction_of(Some(bindings), request.source_session_id)->Ok_0
                is CallerToCallee {
                caller
            } else {
                callee
            };
            acquisition(leases, Some(bindings), false, caller, callee, request) == Err::<
                AcquirePlan,
                CapabilityError,
            >(
                if request.requested_generation > config.generation {
                    CapabilityError::StaleMediaGeneration
                } else if config.capability is None {
                    CapabilityError::NotNegotiated
                } else {
                    CapabilityError::CollectorConflict
                },
            )
        }),
{
}

/// Asking again for a lease in force changes nothing: the same generation is given.
pub proof fn lemma_acquiring_twice_is_one_lease(
    leases: Map<Seq<char>, Lease>,
    bindings: Option<DtmfSessionBindings>,
    caller: ParserConfig,
    callee: ParserConfig,
    request: LeaseRequest,
)
    requires
        leases.contains_key(request.lease_id),
        leases[request.lease_id].request == request,
        leases[request.lease_id].active,
        request.mode != DtmfMediaMode::Transparent,
        direction_of(bindings, request.source_session_id) is Ok,
    ensures
        acquisition(leases, bindings, false, caller, callee, request) == Ok::<
            AcquirePlan,
            CapabilityError,
        >(AcquirePlan::AlreadyReady(leases[request.lease_id].ready_generation)),
{
}

/// A lease that was released cannot be acquired again.
pub proof fn lemma_released_lease_stays_released(
    leases: Map<Seq<char>, Lease>,
    bindings: Option<DtmfSessionBindings>,
    stopped: bool,
    caller: ParserConfig,
    callee: ParserConfig,
    request: LeaseRequest,
)
    requires
        leases.contains_key(request.lease_id),
        !leases[request.lease_id].active,
    ensures
        acquisition(leases, bindings, stopped, caller, callee, request) is Err,
{
}

} // verus!
