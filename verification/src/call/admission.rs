//! How an offered call is taken or refused: from the offer, over the search for a
//! route, to the two sessions that the call begins with.
//!
//! The search itself is done elsewhere. Each step here says what is to be asked next,
//! or with which status the call is refused.

use crate::call::actor::{ActorState, CallPlan, SessionActor};
use crate::call::action::reject_action_id;
use crate::call::callee::{CalleeSessionActor, CalleeState};
use crate::call::config_snapshot::{
    copy_address, CallConfigSnapshot, CallNumberSnapshot, CallRuntime, RouteSnapshot,
};
use crate::call::coordinator::{CallCore, CallTimeouts};
use crate::call::dtmf::{DtmfSourcePolicy, DtmfSourceState, SourceState};
use crate::call::event::{InboundInviteOffered, InboundInviteSource, RouteAnalysisFailure};
use crate::call::model::{
    session_id, session_name, OutboundCandidate, OutboundTarget, ResolvedRoute, SdpBody, SessionRef,
    TransportAddress,
};
use crate::call::policy::{
    ai_policy_for_candidate, extension_from, find_extension, first_ai_policy, recording_ids,
    recording_policy_ids_for_candidate, shown_trunk, trunk_address, trunk_display_name,
    trunk_route_target, DomainRuntimeConfig,
};
use crate::call::registry::{DeduperState, LegEventDeduper};
use crate::media::DtmfSessionBindings;
use crate::text::{
    copy_opt, decimal, decimal_text, join4, lemma_two_numbers_read_back, opt_text, same_text,
};
use vstd::prelude::*;

verus! {

/// Where an endpoint is registered.
#[derive(Debug, Clone)]
pub struct EndpointRegistration {
    pub domain_id: String,
    pub endpoint_id: String,
    pub registered: bool,
    pub route_target: Option<TransportAddress>,
}

/// The registrations. Until they are ready, none of them counts.
#[derive(Debug, Clone)]
pub struct Registrations {
    pub ready: bool,
    pub items: Vec<EndpointRegistration>,
}

/// What a call from a trunk is matched to.
#[derive(Debug, Clone)]
pub enum InboundRouteTarget {
    Reject,
    Extension(String),
    Auto,
}

#[derive(Debug, Clone)]
pub struct InboundRouteMatch {
    pub route_id: String,
    pub route_name: String,
    pub target: InboundRouteTarget,
    pub transformed_caller: String,
    pub transformed_callee: String,
}

#[derive(Debug, Clone)]
pub struct NumberAnalysisRequest {
    pub domain_id: String,
    pub caller: String,
    pub callee: String,
}

/// Where the analysis of the numbers leads.
#[derive(Debug, Clone)]
pub enum RouteResult {
    Extension {
        endpoint_id: String,
        endpoint_number: String,
        transformed_caller: String,
        transformed_callee: String,
    },
    Trunk {
        trunks: Vec<String>,
        route_id: String,
        route_name: String,
        transformed_caller: String,
        transformed_callee: String,
    },
    CalleeSet,
    BusinessModule,
}

#[derive(Debug, Clone)]
pub enum RouteDecision {
    Matched(RouteResult),
    Reject { sip_status: u16 },
    Continue,
}

/// What comes after an offer.
pub enum OfferStep {
    Reject(u16),
    MatchInbound { trunk_ref: String },
    Analyze(NumberAnalysisRequest),
}

/// What comes after the match of a call from a trunk.
pub enum InboundStep {
    Reject(u16),
    Resolved(ResolvedRoute),
    Analyze(NumberAnalysisRequest),
}

/// The refusal of an invite, as the adapter is told.
pub struct InviteRejection {
    pub adapter_call_leg_id: String,
    pub status_code: u16,
    pub action_id: String,
    pub generation: u64,
}

pub fn reject_inbound(event: &InboundInviteOffered, status_code: u16) -> (rejection: InviteRejection)
    ensures
        rejection.adapter_call_leg_id == event.adapter_call_leg_id,
        rejection.status_code == status_code,
        rejection.action_id@ == "reject-"@ + event.adapter_call_leg_id@,
        rejection.generation == 1,
{
    InviteRejection {
        adapter_call_leg_id: event.adapter_call_leg_id.clone(),
        status_code,
        action_id: reject_action_id(event.adapter_call_leg_id.as_str()),
        generation: 1,
    }
}

/// The trunk that a call comes from.
pub open spec fn inbound_trunk(event: InboundInviteOffered) -> Option<String> {
    match event.origin {
        Some(InboundInviteSource::Trunk { trunk_ref }) => Some(trunk_ref),
        _ => None,
    }
}

pub fn inbound_trunk_ref(event: &InboundInviteOffered) -> (trunk: Option<String>)
    ensures
        trunk == inbound_trunk(*event),
{
    match &event.origin {
        Some(InboundInviteSource::Trunk { trunk_ref }) => Some(trunk_ref.clone()),
        _ => None,
    }
}

/// Begins with an offer: it needs a domain in use whose call records can be written.
pub fn begin_admission(
    event: &InboundInviteOffered,
    domain: Option<&DomainRuntimeConfig>,
    cdr_admits: bool,
) -> (step: OfferStep)
    ensures
        step == (match domain {
            Some(domain) if domain.enabled => if !cdr_admits {
                OfferStep::Reject(503)
            } else {
                match inbound_trunk(*event) {
                    Some(trunk_ref) => OfferStep::MatchInbound { trunk_ref },
                    None => OfferStep::Analyze(
                        NumberAnalysisRequest {
                            domain_id: event.domain_id,
                            caller: event.caller_number,
                            callee: event.callee_number,
                        },
                    ),
                }
            },
            _ => OfferStep::Reject(404),
        }),
{
    let enabled = match domain {
        Some(domain) => domain.enabled,
        None => false,
    };
    if !enabled {
        return OfferStep::Reject(404);
    }
    if !cdr_admits {
        return OfferStep::Reject(503);
    }
    match inbound_trunk_ref(event) {
        Some(trunk_ref) => OfferStep::MatchInbound { trunk_ref },
        None => OfferStep::Analyze(
            NumberAnalysisRequest {
                domain_id: event.domain_id.clone(),
                caller: event.caller_number.clone(),
                callee: event.callee_number.clone(),
            },
        ),
    }
}

/// The registration of an endpoint, from `i` on.
pub open spec fn registration_from(
    items: Seq<EndpointRegistration>,
    domain_id: Seq<char>,
    endpoint_id: Seq<char>,
    i: nat,
) -> Option<EndpointRegistration>
    decreases items.len() - i,
{
    if i >= items.len() {
        None
    } else if items[i as int].domain_id@ == domain_id && items[i as int].endpoint_id@
        == endpoint_id {
        Some(items[i as int])
    } else {
        registration_from(items, domain_id, endpoint_id, i + 1)
    }
}

/// The registration that an endpoint can be reached by.
pub open spec fn reachable(
    registrations: Registrations,
    domain_id: Seq<char>,
    endpoint_id: Seq<char>,
) -> Option<EndpointRegistration> {
    match registration_from(registrations.items@, domain_id, endpoint_id, 0) {
        Some(item) if item.registered && registrations.ready => Some(item),
        _ => None,
    }
}

/// An endpoint and the numbers that a call to it signals.
pub struct EndpointCall {
    pub endpoint_id: Seq<char>,
    pub endpoint_number: Seq<char>,
    pub caller: Seq<char>,
    pub callee: Seq<char>,
}

/// Nothing is decided yet on recording and analysis.
pub open spec fn undecided(candidate: OutboundCandidate) -> bool {
    !candidate.recording_requested && candidate.recording_policy_ids@.len() == 0
        && candidate.ai_policy is None
}

/// Whether a route leads to an endpoint at its registered address.
pub open spec fn leads_to_endpoint(
    route: ResolvedRoute,
    call: EndpointCall,
    target: Option<TransportAddress>,
) -> bool {
    &&& route.signaling_caller_number@ == call.caller
    &&& route.signaling_callee_number@ == call.callee
    &&& route.outbound_route_id is None
    &&& route.outbound_route_name is None
    &&& route.candidates@.len() == 1
    &&& route.candidates@[0].outbound_target matches OutboundTarget::Endpoint {
        endpoint_id,
        endpoint_number,
    }
    &&& endpoint_id@ == call.endpoint_id
    &&& endpoint_number@ == call.endpoint_number
    &&& route.candidates@[0].callee_route_target == target
    &&& route.candidates@[0].outbound_trunk_ref is None
    &&& route.candidates@[0].outbound_trunk_name is None
    &&& undecided(route.candidates@[0])
}

/// The route to an endpoint, where it is registered.
pub fn endpoint_resolved_route(
    registrations: &Registrations,
    domain_id: &str,
    endpoint_id: String,
    endpoint_number: String,
    signaling_caller_number: String,
    signaling_callee_number: String,
) -> (route: Option<ResolvedRoute>)
    ensures
        match (route, reachable(*registrations, domain_id@, endpoint_id@)) {
            (Some(route), Some(item)) => leads_to_endpoint(
                route,
                (EndpointCall {
                    endpoint_id: endpoint_id@,
                    endpoint_number: endpoint_number@,
                    caller: signaling_caller_number@,
                    callee: signaling_callee_number@,
                }),
                item.route_target,
            ),
            (None, None) => true,
            _ => false,
        },
{
    let mut i: usize = 0;
    while i < registrations.items.len()
        invariant
            i <= registrations.items.len(),
            registration_from(registrations.items@, domain_id@, endpoint_id@, 0)
                == registration_from(registrations.items@, domain_id@, endpoint_id@, i as nat),
        decreases registrations.items.len() - i,
    {
        let item = &registrations.items[i];
        if same_text(item.domain_id.as_str(), domain_id) && item.endpoint_id.eq(&endpoint_id) {
            if !item.registered || !registrations.ready {
                return None;
            }
            let mut candidates: Vec<OutboundCandidate> = Vec::new();
            candidates.push(
                OutboundCandidate {
                    outbound_target: OutboundTarget::Endpoint { endpoint_id, endpoint_number },
                    callee_route_target: copy_address(&item.route_target),
                    outbound_trunk_ref: None,
                    outbound_trunk_name: None,
                    recording_requested: false,
                    recording_policy_ids: Vec::new(),
                    ai_policy: None,
                },
            );
            return Some(
                ResolvedRoute {
                    signaling_caller_number,
                    signaling_callee_number,
                    candidates,
                    outbound_route_id: None,
                    outbound_route_name: None,
                },
            );
        }
        i = i + 1;
    }
    None
}

/// Goes on with a call from a trunk: it is refused, sent to an extension, or its
/// numbers, as the match has changed them, are analysed.
pub fn after_inbound_match(
    event: &InboundInviteOffered,
    domain: &DomainRuntimeConfig,
    registrations: &Registrations,
    matched: Option<&InboundRouteMatch>,
) -> (step: InboundStep)
    ensures
        match matched {
            None => step == InboundStep::Reject(404),
            Some(matched) => match matched.target {
                InboundRouteTarget::Reject => step == InboundStep::Reject(403),
                InboundRouteTarget::Auto => step == InboundStep::Analyze(
                    NumberAnalysisRequest {
                        domain_id: event.domain_id,
                        caller: matched.transformed_caller,
                        callee: matched.transformed_callee,
                    },
                ),
                InboundRouteTarget::Extension(number) => match extension_from(
                    domain.extensions@,
                    number@,
                    0,
                ) {
                    None => step == InboundStep::Reject(404),
                    Some(extension) => match reachable(
                        *registrations,
                        event.domain_id@,
                        decimal(extension.id as nat),
                    ) {
                        None => step == InboundStep::Reject(480),
                        Some(item) => step matches InboundStep::Resolved(route)
                            && leads_to_endpoint(
                            route,
                            (EndpointCall {
                                endpoint_id: decimal(extension.id as nat),
                                endpoint_number: extension.number@,
                                caller: matched.transformed_caller@,
                                callee: extension.number@,
                            }),
                            item.route_target,
                        ),
                    },
                },
            },
        },
{
    let matched = match matched {
        Some(matched) => matched,
        None => return InboundStep::Reject(404),
    };
    match &matched.target {
        InboundRouteTarget::Reject => InboundStep::Reject(403),
        InboundRouteTarget::Auto => InboundStep::Analyze(
            NumberAnalysisRequest {
                domain_id: event.domain_id.clone(),
                caller: matched.transformed_caller.clone(),
                callee: matched.transformed_callee.clone(),
            },
        ),
        InboundRouteTarget::Extension(number) => {
            let extension = match find_extension(domain, number.as_str()) {
                Some(extension) => extension,
                None => return InboundStep::Reject(404),
            };
            match endpoint_resolved_route(
                registrations,
                event.domain_id.as_str(),
                decimal_text(extension.id),
                extension.number.clone(),
                matched.transformed_caller.clone(),
                extension.number.clone(),
            ) {
                Some(route) => InboundStep::Resolved(route),
                None => InboundStep::Reject(480),
            }
        },
    }
}

/// Whether a candidate leads to a trunk.
pub open spec fn leads_to_trunk(
    candidate: OutboundCandidate,
    domain: DomainRuntimeConfig,
    trunk: String,
) -> bool {
    &&& candidate.outbound_target == (OutboundTarget::Trunk { trunk_ref: trunk })
    &&& candidate.callee_route_target == trunk_address(domain, trunk@)
    &&& opt_text(candidate.outbound_trunk_name) == shown_trunk(domain, trunk@)
    &&& candidate.outbound_trunk_ref == Some(trunk)
    &&& undecided(candidate)
}

fn trunk_candidates(domain: &DomainRuntimeConfig, trunks: &Vec<String>) -> (candidates: Vec<
    OutboundCandidate,
>)
    ensures
        candidates@.len() == trunks@.len(),
        forall|i: int|
            0 <= i < trunks@.len() ==> leads_to_trunk(
                #[trigger] candidates@[i],
                *domain,
                trunks@[i],
            ),
{
    let mut candidates: Vec<OutboundCandidate> = Vec::new();
    let mut i: usize = 0;
    while i < trunks.len()
        invariant
            i <= trunks.len(),
            candidates@.len() == i,
            forall|k: int|
                0 <= k < i ==> leads_to_trunk(#[trigger] candidates@[k], *domain, trunks@[k]),
        decreases trunks.len() - i,
    {
        let trunk = &trunks[i];
        candidates.push(
            OutboundCandidate {
                outbound_target: OutboundTarget::Trunk { trunk_ref: trunk.clone() },
                callee_route_target: trunk_route_target(domain, trunk.as_str()),
                outbound_trunk_name: trunk_display_name(domain, trunk.as_str()),
                outbound_trunk_ref: Some(trunk.clone()),
                recording_requested: false,
                recording_policy_ids: Vec::new(),
                ai_policy: None,
            },
        );
        i = i + 1;
    }
    candidates
}

/// The route that the analysis leads to, or the status to refuse with.
pub open spec fn route_follows(
    domain_id: Seq<char>,
    domain: DomainRuntimeConfig,
    registrations: Registrations,
    analysis: Result<RouteDecision, RouteAnalysisFailure>,
    outcome: Result<ResolvedRoute, u16>,
) -> bool {
    match analysis {
        Err(RouteAnalysisFailure::Timeout) => outcome == Err::<ResolvedRoute, u16>(408),
        Err(RouteAnalysisFailure::Worker(_)) => outcome == Err::<ResolvedRoute, u16>(500),
        Ok(RouteDecision::Reject { sip_status }) => outcome == Err::<ResolvedRoute, u16>(sip_status),
        Ok(RouteDecision::Continue) => outcome == Err::<ResolvedRoute, u16>(404),
        Ok(RouteDecision::Matched(RouteResult::CalleeSet)) => outcome == Err::<ResolvedRoute, u16>(
            501,
        ),
        Ok(RouteDecision::Matched(RouteResult::BusinessModule)) => outcome == Err::<
            ResolvedRoute,
            u16,
        >(501),
        Ok(
            RouteDecision::Matched(
                RouteResult::Extension {
                    endpoint_id,
                    endpoint_number,
                    transformed_caller,
                    transformed_callee,
                },
            ),
        ) => match reachable(registrations, domain_id, endpoint_id@) {
            None => outcome == Err::<ResolvedRoute, u16>(480),
            Some(item) => outcome matches Ok(route) && leads_to_endpoint(
                route,
                (EndpointCall {
                    endpoint_id: endpoint_id@,
                    endpoint_number: endpoint_number@,
                    caller: transformed_caller@,
                    callee: transformed_callee@,
                }),
                item.route_target,
            ),
        },
        Ok(
            RouteDecision::Matched(
                RouteResult::Trunk {
                    trunks,
                    route_id,
                    route_name,
                    transformed_caller,
                    transformed_callee,
                },
            ),
        ) => if trunks@.len() == 0 {
            outcome == Err::<ResolvedRoute, u16>(503)
        } else {
            &&& outcome matches Ok(route)
            &&& route.signaling_caller_number == transformed_caller
            &&& route.signaling_callee_number == transformed_callee
            &&& route.outbound_route_id == Some(route_id)
            &&& route.outbound_route_name == Some(route_name)
            &&& route.candidates@.len() == trunks@.len()
            &&& forall|i: int|
                0 <= i < trunks@.len() ==> leads_to_trunk(
                    #[trigger] route.candidates@[i],
                    domain,
                    trunks@[i],
                )
        },
    }
}

pub fn after_analysis(
    domain_id: &str,
    domain: &DomainRuntimeConfig,
    registrations: &Registrations,
    analysis: Result<RouteDecision, RouteAnalysisFailure>,
) -> (outcome: Result<ResolvedRoute, u16>)
    ensures
        route_follows(domain_id@, *domain, *registrations, analysis, outcome),
{
    let decision = match analysis {
        Ok(decision) => decision,
        Err(RouteAnalysisFailure::Timeout) => return Err(408),
        Err(RouteAnalysisFailure::Worker(_)) => return Err(500),
    };
    let result = match decision {
        RouteDecision::Matched(result) => result,
        RouteDecision::Reject { sip_status } => return Err(sip_status),
        RouteDecision::Continue => return Err(404),
    };
    match result {
        RouteResult::CalleeSet => Err(501),
        RouteResult::BusinessModule => Err(501),
        RouteResult::Extension {
            endpoint_id,
            endpoint_number,
            transformed_caller,
            transformed_callee,
        } => match endpoint_resolved_route(
            registrations,
            domain_id,
            endpoint_id,
            endpoint_number,
            transformed_caller,
            transformed_callee,
        ) {
            Some(route) => Ok(route),
            None => Err(480),
        },
        RouteResult::Trunk { trunks, route_id, route_name, transformed_caller, transformed_callee } => {
            if trunks.len() == 0 {
                return Err(503);
            }
            Ok(
                ResolvedRoute {
                    signaling_caller_number: transformed_caller,
                    signaling_callee_number: transformed_callee,
                    candidates: trunk_candidates(domain, &trunks),
                    outbound_route_id: Some(route_id),
                    outbound_route_name: Some(route_name),
                },
            )
        },
    }
}

/// The extension that calls, where it is one in use.
pub open spec fn calling_extension(domain: DomainRuntimeConfig, number: Seq<char>) -> Option<u64> {
    match extension_from(domain.extensions@, number, 0) {
        Some(extension) => Some(extension.id),
        None => None,
    }
}

/// A candidate with the policies of the domain applied to it.
pub open spec fn policies_applied(
    before: OutboundCandidate,
    after: OutboundCandidate,
    domain: DomainRuntimeConfig,
    caller_extension: Option<u64>,
    inbound: Option<Seq<char>>,
) -> bool {
    &&& after.outbound_target == before.outbound_target
    &&& after.callee_route_target == before.callee_route_target
    &&& after.outbound_trunk_ref == before.outbound_trunk_ref
    &&& after.outbound_trunk_name == before.outbound_trunk_name
    &&& after.recording_policy_ids@ == recording_ids(
        domain.recording_policies@,
        caller_extension,
        inbound,
        before.outbound_target,
    )
    &&& after.recording_requested == (after.recording_policy_ids@.len() > 0)
    &&& after.ai_policy == first_ai_policy(
        domain.ai_policies@,
        caller_extension,
        inbound,
        before.outbound_target,
        0,
    )
}

fn apply_policies(
    candidates: &Vec<OutboundCandidate>,
    domain: &DomainRuntimeConfig,
    caller_extension_id: Option<u64>,
    inbound: &Option<String>,
) -> (applied: Vec<OutboundCandidate>)
    ensures
        applied@.len() == candidates@.len(),
        forall|i: int|
            0 <= i < candidates@.len() ==> policies_applied(
                candidates@[i],
                #[trigger] applied@[i],
                *domain,
                caller_extension_id,
                opt_text(*inbound),
            ),
{
    let trunk = match inbound {
        Some(trunk) => Some(trunk.as_str()),
        None => None,
    };
    let mut applied: Vec<OutboundCandidate> = Vec::new();
    let mut i: usize = 0;
    while i < candidates.len()
        invariant
            i <= candidates.len(),
            applied@.len() == i,
            opt_text(*inbound) == (match trunk {
                Some(text) => Some(text@),
                None => None,
            }),
            forall|k: int|
                0 <= k < i ==> policies_applied(
                    candidates@[k],
                    #[trigger] applied@[k],
                    *domain,
                    caller_extension_id,
                    opt_text(*inbound),
                ),
        decreases candidates.len() - i,
    {
        let candidate = &candidates[i];
        let recording_policy_ids = recording_policy_ids_for_candidate(
            domain,
            caller_extension_id,
            trunk,
            &candidate.outbound_target,
        );
        let ai_policy = ai_policy_for_candidate(
            domain,
            caller_extension_id,
            trunk,
            &candidate.outbound_target,
        );
        applied.push(candidate.with_policies(recording_policy_ids, ai_policy));
        i = i + 1;
    }
    applied
}

/// Whether a snapshot is that of an offered call on a route.
pub open spec fn snapshot_fits(
    snapshot: CallConfigSnapshot,
    event: InboundInviteOffered,
    domain: DomainRuntimeConfig,
    matched: Option<InboundRouteMatch>,
    route: ResolvedRoute,
) -> bool {
    let inbound = inbound_trunk(event);
    &&& snapshot.wf()
    &&& snapshot.domain_config_version == domain.version
    &&& snapshot.domain_id == event.domain_id
    &&& snapshot.numbers == (CallNumberSnapshot {
        original_caller: event.caller_number,
        original_callee: event.callee_number,
        signaling_caller: route.signaling_caller_number,
        signaling_callee: route.signaling_callee_number,
    })
    &&& snapshot.inbound.route_id == (match matched {
        Some(matched) => Some(matched.route_id),
        None => None,
    })
    &&& snapshot.inbound.route_name == (match matched {
        Some(matched) => Some(matched.route_name),
        None => None,
    })
    &&& snapshot.inbound.trunk_ref == inbound
    &&& opt_text(snapshot.inbound.trunk_name) == (match inbound {
        Some(trunk) => shown_trunk(domain, trunk@),
        None => None,
    })
    &&& snapshot.outbound.route_id == route.outbound_route_id
    &&& snapshot.outbound.route_name == route.outbound_route_name
    &&& snapshot.outbound.trunk_ref == route.candidates@[0].outbound_trunk_ref
    &&& snapshot.outbound.trunk_name == route.candidates@[0].outbound_trunk_name
    &&& snapshot.candidates@.len() == route.candidates@.len()
    &&& forall|i: int|
        0 <= i < route.candidates@.len() ==> policies_applied(
            route.candidates@[i],
            #[trigger] snapshot.candidates@[i],
            domain,
            calling_extension(domain, event.caller_number@),
            opt_text(inbound),
        )
}

/// Fixes the settings of a call whose route is known.
pub fn plan_call(
    event: &InboundInviteOffered,
    domain: &DomainRuntimeConfig,
    config_version: u64,
    matched: Option<&InboundRouteMatch>,
    route: ResolvedRoute,
    timeouts: CallTimeouts,
    recording_dir: String,
) -> (result: Result<CallConfigSnapshot, u16>)
    ensures
        match result {
            Ok(snapshot) => {
                &&& route.candidates@.len() > 0
                &&& snapshot.runtime_config_version == config_version
                &&& snapshot.timeouts == timeouts
                &&& snapshot.recording.recording_dir == recording_dir
                &&& snapshot_fits(
                    snapshot,
                    *event,
                    *domain,
                    match matched {
                        Some(matched) => Some(*matched),
                        None => None,
                    },
                    route,
                )
            },
            Err(status) => route.candidates@.len() == 0 && status == 503,
        },
{
    if route.candidates.len() == 0 {
        return Err(503);
    }
    let trunk_ref = inbound_trunk_ref(event);
    let trunk_name = match &trunk_ref {
        Some(trunk) => trunk_display_name(domain, trunk.as_str()),
        None => None,
    };
    let caller_extension_id = match find_extension(domain, event.caller_number.as_str()) {
        Some(extension) => Some(extension.id),
        None => None,
    };
    let candidates = apply_policies(&route.candidates, domain, caller_extension_id, &trunk_ref);
    let (route_id, route_name) = match matched {
        Some(matched) => (Some(matched.route_id.clone()), Some(matched.route_name.clone())),
        None => (None, None),
    };
    let outbound = RouteSnapshot {
        route_id: route.outbound_route_id,
        route_name: route.outbound_route_name,
        trunk_ref: copy_opt(&candidates[0].outbound_trunk_ref),
        trunk_name: copy_opt(&candidates[0].outbound_trunk_name),
    };
    match CallConfigSnapshot::new(
        config_version,
        domain.version,
        event.domain_id.clone(),
        CallNumberSnapshot {
            original_caller: event.caller_number.clone(),
            original_callee: event.callee_number.clone(),
            signaling_caller: route.signaling_caller_number,
            signaling_callee: route.signaling_callee_number,
        },
        RouteSnapshot { route_id, route_name, trunk_ref, trunk_name },
        outbound,
        candidates,
        timeouts,
        recording_dir,
    ) {
        Ok(snapshot) => Ok(snapshot),
        Err(_) => Err(503),
    }
}

/// A call that begins: its owner, the session of the first attempt, and the offer that
/// attempt is made with.
pub struct CreatedCall {
    pub call: CallRuntime,
    pub caller_actor: SessionActor,
    pub callee_actor: CalleeSessionActor,
    pub bindings: DtmfSessionBindings,
    pub callee_offer: SdpBody,
}

/// How a call is named.
pub open spec fn call_name(now_ms: u64, sequence: u64) -> Seq<char> {
    "call-"@ + decimal(now_ms as nat) + "-"@ + decimal(sequence as nat)
}

pub fn new_call_id(now_ms: u64, sequence: u64) -> (id: String)
    ensures
        id@ == call_name(now_ms, sequence),
{
    join4("call-", decimal_text(now_ms).as_str(), "-", decimal_text(sequence).as_str())
}

/// Calls that begin at another time or under another number have another name, also
/// where the numbers begin anew.
pub proof fn lemma_calls_are_named_apart(a_ms: u64, a: u64, b_ms: u64, b: u64)
    requires
        call_name(a_ms, a) == call_name(b_ms, b),
    ensures
        a_ms == b_ms,
        a == b,
{
    lemma_two_numbers_read_back("call-"@, a_ms as nat, a as nat, b_ms as nat, b as nat);
}

fn recorded_candidates(candidates: &Vec<OutboundCandidate>) -> (recorded: Vec<bool>)
    ensures
        recorded@ == Seq::new(candidates@.len(), |i: int| candidates@[i].recording_requested),
{
    let mut recorded: Vec<bool> = Vec::new();
    let mut i: usize = 0;
    while i < candidates.len()
        invariant
            i <= candidates.len(),
            recorded@ == Seq::new(i as nat, |k: int| candidates@[k].recording_requested),
        decreases candidates.len() - i,
    {
        recorded.push(candidates[i].recording_requested);
        i = i + 1;
        assert(recorded@ =~= Seq::new(i as nat, |k: int| candidates@[k].recording_requested));
    }
    recorded
}

/// Why a call does not begin: it is refused with a status, or given up without one.
#[derive(Debug, Clone, PartialEq, Eq)]
pub enum CreationFault {
    Refused(u16),
    Failed(String),
}

pub open spec fn accepted_numbers(refusals: Seq<Option<String>>) -> Seq<bool> {
    Seq::new(refusals.len(), |i: int| refusals[i] is None)
}

fn note_accepted(refusals: &Vec<Option<String>>) -> (accepted: Vec<bool>)
    ensures
        accepted@ == accepted_numbers(refusals@),
{
    let mut accepted: Vec<bool> = Vec::new();
    let mut i: usize = 0;
    while i < refusals.len()
        invariant
            i <= refusals.len(),
            accepted@ == accepted_numbers(refusals@.take(i as int)),
        decreases refusals.len() - i,
    {
        accepted.push(refusals[i].is_none());
        i = i + 1;
        assert(accepted@ =~= accepted_numbers(refusals@.take(i as int)));
    }
    assert(refusals@.take(i as int) =~= refusals@);
    accepted
}

/// Begins a call. `callee_offer` is the offer that the media relay made of the
/// caller's; where it could not be made, the call is refused. `number_refusals` says of
/// each candidate why its number is none that extensions can have, where it is not; with
/// such a number for the first candidate the call is given up.
pub fn create_call(
    event: &InboundInviteOffered,
    snapshot: CallConfigSnapshot,
    callee_offer: Option<SdpBody>,
    number_refusals: Vec<Option<String>>,
    sequence: u64,
    now_ms: u64,
    now: u64,
) -> (result: Result<CreatedCall, CreationFault>)
    requires
        snapshot.wf(),
        number_refusals@.len() == snapshot.candidates@.len(),
    ensures
        match result {
            Err(CreationFault::Refused(status)) => callee_offer is None && status == 488,
            Err(CreationFault::Failed(reason)) => callee_offer is Some && opt_text(
                number_refusals@[0],
            ) == Some(reason@),
            Ok(created) => {
                let call_id = call_name(now_ms, sequence);
                let caller = session_name(call_id, SessionRef::Caller);
                let callee = session_name(call_id, SessionRef::CalleeAttempt(1));
                &&& callee_offer == Some(created.callee_offer)
                &&& number_refusals@[0] is None
                &&& created.call.config_snapshot == snapshot
                &&& created.call.is_at(snapshot.candidates@[0])
                &&& created.call.call_id@ == call_id
                &&& created.call.caller_session_id@ == caller
                &&& created.call.callee_session_id@ == callee
                &&& created.call.caller_adapter_leg_id == event.adapter_call_leg_id
                &&& created.call.started_at_ms == now_ms
                &&& created.caller_actor.wf()
                &&& created.caller_actor.plan.call_id@ == call_id
                &&& created.caller_actor.plan.domain_id == event.domain_id
                &&& created.caller_actor.plan.owner == SessionRef::Caller
                &&& created.caller_actor.plan.owned_action_generation == 1
                &&& forall|i: usize|
                    i < snapshot.candidates@.len() ==> (
                    #[trigger] created.caller_actor.plan.records(i)
                        == snapshot.candidates@[i as int].recording_requested)
                &&& created.caller_actor@ == ActorState::fresh(
                    CallCore::fresh(
                        snapshot.timeouts,
                        created.caller_actor.core.numbers_accepted,
                        now,
                    ),
                    DeduperState::fresh(),
                    SourceState::fresh(DtmfSourcePolicy::Auto),
                )
                &&& created.caller_actor.core.numbers_accepted@ == accepted_numbers(
                    number_refusals@,
                )
                &&& created.callee_actor.wf()
                &&& created.callee_actor.call_id@ == call_id
                &&& created.callee_actor.domain_id == event.domain_id
                &&& created.callee_actor.session_id@ == callee
                &&& created.callee_actor.attempt_seq == 1
                &&& created.callee_actor.action_generation == 1
                &&& created.callee_actor@ == CalleeState::fresh()
                &&& created.bindings.call_id@ == call_id
                &&& created.bindings.domain_id == event.domain_id
                &&& created.bindings.caller_session_id@ == caller
                &&& created.bindings.callee_session_id@ == callee
            },
        },
{
    let callee_offer = match callee_offer {
        Some(offer) => offer,
        None => return Err(CreationFault::Refused(488)),
    };
    let call_id = new_call_id(now_ms, sequence);
    let caller_session_id = session_id(call_id.as_str(), SessionRef::Caller);
    let callee_session_id = session_id(call_id.as_str(), SessionRef::CalleeAttempt(1));
    let core = CallCore::new(snapshot.timeouts, note_accepted(&number_refusals), now);
    let plan = CallPlan {
        call_id: call_id.clone(),
        domain_id: event.domain_id.clone(),
        recorded: recorded_candidates(&snapshot.candidates),
        owner: SessionRef::Caller,
        owned_action_generation: 1,
    };
    let caller_actor = SessionActor::new(
        plan,
        core,
        LegEventDeduper::default(),
        DtmfSourceState::default(),
    );
    let callee_actor = CalleeSessionActor::new(call_id.clone(), event.domain_id.clone(), 1, 1);
    let bindings = DtmfSessionBindings {
        domain_id: event.domain_id.clone(),
        call_id: call_id.clone(),
        caller_session_id: caller_session_id.clone(),
        callee_session_id: callee_session_id.clone(),
    };
    match CallRuntime::new(
        call_id,
        caller_session_id,
        callee_session_id,
        event.adapter_call_leg_id.clone(),
        snapshot,
        &number_refusals[0],
        now_ms,
    ) {
        Ok(call) => Ok(CreatedCall { call, caller_actor, callee_actor, bindings, callee_offer }),
        Err(reason) => Err(CreationFault::Failed(reason)),
    }
}

} // verus!
