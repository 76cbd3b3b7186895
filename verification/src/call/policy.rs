//! The settings of a domain as far as they bear on a call: who is recorded, whose
//! calls are analysed, and what a trunk is called and where it is.

use crate::call::model::{AiPolicyDecisionSnapshot, OutboundTarget, TransportAddress};
use crate::text::{
    after_prefix, chars_of, decimal, decimal_text, join2, join3, opt_text, parse_u64, parsed_u64,
    same_text, split_at_first, split_once, strip_prefix,
};
use vstd::prelude::*;

verus! {

#[derive(Debug, Clone)]
pub struct ExtensionConfig {
    pub id: u64,
    pub number: String,
    pub auth_user: String,
    pub password: String,
    pub enabled: bool,
}

/// A trunk: its name, and where its other end is.
#[derive(Debug, Clone)]
pub struct TrunkConfig {
    pub id: u64,
    pub name: String,
    pub server_host: String,
    /// Whether the server's host is written as an IP address.
    pub server_is_address: bool,
    pub server_port: u16,
    pub outbound_proxy_host: Option<String>,
    /// Whether the proxy's host is written as an IP address.
    pub proxy_is_address: bool,
    pub outbound_proxy_port: Option<u16>,
    pub transport: String,
    pub keep_alive_seconds: u32,
    /// For how long a trunk that is registered at asks to be; a peer does not use it.
    pub requested_expires_seconds: u32,
    pub enabled: bool,
}

#[derive(Debug, Clone)]
pub struct RegisterAccountConfig {
    pub id: u64,
    pub reg_trunk_id: u64,
    pub auth_name: String,
    pub auth_pwd: String,
    pub enabled: bool,
}

#[derive(Debug, Clone, Copy, PartialEq, Eq, Structural)]
pub enum RecordingTargetType {
    Extension,
    PeerTrunk,
    RegTrunk,
}

#[derive(Debug, Clone, Copy, PartialEq, Eq, Structural)]
pub struct RecordingTargetRef {
    pub target_type: RecordingTargetType,
    pub target_id: u64,
}

#[derive(Debug, Clone, Copy, PartialEq, Eq, Structural)]
pub enum RecordingDirection {
    Inbound,
    Outbound,
    Both,
}

impl RecordingDirection {
    pub open spec fn covers(self, other: RecordingDirection) -> bool {
        self is Both || self == other
    }

    pub fn matches(self, other: RecordingDirection) -> (matches: bool)
        ensures
            matches == self.covers(other),
    {
        self == RecordingDirection::Both || self == other
    }
}

#[derive(Debug, Clone)]
pub struct RecordingPolicy {
    pub id: u64,
    pub enabled: bool,
    pub direction: RecordingDirection,
    pub targets: Vec<RecordingTargetRef>,
}

/// The calls that an AI policy is about.
#[derive(Debug, Clone, Copy, PartialEq, Eq, Structural)]
pub enum AiPolicyDirection {
    Inbound,
    Outbound,
    Internal,
    All,
}

impl AiPolicyDirection {
    pub open spec fn covers(self, from_trunk: bool, to_trunk: bool) -> bool {
        match self {
            AiPolicyDirection::Inbound => from_trunk,
            AiPolicyDirection::Outbound => to_trunk,
            AiPolicyDirection::Internal => !from_trunk && !to_trunk,
            AiPolicyDirection::All => true,
        }
    }

    pub fn matches(self, from_trunk: bool, to_trunk: bool) -> (matches: bool)
        ensures
            matches == self.covers(from_trunk, to_trunk),
    {
        match self {
            AiPolicyDirection::Inbound => from_trunk,
            AiPolicyDirection::Outbound => to_trunk,
            AiPolicyDirection::Internal => !from_trunk && !to_trunk,
            AiPolicyDirection::All => true,
        }
    }
}

#[derive(Debug, Clone)]
pub struct AiPolicyConfig {
    pub id: u64,
    pub name: String,
    pub enabled: bool,
    pub targets: Vec<RecordingTargetRef>,
    pub direction: AiPolicyDirection,
    pub priority: i64,
    pub ai_profile_id: String,
}

/// The settings of a domain. The AI policies stand in the order in which they are
/// tried.
#[derive(Debug, Clone)]
pub struct DomainRuntimeConfig {
    pub domain_id: String,
    pub name: String,
    pub realm: String,
    pub enabled: bool,
    pub version: u64,
    pub extensions: Vec<ExtensionConfig>,
    pub peer_trunks: Vec<TrunkConfig>,
    pub reg_trunks: Vec<TrunkConfig>,
    pub reg_accounts: Vec<RegisterAccountConfig>,
    pub recording_policies: Vec<RecordingPolicy>,
    pub ai_policies: Vec<AiPolicyConfig>,
}

/// The number that a text writes.
fn number(text: &str) -> (value: Option<u64>)
    ensures
        value == parsed_u64(text@),
{
    let chars = chars_of(text);
    parse_u64(&chars)
}

/// The trunk and the account of a reference such as `reg:3/7`.
pub open spec fn registration_of(trunk_ref: Seq<char>) -> Option<(Option<u64>, Option<u64>)> {
    match after_prefix(trunk_ref, "reg:"@) {
        Some(rest) => match split_at_first(rest, '/') {
            Some((trunk, account)) => Some((parsed_u64(trunk), parsed_u64(account))),
            None => None,
        },
        None => None,
    }
}

fn read_registration(trunk_ref: &str) -> (parts: Option<(Option<u64>, Option<u64>)>)
    ensures
        parts == registration_of(trunk_ref@),
{
    let rest = match strip_prefix(trunk_ref, "reg:") {
        Some(rest) => rest,
        None => return None,
    };
    match split_once(rest.as_str(), '/') {
        Some((trunk, account)) => Some((number(trunk.as_str()), number(account.as_str()))),
        None => None,
    }
}

/// The trunk that a registration is of.
pub open spec fn registered_trunk(trunk_ref: Seq<char>) -> Option<u64> {
    match registration_of(trunk_ref) {
        Some((trunk, _)) => trunk,
        None => None,
    }
}

pub fn reg_trunk_id(trunk_ref: &str) -> (id: Option<u64>)
    ensures
        id == registered_trunk(trunk_ref@),
{
    match read_registration(trunk_ref) {
        Some((trunk, _)) => trunk,
        None => None,
    }
}

/// Whether a reference is to the peer trunk `id`.
pub open spec fn is_peer(trunk_ref: Option<Seq<char>>, id: u64) -> bool {
    trunk_ref == Some("peer:"@ + decimal(id as nat))
}

pub open spec fn is_registered(trunk_ref: Option<Seq<char>>, id: u64) -> bool {
    match trunk_ref {
        Some(text) => registered_trunk(text) == Some(id),
        None => false,
    }
}

/// The extension that a target is, where it is one.
pub open spec fn target_extension(target: OutboundTarget) -> Option<u64> {
    match target {
        OutboundTarget::Endpoint { endpoint_id, .. } => parsed_u64(endpoint_id@),
        OutboundTarget::Trunk { .. } => None,
    }
}

pub open spec fn target_trunk(target: OutboundTarget) -> Option<Seq<char>> {
    match target {
        OutboundTarget::Endpoint { .. } => None,
        OutboundTarget::Trunk { trunk_ref } => Some(trunk_ref@),
    }
}

/// Whether a call touches a target on the side it comes from.
pub open spec fn touched_inbound(
    target: RecordingTargetRef,
    caller_extension: Option<u64>,
    inbound: Option<Seq<char>>,
) -> bool {
    match target.target_type {
        RecordingTargetType::Extension => caller_extension == Some(target.target_id),
        RecordingTargetType::PeerTrunk => is_peer(inbound, target.target_id),
        RecordingTargetType::RegTrunk => is_registered(inbound, target.target_id),
    }
}

/// Whether a call touches a target on the side it goes to.
pub open spec fn touched_outbound(target: RecordingTargetRef, outbound: OutboundTarget) -> bool {
    match target.target_type {
        RecordingTargetType::Extension => target_extension(outbound) == Some(target.target_id),
        RecordingTargetType::PeerTrunk => is_peer(target_trunk(outbound), target.target_id),
        RecordingTargetType::RegTrunk => is_registered(target_trunk(outbound), target.target_id),
    }
}

/// Whether a recording policy with this direction covers a call through one of its
/// targets. An extension that calls is outbound, one that is called inbound; for a
/// trunk it is the other way round.
pub open spec fn recording_covers(
    direction: RecordingDirection,
    target: RecordingTargetRef,
    caller_extension: Option<u64>,
    inbound: Option<Seq<char>>,
    outbound: OutboundTarget,
) -> bool {
    let from_here = touched_inbound(target, caller_extension, inbound);
    let to_here = touched_outbound(target, outbound);
    if target.target_type is Extension {
        (from_here && direction.covers(RecordingDirection::Outbound)) || (to_here
            && direction.covers(RecordingDirection::Inbound))
    } else {
        (from_here && direction.covers(RecordingDirection::Inbound)) || (to_here
            && direction.covers(RecordingDirection::Outbound))
    }
}

pub open spec fn recording_applies(
    policy: RecordingPolicy,
    caller_extension: Option<u64>,
    inbound: Option<Seq<char>>,
    outbound: OutboundTarget,
) -> bool {
    policy.enabled && exists|i: int|
        0 <= i < policy.targets@.len() && recording_covers(
            policy.direction,
            #[trigger] policy.targets@[i],
            caller_extension,
            inbound,
            outbound,
        )
}

fn opt_view(text: Option<&str>) -> (copy: Option<String>)
    ensures
        opt_text(copy) == (match text {
            Some(text) => Some(text@),
            None => None,
        }),
{
    match text {
        Some(text) => Some(text.to_owned()),
        None => None,
    }
}

/// What a call touches, with its references read.
struct CallSides {
    caller_extension: Option<u64>,
    inbound: Option<String>,
    inbound_registered: Option<u64>,
    callee_extension: Option<u64>,
    outbound: Option<String>,
    outbound_registered: Option<u64>,
}

impl CallSides {
    spec fn of(
        self,
        caller_extension: Option<u64>,
        inbound: Option<Seq<char>>,
        outbound: OutboundTarget,
    ) -> bool {
        &&& self.caller_extension == caller_extension
        &&& opt_text(self.inbound) == inbound
        &&& self.inbound_registered == (match inbound {
            Some(text) => registered_trunk(text),
            None => None,
        })
        &&& self.callee_extension == target_extension(outbound)
        &&& opt_text(self.outbound) == target_trunk(outbound)
        &&& self.outbound_registered == (match target_trunk(outbound) {
            Some(text) => registered_trunk(text),
            None => None,
        })
    }

    fn read(caller_extension: Option<u64>, inbound: Option<&str>, outbound: &OutboundTarget) -> (sides:
        Self)
        ensures
            sides.of(
                caller_extension,
                match inbound {
                    Some(text) => Some(text@),
                    None => None,
                },
                *outbound,
            ),
    {
        let inbound_registered = match inbound {
            Some(text) => reg_trunk_id(text),
            None => None,
        };
        let (callee_extension, to, outbound_registered) = match outbound {
            OutboundTarget::Endpoint { endpoint_id, .. } => (
                number(endpoint_id.as_str()),
                None,
                None,
            ),
            OutboundTarget::Trunk { trunk_ref } => (
                None,
                Some(trunk_ref.clone()),
                reg_trunk_id(trunk_ref.as_str()),
            ),
        };
        CallSides {
            caller_extension,
            inbound: opt_view(inbound),
            inbound_registered,
            callee_extension,
            outbound: to,
            outbound_registered,
        }
    }

    fn touches_inbound(&self, target: RecordingTargetRef) -> (touches: bool)
        ensures
            forall|outbound: OutboundTarget|
                #[trigger] self.of(self.caller_extension, opt_text(self.inbound), outbound)
                    ==> touches == touched_inbound(
                    target,
                    self.caller_extension,
                    opt_text(self.inbound),
                ),
    {
        match target.target_type {
            RecordingTargetType::Extension => match self.caller_extension {
                Some(id) => id == target.target_id,
                None => false,
            },
            RecordingTargetType::PeerTrunk => match &self.inbound {
                Some(text) => {
                    let peer = join2("peer:", decimal_text(target.target_id).as_str());
                    text.eq(&peer)
                },
                None => false,
            },
            RecordingTargetType::RegTrunk => match self.inbound_registered {
                Some(id) => id == target.target_id,
                None => false,
            },
        }
    }

    fn touches_outbound(&self, target: RecordingTargetRef) -> (touches: bool)
        ensures
            forall|outbound: OutboundTarget|
                #[trigger] self.of(self.caller_extension, opt_text(self.inbound), outbound)
                    ==> touches == touched_outbound(target, outbound),
    {
        match target.target_type {
            RecordingTargetType::Extension => match self.callee_extension {
                Some(id) => id == target.target_id,
                None => false,
            },
            RecordingTargetType::PeerTrunk => match &self.outbound {
                Some(text) => {
                    let peer = join2("peer:", decimal_text(target.target_id).as_str());
                    text.eq(&peer)
                },
                None => false,
            },
            RecordingTargetType::RegTrunk => match self.outbound_registered {
                Some(id) => id == target.target_id,
                None => false,
            },
        }
    }
}

/// The recording policies that apply to a call, in their order.
pub open spec fn recording_ids(
    policies: Seq<RecordingPolicy>,
    caller_extension: Option<u64>,
    inbound: Option<Seq<char>>,
    outbound: OutboundTarget,
) -> Seq<u64>
    decreases policies.len(),
{
    if policies.len() == 0 {
        Seq::empty()
    } else {
        let front = recording_ids(policies.drop_last(), caller_extension, inbound, outbound);
        if recording_applies(policies.last(), caller_extension, inbound, outbound) {
            front.push(policies.last().id)
        } else {
            front
        }
    }
}

pub fn recording_policy_ids_for_candidate(
    domain: &DomainRuntimeConfig,
    caller_extension_id: Option<u64>,
    inbound_trunk_ref: Option<&str>,
    outbound_target: &OutboundTarget,
) -> (ids: Vec<u64>)
    ensures
        ids@ == recording_ids(
            domain.recording_policies@,
            caller_extension_id,
            match inbound_trunk_ref {
                Some(text) => Some(text@),
                None => None,
            },
            *outbound_target,
        ),
{
    let sides = CallSides::read(caller_extension_id, inbound_trunk_ref, outbound_target);
    let ghost inbound = opt_text(sides.inbound);
    assert(sides.of(sides.caller_extension, inbound, *outbound_target));
    let mut ids: Vec<u64> = Vec::new();
    let mut i: usize = 0;
    while i < domain.recording_policies.len()
        invariant
            i <= domain.recording_policies.len(),
            sides.of(caller_extension_id, inbound, *outbound_target),
            sides.caller_extension == caller_extension_id,
            inbound == opt_text(sides.inbound),
            ids@ == recording_ids(
                domain.recording_policies@.take(i as int),
                caller_extension_id,
                inbound,
                *outbound_target,
            ),
        decreases domain.recording_policies.len() - i,
    {
        let policy = &domain.recording_policies[i];
        assert(domain.recording_policies@.take(i + 1).drop_last()
            =~= domain.recording_policies@.take(i as int));
        let mut applies = false;
        let mut k: usize = 0;
        while k < policy.targets.len()
            invariant
                k <= policy.targets.len(),
                sides.of(caller_extension_id, inbound, *outbound_target),
                sides.caller_extension == caller_extension_id,
                inbound == opt_text(sides.inbound),
                applies == exists|j: int|
                    0 <= j < k && recording_covers(
                        policy.direction,
                        #[trigger] policy.targets@[j],
                        caller_extension_id,
                        inbound,
                        *outbound_target,
                    ),
            decreases policy.targets.len() - k,
        {
            let target = policy.targets[k];
            assert(sides.of(sides.caller_extension, opt_text(sides.inbound), *outbound_target));
            let from_here = sides.touches_inbound(target);
            let to_here = sides.touches_outbound(target);
            let covers = if target.target_type == RecordingTargetType::Extension {
                (from_here && policy.direction.matches(RecordingDirection::Outbound)) || (to_here
                    && policy.direction.matches(RecordingDirection::Inbound))
            } else {
                (from_here && policy.direction.matches(RecordingDirection::Inbound)) || (to_here
                    && policy.direction.matches(RecordingDirection::Outbound))
            };
            assert(covers == recording_covers(
                policy.direction,
                policy.targets@[k as int],
                caller_extension_id,
                inbound,
                *outbound_target,
            ));
            if covers {
                applies = true;
            }
            k = k + 1;
        }
        if policy.enabled && applies {
            ids.push(policy.id);
        }
        i = i + 1;
    }
    assert(domain.recording_policies@.take(i as int) =~= domain.recording_policies@);
    ids
}

/// Whether an AI policy is about a call.
pub open spec fn ai_applies(
    policy: AiPolicyConfig,
    caller_extension: Option<u64>,
    inbound: Option<Seq<char>>,
    outbound: OutboundTarget,
) -> bool {
    &&& policy.enabled
    &&& policy.direction.covers(inbound is Some, target_trunk(outbound) is Some)
    &&& exists|i: int|
        0 <= i < policy.targets@.len() && (touched_inbound(
            #[trigger] policy.targets@[i],
            caller_extension,
            inbound,
        ) || touched_outbound(policy.targets@[i], outbound))
}

/// The first AI policy that is about a call, from `i` on.
pub open spec fn first_ai_policy(
    policies: Seq<AiPolicyConfig>,
    caller_extension: Option<u64>,
    inbound: Option<Seq<char>>,
    outbound: OutboundTarget,
    i: nat,
) -> Option<AiPolicyDecisionSnapshot>
    decreases policies.len() - i,
{
    if i >= policies.len() {
        None
    } else if ai_applies(policies[i as int], caller_extension, inbound, outbound) {
        Some(
            AiPolicyDecisionSnapshot {
                policy_id: policies[i as int].id,
                profile_id: policies[i as int].ai_profile_id,
            },
        )
    } else {
        first_ai_policy(policies, caller_extension, inbound, outbound, i + 1)
    }
}

pub fn ai_policy_for_candidate(
    domain: &DomainRuntimeConfig,
    caller_extension_id: Option<u64>,
    inbound_trunk_ref: Option<&str>,
    outbound_target: &OutboundTarget,
) -> (decision: Option<AiPolicyDecisionSnapshot>)
    ensures
        decision == first_ai_policy(
            domain.ai_policies@,
            caller_extension_id,
            match inbound_trunk_ref {
                Some(text) => Some(text@),
                None => None,
            },
            *outbound_target,
            0,
        ),
{
    let sides = CallSides::read(caller_extension_id, inbound_trunk_ref, outbound_target);
    let ghost inbound = opt_text(sides.inbound);
    let mut i: usize = 0;
    while i < domain.ai_policies.len()
        invariant
            i <= domain.ai_policies.len(),
            sides.of(caller_extension_id, inbound, *outbound_target),
            sides.caller_extension == caller_extension_id,
            inbound == opt_text(sides.inbound),
            inbound == (match inbound_trunk_ref {
                Some(text) => Some(text@),
                None => None,
            }),
            first_ai_policy(
                domain.ai_policies@,
                caller_extension_id,
                inbound,
                *outbound_target,
                0,
            ) == first_ai_policy(
                domain.ai_policies@,
                caller_extension_id,
                inbound,
                *outbound_target,
                i as nat,
            ),
        decreases domain.ai_policies.len() - i,
    {
        let policy = &domain.ai_policies[i];
        let mut touched = false;
        let mut k: usize = 0;
        while k < policy.targets.len()
            invariant
                k <= policy.targets.len(),
                sides.of(caller_extension_id, inbound, *outbound_target),
                sides.caller_extension == caller_extension_id,
                inbound == opt_text(sides.inbound),
                touched == exists|j: int|
                    0 <= j < k && (touched_inbound(
                        #[trigger] policy.targets@[j],
                        caller_extension_id,
                        inbound,
                    ) || touched_outbound(policy.targets@[j], *outbound_target)),
            decreases policy.targets.len() - k,
        {
            let target = policy.targets[k];
            assert(sides.of(sides.caller_extension, opt_text(sides.inbound), *outbound_target));
            let here = sides.touches_inbound(target) || sides.touches_outbound(target);
            assert(here == (touched_inbound(
                policy.targets@[k as int],
                caller_extension_id,
                inbound,
            ) || touched_outbound(policy.targets@[k as int], *outbound_target)));
            if here {
                touched = true;
            }
            k = k + 1;
        }
        let from_trunk = sides.inbound.is_some();
        let to_trunk = sides.outbound.is_some();
        if policy.enabled && policy.direction.matches(from_trunk, to_trunk) && touched {
            return Some(
                AiPolicyDecisionSnapshot {
                    policy_id: policy.id,
                    profile_id: policy.ai_profile_id.clone(),
                },
            );
        }
        i = i + 1;
    }
    None
}

/// The first trunk with a number, from `i` on.
pub open spec fn trunk_from(trunks: Seq<TrunkConfig>, id: u64, enabled_only: bool, i: nat) -> Option<TrunkConfig>
    decreases trunks.len() - i,
{
    if i >= trunks.len() {
        None
    } else if trunks[i as int].id == id && (!enabled_only || trunks[i as int].enabled) {
        Some(trunks[i as int])
    } else {
        trunk_from(trunks, id, enabled_only, i + 1)
    }
}

fn find_trunk(trunks: &Vec<TrunkConfig>, id: u64, enabled_only: bool) -> (found: Option<&TrunkConfig>)
    ensures
        match (found, trunk_from(trunks@, id, enabled_only, 0)) {
            (Some(trunk), Some(expected)) => *trunk == expected,
            (None, None) => true,
            _ => false,
        },
{
    let mut i: usize = 0;
    while i < trunks.len()
        invariant
            i <= trunks.len(),
            trunk_from(trunks@, id, enabled_only, 0) == trunk_from(
                trunks@,
                id,
                enabled_only,
                i as nat,
            ),
        decreases trunks.len() - i,
    {
        if trunks[i].id == id && (!enabled_only || trunks[i].enabled) {
            return Some(&trunks[i]);
        }
        i = i + 1;
    }
    None
}

/// The first account with a number that registers at a trunk, from `i` on.
pub open spec fn account_from(
    accounts: Seq<RegisterAccountConfig>,
    id: u64,
    trunk: u64,
    enabled_only: bool,
    i: nat,
) -> Option<RegisterAccountConfig>
    decreases accounts.len() - i,
{
    if i >= accounts.len() {
        None
    } else if accounts[i as int].id == id && accounts[i as int].reg_trunk_id == trunk && (
    !enabled_only || accounts[i as int].enabled) {
        Some(accounts[i as int])
    } else {
        account_from(accounts, id, trunk, enabled_only, i + 1)
    }
}

fn find_account(accounts: &Vec<RegisterAccountConfig>, id: u64, trunk: u64, enabled_only: bool) -> (found: Option<
    &RegisterAccountConfig,
>)
    ensures
        match (found, account_from(accounts@, id, trunk, enabled_only, 0)) {
            (Some(account), Some(expected)) => *account == expected,
            (None, None) => true,
            _ => false,
        },
{
    let mut i: usize = 0;
    while i < accounts.len()
        invariant
            i <= accounts.len(),
            account_from(accounts@, id, trunk, enabled_only, 0) == account_from(
                accounts@,
                id,
                trunk,
                enabled_only,
                i as nat,
            ),
        decreases accounts.len() - i,
    {
        if accounts[i].id == id && accounts[i].reg_trunk_id == trunk && (!enabled_only
            || accounts[i].enabled) {
            return Some(&accounts[i]);
        }
        i = i + 1;
    }
    None
}

/// How a trunk is shown: a peer by its name, a registration by the names of its trunk
/// and its account.
pub open spec fn shown_trunk(domain: DomainRuntimeConfig, trunk_ref: Seq<char>) -> Option<Seq<char>> {
    match after_prefix(trunk_ref, "peer:"@) {
        Some(id) => match parsed_u64(id) {
            Some(id) => match trunk_from(domain.peer_trunks@, id, false, 0) {
                Some(trunk) => Some(trunk.name@),
                None => None,
            },
            None => None,
        },
        None => match registration_of(trunk_ref) {
            Some((Some(trunk_id), Some(account_id))) => match (
                trunk_from(domain.reg_trunks@, trunk_id, false, 0),
                account_from(domain.reg_accounts@, account_id, trunk_id, false, 0),
            ) {
                (Some(trunk), Some(account)) => Some(trunk.name@ + "/"@ + account.auth_name@),
                _ => None,
            },
            _ => None,
        },
    }
}

pub fn trunk_display_name(domain: &DomainRuntimeConfig, trunk_ref: &str) -> (name: Option<String>)
    ensures
        opt_text(name) == shown_trunk(*domain, trunk_ref@),
{
    match strip_prefix(trunk_ref, "peer:") {
        Some(id) => {
            let id: u64 = match number(id.as_str()) {
                Some(id) => id,
                None => return None,
            };
            return match find_trunk(&domain.peer_trunks, id, false) {
                Some(trunk) => Some(trunk.name.clone()),
                None => None,
            };
        },
        None => {},
    }
    match read_registration(trunk_ref) {
        Some((Some(trunk_id), Some(account_id))) => {
            let trunk = match find_trunk(&domain.reg_trunks, trunk_id, false) {
                Some(trunk) => trunk,
                None => return None,
            };
            match find_account(&domain.reg_accounts, account_id, trunk_id, false) {
                Some(account) => Some(
                    join3(trunk.name.as_str(), "/", account.auth_name.as_str()),
                ),
                None => None,
            }
        },
        _ => None,
    }
}

/// Where a trunk's packets go: to its proxy, where it has one, else to its server. A host
/// that is not written as an IP address is no place to send to.
pub open spec fn address_of(trunk: TrunkConfig) -> Option<TransportAddress> {
    let (host, is_address) = match trunk.outbound_proxy_host {
        Some(host) => (host, trunk.proxy_is_address),
        None => (trunk.server_host, trunk.server_is_address),
    };
    if is_address {
        Some(
            TransportAddress {
                host,
                port: match trunk.outbound_proxy_port {
                    Some(port) => port,
                    None => trunk.server_port,
                },
            },
        )
    } else {
        None
    }
}

pub open spec fn trunk_address(domain: DomainRuntimeConfig, trunk_ref: Seq<char>) -> Option<
    TransportAddress,
> {
    match after_prefix(trunk_ref, "peer:"@) {
        Some(id) => match parsed_u64(id) {
            Some(id) => match trunk_from(domain.peer_trunks@, id, true, 0) {
                Some(trunk) => address_of(trunk),
                None => None,
            },
            None => None,
        },
        None => match registration_of(trunk_ref) {
            Some((Some(trunk_id), Some(account_id))) => match (
                account_from(domain.reg_accounts@, account_id, trunk_id, true, 0),
                trunk_from(domain.reg_trunks@, trunk_id, true, 0),
            ) {
                (Some(_), Some(trunk)) => address_of(trunk),
                _ => None,
            },
            _ => None,
        },
    }
}

fn trunk_target(trunk: &TrunkConfig) -> (address: Option<TransportAddress>)
    ensures
        address == address_of(*trunk),
{
    let (host, is_address) = match &trunk.outbound_proxy_host {
        Some(host) => (host.clone(), trunk.proxy_is_address),
        None => (trunk.server_host.clone(), trunk.server_is_address),
    };
    if !is_address {
        return None;
    }
    let port: u16 = match trunk.outbound_proxy_port {
        Some(port) => port,
        None => trunk.server_port,
    };
    Some(TransportAddress { host, port })
}

/// Where a trunk is reached, where it is in use and its host is an IP address.
pub fn trunk_route_target(domain: &DomainRuntimeConfig, trunk_ref: &str) -> (target: Option<
    TransportAddress,
>)
    ensures
        target == trunk_address(*domain, trunk_ref@),
{
    match strip_prefix(trunk_ref, "peer:") {
        Some(id) => {
            let id: u64 = match number(id.as_str()) {
                Some(id) => id,
                None => return None,
            };
            return match find_trunk(&domain.peer_trunks, id, true) {
                Some(trunk) => trunk_target(trunk),
                None => None,
            };
        },
        None => {},
    }
    match read_registration(trunk_ref) {
        Some((Some(trunk_id), Some(account_id))) => {
            if find_account(&domain.reg_accounts, account_id, trunk_id, true).is_none() {
                return None;
            }
            match find_trunk(&domain.reg_trunks, trunk_id, true) {
                Some(trunk) => trunk_target(trunk),
                None => None,
            }
        },
        _ => None,
    }
}

/// The first extension in use with a number, from `i` on.
pub open spec fn extension_from(extensions: Seq<ExtensionConfig>, number: Seq<char>, i: nat) -> Option<
    ExtensionConfig,
>
    decreases extensions.len() - i,
{
    if i >= extensions.len() {
        None
    } else if extensions[i as int].enabled && extensions[i as int].number@ == number {
        Some(extensions[i as int])
    } else {
        extension_from(extensions, number, i + 1)
    }
}

pub fn find_extension<'a>(domain: &'a DomainRuntimeConfig, wanted: &str) -> (found: Option<&'a ExtensionConfig>)
    ensures
        match (found, extension_from(domain.extensions@, wanted@, 0)) {
            (Some(extension), Some(expected)) => *extension == expected,
            (None, None) => true,
            _ => false,
        },
{
    let mut i: usize = 0;
    while i < domain.extensions.len()
        invariant
            i <= domain.extensions.len(),
            extension_from(domain.extensions@, wanted@, 0) == extension_from(
                domain.extensions@,
                wanted@,
                i as nat,
            ),
        decreases domain.extensions.len() - i,
    {
        if domain.extensions[i].enabled && same_text(domain.extensions[i].number.as_str(), wanted) {
            return Some(&domain.extensions[i]);
        }
        i = i + 1;
    }
    None
}

/// A trunk that can be reached can be shown.
pub proof fn lemma_reached_trunk_is_shown(domain: DomainRuntimeConfig, trunk_ref: Seq<char>)
    requires
        trunk_address(domain, trunk_ref) is Some,
    ensures
        shown_trunk(domain, trunk_ref) is Some,
{
    match after_prefix(trunk_ref, "peer:"@) {
        Some(id) => {
            lemma_enabled_trunk_is_there(domain.peer_trunks@, parsed_u64(id)->Some_0, 0);
        },
        None => {
            let (trunk, account) = registration_of(trunk_ref)->Some_0;
            lemma_enabled_trunk_is_there(domain.reg_trunks@, trunk->Some_0, 0);
            lemma_enabled_account_is_there(
                domain.reg_accounts@,
                account->Some_0,
                trunk->Some_0,
                0,
            );
        },
    }
}

proof fn lemma_enabled_trunk_is_there(trunks: Seq<TrunkConfig>, id: u64, i: nat)
    requires
        trunk_from(trunks, id, true, i) is Some,
    ensures
        trunk_from(trunks, id, false, i) is Some,
    decreases trunks.len() - i,
{
    if trunks[i as int].id != id {
        lemma_enabled_trunk_is_there(trunks, id, i + 1);
    }
}

proof fn lemma_enabled_account_is_there(accounts: Seq<RegisterAccountConfig>, id: u64, trunk: u64, i: nat)
    requires
        account_from(accounts, id, trunk, true, i) is Some,
    ensures
        account_from(accounts, id, trunk, false, i) is Some,
    decreases accounts.len() - i,
{
    if !(accounts[i as int].id == id && accounts[i as int].reg_trunk_id == trunk) {
        lemma_enabled_account_is_there(accounts, id, trunk, i + 1);
    }
}

/// A disabled policy never applies.
pub proof fn lemma_disabled_policy_never_applies(
    policy: RecordingPolicy,
    ai: AiPolicyConfig,
    caller_extension: Option<u64>,
    inbound: Option<Seq<char>>,
    outbound: OutboundTarget,
)
    ensures
        !policy.enabled ==> !recording_applies(policy, caller_extension, inbound, outbound),
        !ai.enabled ==> !ai_applies(ai, caller_extension, inbound, outbound),
{
}

} // verus!
