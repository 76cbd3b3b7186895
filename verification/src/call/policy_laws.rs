//! What holds of the settings of a domain where a call meets them: which trunk a
//! reference names and where it is, whose calls are recorded and analysed, and where
//! a route leads.

use crate::call::admission::{
    accepted_numbers, call_name, calling_extension, inbound_trunk, leads_to_endpoint,
    leads_to_trunk, policies_applied, reachable, registration_from, route_follows, snapshot_fits,
    EndpointCall, EndpointRegistration, InboundRouteMatch, Registrations, RouteDecision,
    RouteResult,
};
use crate::call::config_snapshot::CallConfigSnapshot;
use crate::call::event::{InboundInviteOffered, InboundInviteSource, RouteAnalysisFailure};
use crate::call::model::{OutboundCandidate, OutboundTarget, ResolvedRoute, TransportAddress};
use crate::call::policy::{
    account_from, address_of, ai_applies, extension_from, first_ai_policy, is_peer, is_registered,
    recording_applies, recording_covers, recording_ids, registered_trunk, registration_of,
    shown_trunk, target_extension, target_trunk, touched_inbound, touched_outbound, trunk_address,
    trunk_from, AiPolicyConfig, AiPolicyDirection, DomainRuntimeConfig, ExtensionConfig,
    RecordingDirection, RecordingPolicy, RecordingTargetRef, RecordingTargetType,
    RegisterAccountConfig, TrunkConfig,
};
use crate::text::{after_prefix, decimal, first_of, opt_text, parsed_u64};
use vstd::prelude::*;

verus! {

// ---------------------------------------------------------------------------
// References.

/// The first place of a character is the one that no other precedes.
pub proof fn lemma_first_place(s: Seq<char>, c: char, from: nat, at: nat)
    requires
        from <= at < s.len(),
        s[at as int] == c,
        forall|k: int| from <= k < at ==> (#[trigger] s[k]) != c,
    ensures
        first_of(s, c, from) == Some(at),
    decreases at - from,
{
    if from < at {
        assert(s[from as int] != c);
        lemma_first_place(s, c, from + 1, at);
    }
}

/// Where a character is not, it has no first place.
pub proof fn lemma_no_place(s: Seq<char>, c: char, from: nat)
    requires
        forall|k: int| from <= k < s.len() ==> (#[trigger] s[k]) != c,
    ensures
        first_of(s, c, from) is None,
    decreases s.len() - from,
{
    if from < s.len() {
        assert(s[from as int] != c);
        lemma_no_place(s, c, from + 1);
    }
}

/// A registration is written as its trunk and its account, and read back as they
/// were.
pub proof fn lemma_registration_reads_back(trunk: u64, account: u64)
    ensures
        ({
            let text = "reg:"@ + (decimal(trunk as nat) + "/"@ + decimal(account as nat));
            &&& registration_of(text) == Some((Some(trunk), Some(account)))
            &&& registered_trunk(text) == Some(trunk)
            &&& is_registered(Some(text), trunk)
        }),
{
    reveal_strlit("reg:");
    reveal_strlit("/");
    let front = decimal(trunk as nat);
    let back = decimal(account as nat);
    let rest = front + "/"@ + back;
    let text = "reg:"@ + rest;
    crate::text::lemma_decimal_digits(trunk as nat);
    crate::text::lemma_decimal_digits(account as nat);
    crate::text::lemma_decimal_parses_back(trunk);
    crate::text::lemma_decimal_parses_back(account);
    assert(text.take(4) =~= "reg:"@);
    assert(text.skip(4) =~= rest);
    assert(after_prefix(text, "reg:"@) == Some(rest));
    assert(rest[front.len() as int] == '/');
    assert forall|k: int| 0 <= k < front.len() implies (#[trigger] rest[k]) != '/' by {
        assert(rest[k] == front[k]);
        assert(crate::text::is_digit(front[k]));
    }
    lemma_first_place(rest, '/', 0, front.len());
    assert(rest.take(front.len() as int) =~= front);
    assert(rest.skip(front.len() as int + 1) =~= back);
}

/// A peer trunk is named by its number, and is no registration.
pub proof fn lemma_peer_is_no_registration(id: u64, other: u64)
    ensures
        is_peer(Some("peer:"@ + decimal(id as nat)), id),
        is_peer(Some("peer:"@ + decimal(id as nat)), other) ==> other == id,
        registration_of("peer:"@ + decimal(id as nat)) is None,
        !is_registered(Some("peer:"@ + decimal(id as nat)), other),
        !is_peer(None, id) && !is_registered(None, id),
{
    reveal_strlit("peer:");
    reveal_strlit("reg:");
    let text = "peer:"@ + decimal(id as nat);
    assert(text[0] == 'p');
    assert(text.take(4)[0] == 'p');
    assert("reg:"@[0] == 'r');
    if is_peer(Some(text), other) {
        assert(text.skip(5) =~= decimal(id as nat));
        assert(("peer:"@ + decimal(other as nat)).skip(5) =~= decimal(other as nat));
        crate::text::lemma_decimal_injective(id as nat, other as nat);
    }
}

// ---------------------------------------------------------------------------
// What the settings hold.

/// Whether a trunk is one that is looked for.
pub open spec fn trunk_fits(trunk: TrunkConfig, id: u64, enabled_only: bool) -> bool {
    trunk.id == id && (enabled_only ==> trunk.enabled)
}

/// The first trunk that fits is found, and none where none does.
pub proof fn lemma_first_trunk_is_found(
    trunks: Seq<TrunkConfig>,
    id: u64,
    enabled_only: bool,
    from: nat,
)
    ensures
        match trunk_from(trunks, id, enabled_only, from) {
            Some(trunk) => exists|i: int|
                from <= i < trunks.len() && (#[trigger] trunks[i]) == trunk && trunk_fits(
                    trunks[i],
                    id,
                    enabled_only,
                ) && forall|k: int|
                    from <= k < i ==> !trunk_fits(#[trigger] trunks[k], id, enabled_only),
            None => forall|k: int|
                from <= k < trunks.len() ==> !trunk_fits(#[trigger] trunks[k], id, enabled_only),
        },
    decreases trunks.len() - from,
{
    if from < trunks.len() {
        if trunk_fits(trunks[from as int], id, enabled_only) {
            assert(trunks[from as int] == trunk_from(trunks, id, enabled_only, from)->Some_0);
        } else {
            lemma_first_trunk_is_found(trunks, id, enabled_only, from + 1);
        }
    }
}

/// An account that is found has the number, registers at the trunk, and is in use
/// where it has to be.
pub proof fn lemma_found_account_fits(
    accounts: Seq<RegisterAccountConfig>,
    id: u64,
    trunk: u64,
    enabled_only: bool,
    from: nat,
    k: int,
)
    ensures
        account_from(accounts, id, trunk, enabled_only, from) matches Some(account) ==> account.id
            == id && account.reg_trunk_id == trunk && (enabled_only ==> account.enabled)
            && accounts.contains(account),
        account_from(accounts, id, trunk, enabled_only, from) is None && from <= k < accounts.len()
            ==> accounts[k].id != id || accounts[k].reg_trunk_id != trunk || (enabled_only
            && !accounts[k].enabled),
    decreases accounts.len() - from,
{
    if from < accounts.len() {
        lemma_found_account_fits(accounts, id, trunk, enabled_only, from + 1, k);
        assert(accounts.contains(accounts[from as int]));
    }
}

/// An extension that is found has the number and is in use, and none that comes
/// before it does.
pub proof fn lemma_found_extension_fits(
    extensions: Seq<ExtensionConfig>,
    number: Seq<char>,
    from: nat,
    k: int,
)
    ensures
        extension_from(extensions, number, from) matches Some(extension) ==> extension.enabled
            && extension.number@ == number && extensions.contains(extension),
        extension_from(extensions, number, from) is None && from <= k < extensions.len()
            ==> !extensions[k].enabled || extensions[k].number@ != number,
    decreases extensions.len() - from,
{
    if from < extensions.len() {
        lemma_found_extension_fits(extensions, number, from + 1, k);
        assert(extensions.contains(extensions[from as int]));
    }
}

/// The extension that calls is one in use with the caller's number.
pub proof fn lemma_calling_extension_is_in_use(domain: DomainRuntimeConfig, number: Seq<char>)
    ensures
        calling_extension(domain, number) matches Some(id) ==> exists|i: int|
            0 <= i < domain.extensions@.len() && (#[trigger] domain.extensions@[i]).id == id
                && domain.extensions@[i].enabled && domain.extensions@[i].number@ == number,
{
    lemma_found_extension_fits(domain.extensions@, number, 0, 0);
    if calling_extension(domain, number) is Some {
        let extension = extension_from(domain.extensions@, number, 0)->Some_0;
        let i = choose|i: int|
            0 <= i < domain.extensions@.len() && domain.extensions@[i] == extension;
        assert(domain.extensions@[i].id == extension.id);
    }
}

/// Packets for a trunk go to its proxy where it has one, else to its server, at the
/// proxy's port where one is set; a host that is no address is no place to send to.
pub proof fn lemma_where_a_trunk_is(trunk: TrunkConfig)
    ensures
        trunk.outbound_proxy_host matches Some(host) ==> {
            &&& trunk.proxy_is_address ==> (address_of(trunk) matches Some(at) && at.host == host)
            &&& !trunk.proxy_is_address ==> address_of(trunk) is None
        },
        trunk.outbound_proxy_host is None ==> {
            &&& trunk.server_is_address ==> (address_of(trunk) matches Some(at) && at.host
                == trunk.server_host)
            &&& !trunk.server_is_address ==> address_of(trunk) is None
        },
        address_of(trunk) matches Some(at) ==> (trunk.outbound_proxy_port matches Some(port)
            ==> at.port == port) && (trunk.outbound_proxy_port is None ==> at.port
            == trunk.server_port),
{
}

/// A peer trunk is shown by its name whether it is in use or not, and is reached only
/// while it is.
pub proof fn lemma_peer_is_shown_and_reached(domain: DomainRuntimeConfig, id: u64)
    ensures
        ({
            let text = "peer:"@ + decimal(id as nat);
            &&& shown_trunk(domain, text) == (match trunk_from(domain.peer_trunks@, id, false, 0) {
                Some(trunk) => Some(trunk.name@),
                None => None,
            })
            &&& trunk_address(domain, text) == (match trunk_from(domain.peer_trunks@, id, true, 0) {
                Some(trunk) => address_of(trunk),
                None => None,
            })
        }),
{
    let text = "peer:"@ + decimal(id as nat);
    let n = "peer:"@.len() as int;
    assert(text.take(n) =~= "peer:"@);
    assert(text.skip(n) =~= decimal(id as nat));
    crate::text::lemma_decimal_parses_back(id);
}

/// A registration is shown by the names of its trunk and its account, and is reached at
/// the trunk's address while both are in use.
pub proof fn lemma_registration_is_shown_and_reached(
    domain: DomainRuntimeConfig,
    trunk: u64,
    account: u64,
)
    ensures
        ({
            let text = "reg:"@ + (decimal(trunk as nat) + "/"@ + decimal(account as nat));
            let named = trunk_from(domain.reg_trunks@, trunk, false, 0);
            let user = account_from(domain.reg_accounts@, account, trunk, false, 0);
            let used = trunk_from(domain.reg_trunks@, trunk, true, 0);
            let active = account_from(domain.reg_accounts@, account, trunk, true, 0);
            &&& named is Some && user is Some ==> shown_trunk(domain, text) == Some(
                named->Some_0.name@ + "/"@ + user->Some_0.auth_name@,
            )
            &&& named is None || user is None ==> shown_trunk(domain, text) is None
            &&& used is Some && active is Some ==> trunk_address(domain, text) == address_of(
                used->Some_0,
            )
            &&& used is None || active is None ==> trunk_address(domain, text) is None
        }),
{
    lemma_registration_reads_back(trunk, account);
    reveal_strlit("peer:");
    reveal_strlit("reg:");
    let text = "reg:"@ + (decimal(trunk as nat) + "/"@ + decimal(account as nat));
    assert(text[0] == 'r');
    assert("peer:"@[0] == 'p');
    if text.len() >= 5 {
        assert(text.take(5)[0] == 'r');
    }
}

// ---------------------------------------------------------------------------
// Recording and analysis.

/// Whose calls a direction covers: both covers all, and each of the others itself.
pub proof fn lemma_directions_cover(direction: RecordingDirection)
    ensures
        direction.covers(RecordingDirection::Inbound) <==> direction != RecordingDirection::Outbound,
        direction.covers(RecordingDirection::Outbound) <==> direction != RecordingDirection::Inbound,
        AiPolicyDirection::All.covers(true, true) && AiPolicyDirection::All.covers(false, false),
        AiPolicyDirection::Inbound.covers(true, false) && !AiPolicyDirection::Inbound.covers(
            false,
            true,
        ),
        AiPolicyDirection::Outbound.covers(false, true) && !AiPolicyDirection::Outbound.covers(
            true,
            false,
        ),
        AiPolicyDirection::Internal.covers(false, false) && !AiPolicyDirection::Internal.covers(
            true,
            false,
        ) && !AiPolicyDirection::Internal.covers(false, true),
{
}

/// An extension that calls is recorded by a policy for outbound calls, and one that is
/// called by a policy for inbound ones.
pub proof fn lemma_extension_is_recorded_by_its_direction(
    direction: RecordingDirection,
    id: u64,
    inbound: Option<Seq<char>>,
    trunk: OutboundTarget,
    endpoint: OutboundTarget,
)
    requires
        trunk is Trunk,
        endpoint matches OutboundTarget::Endpoint { endpoint_id, .. } && endpoint_id@ == decimal(
            id as nat,
        ),
    ensures
        ({
            let target = RecordingTargetRef {
                target_type: RecordingTargetType::Extension,
                target_id: id,
            };
            &&& recording_covers(direction, target, Some(id), inbound, trunk) <==> direction
                != RecordingDirection::Inbound
            &&& recording_covers(direction, target, None, inbound, endpoint) <==> direction
                != RecordingDirection::Outbound
            &&& !recording_covers(direction, target, None, inbound, trunk)
        }),
{
    crate::text::lemma_decimal_parses_back(id);
}

/// A trunk that a call comes from is recorded by a policy for inbound calls, and one
/// that it goes to by a policy for outbound ones.
pub proof fn lemma_trunk_is_recorded_by_its_direction(
    direction: RecordingDirection,
    id: u64,
    caller: Option<u64>,
    trunk: OutboundTarget,
    endpoint: OutboundTarget,
)
    requires
        trunk matches OutboundTarget::Trunk { trunk_ref } && trunk_ref@ == "peer:"@ + decimal(
            id as nat,
        ),
        endpoint is Endpoint,
    ensures
        ({
            let target = RecordingTargetRef {
                target_type: RecordingTargetType::PeerTrunk,
                target_id: id,
            };
            let text = "peer:"@ + decimal(id as nat);
            &&& recording_covers(direction, target, caller, Some(text), endpoint) <==> direction
                != RecordingDirection::Outbound
            &&& recording_covers(direction, target, caller, None, trunk) <==> direction
                != RecordingDirection::Inbound
            &&& !recording_covers(direction, target, caller, None, endpoint)
        }),
{
}

/// A call touches a registered trunk where its reference is of that trunk, on either
/// side.
pub proof fn lemma_registered_trunk_is_touched(
    trunk: u64,
    account: u64,
    caller: Option<u64>,
    outbound: OutboundTarget,
)
    requires
        outbound matches OutboundTarget::Trunk { trunk_ref } && trunk_ref@ == "reg:"@ + (decimal(
            trunk as nat,
        ) + "/"@ + decimal(account as nat)),
    ensures
        ({
            let target = RecordingTargetRef {
                target_type: RecordingTargetType::RegTrunk,
                target_id: trunk,
            };
            let text = "reg:"@ + (decimal(trunk as nat) + "/"@ + decimal(account as nat));
            &&& touched_inbound(target, caller, Some(text))
            &&& touched_outbound(target, outbound)
            &&& !touched_inbound(target, caller, None)
        }),
{
    lemma_registration_reads_back(trunk, account);
}

/// A recording policy applies where it is enabled and one of its targets is covered.
pub proof fn lemma_when_a_recording_policy_applies(
    policy: RecordingPolicy,
    caller: Option<u64>,
    inbound: Option<Seq<char>>,
    outbound: OutboundTarget,
    i: int,
)
    ensures
        policy.enabled && 0 <= i < policy.targets@.len() && recording_covers(
            policy.direction,
            policy.targets@[i],
            caller,
            inbound,
            outbound,
        ) ==> recording_applies(policy, caller, inbound, outbound),
        policy.targets@.len() == 0 ==> !recording_applies(policy, caller, inbound, outbound),
{
}

/// The policies that record a call are those that apply to it, each where it stands:
/// every one that applies is listed, and every one that is listed applies.
pub proof fn lemma_applying_policies_are_listed(
    policies: Seq<RecordingPolicy>,
    caller: Option<u64>,
    inbound: Option<Seq<char>>,
    outbound: OutboundTarget,
    i: int,
)
    requires
        0 <= i < policies.len(),
        recording_applies(policies[i], caller, inbound, outbound),
    ensures
        recording_ids(policies, caller, inbound, outbound).contains(policies[i].id),
    decreases policies.len(),
{
    let all = recording_ids(policies, caller, inbound, outbound);
    let front = recording_ids(policies.drop_last(), caller, inbound, outbound);
    if i < policies.len() - 1 {
        lemma_applying_policies_are_listed(policies.drop_last(), caller, inbound, outbound, i);
        let k = choose|k: int| 0 <= k < front.len() && front[k] == policies[i].id;
        assert(all[k] == policies[i].id);
    } else {
        assert(all[front.len() as int] == policies[i].id);
    }
}

/// A policy that is listed applies, and the first listed stands first.
pub proof fn lemma_listed_policies_apply(
    policies: Seq<RecordingPolicy>,
    caller: Option<u64>,
    inbound: Option<Seq<char>>,
    outbound: OutboundTarget,
    k: int,
) -> (i: int)
    requires
        0 <= k < recording_ids(policies, caller, inbound, outbound).len(),
    ensures
        0 <= i < policies.len(),
        k <= i,
        policies[i].id == recording_ids(policies, caller, inbound, outbound)[k],
        recording_applies(policies[i], caller, inbound, outbound),
    decreases policies.len(),
{
    let front = recording_ids(policies.drop_last(), caller, inbound, outbound);
    lemma_no_more_listed_than_there_are(policies.drop_last(), caller, inbound, outbound);
    if k < front.len() {
        lemma_listed_policies_apply(policies.drop_last(), caller, inbound, outbound, k)
    } else {
        policies.len() - 1
    }
}

proof fn lemma_no_more_listed_than_there_are(
    policies: Seq<RecordingPolicy>,
    caller: Option<u64>,
    inbound: Option<Seq<char>>,
    outbound: OutboundTarget,
)
    ensures
        recording_ids(policies, caller, inbound, outbound).len() <= policies.len(),
    decreases policies.len(),
{
    if policies.len() > 0 {
        lemma_no_more_listed_than_there_are(policies.drop_last(), caller, inbound, outbound);
    }
}

/// The policy by which a call is analysed is the first that is about it.
pub proof fn lemma_first_applying_policy_decides(
    policies: Seq<AiPolicyConfig>,
    caller: Option<u64>,
    inbound: Option<Seq<char>>,
    outbound: OutboundTarget,
    from: nat,
    i: int,
)
    requires
        from <= i < policies.len(),
        ai_applies(policies[i], caller, inbound, outbound),
        forall|k: int|
            from <= k < i ==> !ai_applies(#[trigger] policies[k], caller, inbound, outbound),
    ensures
        first_ai_policy(policies, caller, inbound, outbound, from) matches Some(chosen)
            && chosen.policy_id == policies[i].id && chosen.profile_id == policies[i].ai_profile_id,
    decreases i - from,
{
    if from < i {
        assert(!ai_applies(policies[from as int], caller, inbound, outbound));
        lemma_first_applying_policy_decides(policies, caller, inbound, outbound, from + 1, i);
    }
}

/// Where no policy is about a call, it is not analysed.
pub proof fn lemma_no_applying_policy_decides_nothing(
    policies: Seq<AiPolicyConfig>,
    caller: Option<u64>,
    inbound: Option<Seq<char>>,
    outbound: OutboundTarget,
    from: nat,
)
    requires
        forall|k: int|
            from <= k < policies.len() ==> !ai_applies(
                #[trigger] policies[k],
                caller,
                inbound,
                outbound,
            ),
    ensures
        first_ai_policy(policies, caller, inbound, outbound, from) is None,
    decreases policies.len() - from,
{
    if from < policies.len() {
        assert(!ai_applies(policies[from as int], caller, inbound, outbound));
        lemma_no_applying_policy_decides_nothing(policies, caller, inbound, outbound, from + 1);
    }
}

/// An AI policy is about a call that it covers and that touches one of its targets on
/// either side, while it is enabled.
pub proof fn lemma_when_an_ai_policy_applies(
    policy: AiPolicyConfig,
    caller: Option<u64>,
    inbound: Option<Seq<char>>,
    outbound: OutboundTarget,
    i: int,
)
    requires
        0 <= i < policy.targets@.len(),
        touched_inbound(policy.targets@[i], caller, inbound) || touched_outbound(
            policy.targets@[i],
            outbound,
        ),
    ensures
        ai_applies(policy, caller, inbound, outbound) <==> policy.enabled && match policy.direction {
            AiPolicyDirection::Inbound => inbound is Some,
            AiPolicyDirection::Outbound => outbound is Trunk,
            AiPolicyDirection::Internal => inbound is None && outbound is Endpoint,
            AiPolicyDirection::All => true,
        },
{
}

/// A candidate keeps where it leads when the policies are applied; it is recorded
/// exactly where one of them says so.
pub proof fn lemma_policies_leave_the_target(
    before: OutboundCandidate,
    after: OutboundCandidate,
    domain: DomainRuntimeConfig,
    caller: Option<u64>,
    inbound: Option<Seq<char>>,
    i: int,
)
    requires
        policies_applied(before, after, domain, caller, inbound),
    ensures
        after.outbound_target == before.outbound_target,
        after.callee_route_target == before.callee_route_target,
        after.outbound_trunk_ref == before.outbound_trunk_ref,
        after.outbound_trunk_name == before.outbound_trunk_name,
        0 <= i < domain.recording_policies@.len() && recording_applies(
            domain.recording_policies@[i],
            caller,
            inbound,
            before.outbound_target,
        ) ==> after.recording_requested && after.recording_policy_ids@.contains(
            domain.recording_policies@[i].id,
        ),
        after.recording_requested ==> after.recording_policy_ids@.len() > 0,
        domain.recording_policies@.len() == 0 ==> !after.recording_requested,
        domain.ai_policies@.len() == 0 ==> after.ai_policy is None,
{
    if 0 <= i < domain.recording_policies@.len() && recording_applies(
        domain.recording_policies@[i],
        caller,
        inbound,
        before.outbound_target,
    ) {
        lemma_applying_policies_are_listed(
            domain.recording_policies@,
            caller,
            inbound,
            before.outbound_target,
            i,
        );
    }
}

// ---------------------------------------------------------------------------
// Routes.

/// The trunk of a call is the one it was offered from; a call from an endpoint, or
/// from nowhere that is known, has none.
pub proof fn lemma_trunk_of_an_offer(event: InboundInviteOffered)
    ensures
        event.origin matches Some(InboundInviteSource::Trunk { trunk_ref }) ==> inbound_trunk(event)
            == Some(trunk_ref),
        event.origin matches Some(InboundInviteSource::Endpoint { .. }) ==> inbound_trunk(
            event,
        ) is None,
        event.origin is None ==> inbound_trunk(event) is None,
{
}

/// An endpoint is reached by its first registration in the domain, where it is
/// registered and registrations are known at all.
pub proof fn lemma_registered_endpoint_is_reached(
    registrations: Registrations,
    domain_id: Seq<char>,
    endpoint_id: Seq<char>,
    i: int,
)
    requires
        0 <= i < registrations.items@.len(),
        registrations.items@[i].domain_id@ == domain_id,
        registrations.items@[i].endpoint_id@ == endpoint_id,
        forall|k: int|
            0 <= k < i ==> (#[trigger] registrations.items@[k]).domain_id@ != domain_id
                || registrations.items@[k].endpoint_id@ != endpoint_id,
    ensures
        registrations.ready && registrations.items@[i].registered ==> reachable(
            registrations,
            domain_id,
            endpoint_id,
        ) == Some(registrations.items@[i]),
        !registrations.ready || !registrations.items@[i].registered ==> reachable(
            registrations,
            domain_id,
            endpoint_id,
        ) is None,
{
    lemma_first_registration(registrations.items@, domain_id, endpoint_id, 0, i);
}

proof fn lemma_first_registration(
    items: Seq<EndpointRegistration>,
    domain_id: Seq<char>,
    endpoint_id: Seq<char>,
    from: nat,
    i: int,
)
    requires
        from <= i < items.len(),
        items[i].domain_id@ == domain_id,
        items[i].endpoint_id@ == endpoint_id,
        forall|k: int|
            from <= k < i ==> (#[trigger] items[k]).domain_id@ != domain_id || items[k].endpoint_id@
                != endpoint_id,
    ensures
        registration_from(items, domain_id, endpoint_id, from) == Some(items[i]),
    decreases i - from,
{
    if from < i {
        assert(items[from as int].domain_id@ != domain_id || items[from as int].endpoint_id@
            != endpoint_id);
        lemma_first_registration(items, domain_id, endpoint_id, from + 1, i);
    }
}

/// A route to an endpoint is one candidate, at the address it registered from, with
/// the numbers of the call, and without a trunk or policies yet.
pub proof fn lemma_route_to_an_endpoint(
    route: ResolvedRoute,
    call: EndpointCall,
    target: Option<TransportAddress>,
)
    requires
        leads_to_endpoint(route, call, target),
    ensures
        route.candidates@.len() == 1,
        route.candidates@[0].callee_route_target == target,
        route.candidates@[0].outbound_target matches OutboundTarget::Endpoint {
            endpoint_id,
            endpoint_number,
        } && endpoint_id@ == call.endpoint_id && endpoint_number@ == call.endpoint_number,
        route.signaling_caller_number@ == call.caller,
        route.signaling_callee_number@ == call.callee,
        route.outbound_route_id is None && route.outbound_route_name is None,
        route.candidates@[0].outbound_trunk_ref is None,
        route.candidates@[0].outbound_trunk_name is None,
        !route.candidates@[0].recording_requested,
        route.candidates@[0].ai_policy is None,
{
}

/// A candidate for a trunk leads to that trunk, at its address and under its name.
pub proof fn lemma_candidate_for_a_trunk(
    candidate: OutboundCandidate,
    domain: DomainRuntimeConfig,
    trunk: String,
)
    requires
        leads_to_trunk(candidate, domain, trunk),
    ensures
        candidate.outbound_target == (OutboundTarget::Trunk { trunk_ref: trunk }),
        candidate.outbound_trunk_ref == Some(trunk),
        candidate.callee_route_target == trunk_address(domain, trunk@),
        shown_trunk(domain, trunk@) matches Some(name) ==> (candidate.outbound_trunk_name matches
            Some(text) && text@ == name),
        shown_trunk(domain, trunk@) is None ==> candidate.outbound_trunk_name is None,
        !candidate.recording_requested,
        candidate.ai_policy is None,
{
}

/// With which status a call is refused whose route cannot be followed.
pub proof fn lemma_refusals_of_routes(
    domain_id: Seq<char>,
    domain: DomainRuntimeConfig,
    registrations: Registrations,
    analysis: Result<RouteDecision, RouteAnalysisFailure>,
    outcome: Result<ResolvedRoute, u16>,
)
    requires
        route_follows(domain_id, domain, registrations, analysis, outcome),
    ensures
        analysis matches Err(RouteAnalysisFailure::Timeout) ==> outcome == Err::<ResolvedRoute, u16>(
            408,
        ),
        analysis matches Err(RouteAnalysisFailure::Worker(_)) ==> outcome == Err::<
            ResolvedRoute,
            u16,
        >(500),
        analysis matches Ok(RouteDecision::Reject { sip_status }) ==> outcome == Err::<
            ResolvedRoute,
            u16,
        >(sip_status),
        analysis matches Ok(RouteDecision::Continue) ==> outcome == Err::<ResolvedRoute, u16>(404),
        analysis matches Ok(RouteDecision::Matched(RouteResult::CalleeSet)) ==> outcome == Err::<
            ResolvedRoute,
            u16,
        >(501),
        analysis matches Ok(RouteDecision::Matched(RouteResult::BusinessModule)) ==> outcome
            == Err::<ResolvedRoute, u16>(501),
        analysis matches Ok(
            RouteDecision::Matched(RouteResult::Extension { endpoint_id, .. }),
        ) ==> (reachable(registrations, domain_id, endpoint_id@) is None ==> outcome == Err::<
            ResolvedRoute,
            u16,
        >(480)) && (reachable(registrations, domain_id, endpoint_id@) matches Some(item) ==> (
        outcome matches Ok(route) && route.candidates@.len() == 1
            && route.candidates@[0].callee_route_target == item.route_target)),
        analysis matches Ok(RouteDecision::Matched(RouteResult::Trunk { trunks, .. })) ==> (
        trunks@.len() == 0 ==> outcome == Err::<ResolvedRoute, u16>(503)) && (trunks@.len() > 0 ==> (
        outcome matches Ok(route) && route.candidates@.len() == trunks@.len())),
{
}

/// A route over trunks tries them in the order in which the analysis gave them, under
/// the numbers and the name of the route that was matched.
pub proof fn lemma_trunks_are_tried_in_order(
    domain_id: Seq<char>,
    domain: DomainRuntimeConfig,
    registrations: Registrations,
    trunks: Vec<String>,
    route_id: String,
    route_name: String,
    caller: String,
    callee: String,
    route: ResolvedRoute,
    i: int,
)
    requires
        route_follows(
            domain_id,
            domain,
            registrations,
            Ok::<RouteDecision, RouteAnalysisFailure>(
                RouteDecision::Matched(
                    RouteResult::Trunk {
                        trunks,
                        route_id,
                        route_name,
                        transformed_caller: caller,
                        transformed_callee: callee,
                    },
                ),
            ),
            Ok::<ResolvedRoute, u16>(route),
        ),
        0 <= i < trunks@.len(),
    ensures
        route.candidates@[i].outbound_target == (OutboundTarget::Trunk { trunk_ref: trunks@[i] }),
        route.candidates@[i].callee_route_target == trunk_address(domain, trunks@[i]@),
        route.signaling_caller_number == caller,
        route.signaling_callee_number == callee,
        route.outbound_route_id == Some(route_id),
        route.outbound_route_name == Some(route_name),
{
    assert(leads_to_trunk(route.candidates@[i], domain, trunks@[i]));
}

/// A number is accepted where it was not refused; a call is named after its time and
/// its number.
pub proof fn lemma_numbers_and_names(
    refusals: Seq<Option<String>>,
    i: int,
    now_ms: u64,
    sequence: u64,
)
    ensures
        accepted_numbers(refusals).len() == refusals.len(),
        0 <= i < refusals.len() ==> accepted_numbers(refusals)[i] == (refusals[i] is None),
        call_name(now_ms, sequence) == "call-"@ + decimal(now_ms as nat) + "-"@ + decimal(
            sequence as nat,
        ),
{
}

/// A target is an extension, which its id names, or a trunk, which its reference names,
/// never both.
pub proof fn lemma_what_a_target_is(target: OutboundTarget)
    ensures
        target matches OutboundTarget::Endpoint { endpoint_id, .. } ==> target_extension(target)
            == parsed_u64(endpoint_id@) && target_trunk(target) is None,
        target matches OutboundTarget::Trunk { trunk_ref } ==> target_trunk(target) == Some(
            trunk_ref@,
        ) && target_extension(target) is None,
{
}

/// A route leaves open what the policies decide: no candidate is recorded or analysed
/// before they were looked at.
pub proof fn lemma_routes_decide_no_policies(
    candidate: OutboundCandidate,
    domain: DomainRuntimeConfig,
    trunk: String,
    route: ResolvedRoute,
    call: EndpointCall,
    target: Option<TransportAddress>,
)
    ensures
        leads_to_trunk(candidate, domain, trunk) ==> !candidate.recording_requested
            && candidate.recording_policy_ids@.len() == 0 && candidate.ai_policy is None,
        leads_to_endpoint(route, call, target) ==> route.candidates@.len() == 1
            && !route.candidates@[0].recording_requested
            && route.candidates@[0].recording_policy_ids@.len() == 0
            && route.candidates@[0].ai_policy is None,
{
}

/// What a call is set up with comes from its offer, its domain and its route: the
/// numbers that were dialled and those that are signalled, the way in and the way out,
/// and every candidate of the route in its order.
pub proof fn lemma_snapshot_of_a_call(
    snapshot: CallConfigSnapshot,
    event: InboundInviteOffered,
    domain: DomainRuntimeConfig,
    matched: Option<InboundRouteMatch>,
    route: ResolvedRoute,
    i: int,
)
    requires
        snapshot_fits(snapshot, event, domain, matched, route),
    ensures
        snapshot.domain_config_version == domain.version,
        snapshot.domain_id@ == event.domain_id@,
        snapshot.numbers.original_caller@ == event.caller_number@,
        snapshot.numbers.original_callee@ == event.callee_number@,
        snapshot.numbers.signaling_caller@ == route.signaling_caller_number@,
        snapshot.numbers.signaling_callee@ == route.signaling_callee_number@,
        matched matches Some(found) ==> snapshot.inbound.route_id == Some(found.route_id)
            && snapshot.inbound.route_name == Some(found.route_name),
        matched is None ==> snapshot.inbound.route_id is None && snapshot.inbound.route_name
            is None,
        event.origin matches Some(InboundInviteSource::Trunk { trunk_ref }) ==> (
        snapshot.inbound.trunk_ref == Some(trunk_ref) && opt_text(snapshot.inbound.trunk_name)
            == shown_trunk(domain, trunk_ref@)),
        !(event.origin matches Some(InboundInviteSource::Trunk { trunk_ref })) ==> (
        snapshot.inbound.trunk_ref is None && snapshot.inbound.trunk_name is None),
        snapshot.outbound.route_id == route.outbound_route_id,
        snapshot.outbound.route_name == route.outbound_route_name,
        snapshot.outbound.trunk_ref == route.candidates@[0].outbound_trunk_ref,
        snapshot.outbound.trunk_name == route.candidates@[0].outbound_trunk_name,
        snapshot.candidates@.len() == route.candidates@.len(),
        0 <= i < route.candidates@.len() ==> snapshot.candidates@[i].outbound_target
            == route.candidates@[i].outbound_target && snapshot.candidates@[i].callee_route_target
            == route.candidates@[i].callee_route_target,
{
    if 0 <= i < route.candidates@.len() {
        assert(policies_applied(
            route.candidates@[i],
            snapshot.candidates@[i],
            domain,
            calling_extension(domain, event.caller_number@),
            opt_text(inbound_trunk(event)),
        ));
    }
}

} // verus!
