//! What holds of the view of the settings that the adapter gets: what is in it, in
//! which order, and when a hash changes.

use crate::call::policy::{
    DomainRuntimeConfig, ExtensionConfig, RegisterAccountConfig, TrunkConfig,
};
use crate::runtime_view::{
    accounts_shown, all_accounts, all_extensions, all_peer_trunks, all_register_trunks,
    domains_shown, endpoints_shown, fnv1a, hash_of, json_list, peer_parts, peer_trunks_shown,
    register_parts, register_trunks_shown, shows_account, shows_domain, shows_endpoint,
    shows_peer_trunk, shows_register_trunk, used_domains, used_extensions, Part, SipDomainView,
    SipEndpointAuthView, SipPeerTrunkView, SipRegisterAccountView, SipRegisterTrunkView, ViewFault,
};
use crate::text::decimal;
use vstd::prelude::*;

verus! {

// ---------------------------------------------------------------------------
// Hashes.

/// The hash begins with the offset of FNV-1a, and takes in byte after byte: the byte is
/// combined first and the product taken then, as far as 64 bits hold it.
pub proof fn lemma_hash_takes_in_byte_after_byte(bytes: Seq<u8>, byte: u8)
    ensures
        fnv1a(Seq::<u8>::empty()) == 14695981039346656037,
        fnv1a(bytes.push(byte)) == ((fnv1a(bytes) ^ byte as u64) * 1099511628211)
            % 18446744073709551616,
{
    assert(bytes.push(byte).drop_last() =~= bytes);
}

/// A list is hashed as it is written.
pub proof fn lemma_list_is_hashed_as_written(parts: Seq<Part>)
    ensures
        hash_of(parts) == fnv1a(json_list(parts)),
{
}

// ---------------------------------------------------------------------------
// What is in the view.

/// The domains in use are shown, in their order, and no others.
pub proof fn lemma_domains_in_use_are_shown(domains: Seq<DomainRuntimeConfig>)
    ensures
        used_domains(domains) == domains.filter(|d: DomainRuntimeConfig| d.enabled),
    decreases domains.len(),
{
    reveal(Seq::filter);
    if domains.len() > 0 {
        lemma_domains_in_use_are_shown(domains.drop_last());
    }
}

/// The extensions in use are shown, in their order, each with its domain.
pub proof fn lemma_extensions_in_use_are_shown(domain_id: String, extensions: Seq<ExtensionConfig>)
    ensures
        used_extensions(domain_id, extensions) == extensions.filter(
            |e: ExtensionConfig| e.enabled,
        ).map_values(|e: ExtensionConfig| (domain_id, e)),
    decreases extensions.len(),
{
    reveal(Seq::filter);
    if extensions.len() > 0 {
        let front = extensions.drop_last();
        lemma_extensions_in_use_are_shown(domain_id, front);
        let used = |e: ExtensionConfig| e.enabled;
        let with = |e: ExtensionConfig| (domain_id, e);
        if extensions.last().enabled {
            assert(extensions.filter(used) == front.filter(used).push(extensions.last()));
            assert(front.filter(used).push(extensions.last()).map_values(with) =~= front.filter(
                used,
            ).map_values(with).push((domain_id, extensions.last())));
        }
    } else {
        assert(extensions.filter(|e: ExtensionConfig| e.enabled).map_values(
            |e: ExtensionConfig| (domain_id, e),
        ) =~= Seq::<(String, ExtensionConfig)>::empty());
    }
}

/// What a domain has comes behind what the domains before it have: the extensions in
/// use, and all trunks and accounts, in use or not, each under its own heading.
pub proof fn lemma_domain_adds_what_it_has(
    domains: Seq<DomainRuntimeConfig>,
    domain: DomainRuntimeConfig,
)
    ensures
        all_extensions(domains.push(domain)) == all_extensions(domains)
            + domain.extensions@.filter(|e: ExtensionConfig| e.enabled).map_values(
            |e: ExtensionConfig| (domain.domain_id, e),
        ),
        all_peer_trunks(domains.push(domain)) == all_peer_trunks(domains)
            + domain.peer_trunks@.map_values(|t: TrunkConfig| (domain.domain_id, t)),
        all_register_trunks(domains.push(domain)) == all_register_trunks(domains)
            + domain.reg_trunks@.map_values(|t: TrunkConfig| (domain.domain_id, t)),
        all_accounts(domains.push(domain)) == all_accounts(domains)
            + domain.reg_accounts@.map_values(|a: RegisterAccountConfig| (domain.domain_id, a)),
        all_extensions(Seq::empty()).len() == 0,
        all_peer_trunks(Seq::empty()).len() == 0,
        all_register_trunks(Seq::empty()).len() == 0,
        all_accounts(Seq::empty()).len() == 0,
{
    lemma_extensions_in_use_are_shown(domain.domain_id, domain.extensions@);
    let more = domains.push(domain);
    assert(more.drop_last() =~= domains);
    assert(all_peer_trunks(more) =~= all_peer_trunks(domains) + domain.peer_trunks@.map_values(
        |t: TrunkConfig| (domain.domain_id, t),
    ));
    assert(all_register_trunks(more) =~= all_register_trunks(domains)
        + domain.reg_trunks@.map_values(|t: TrunkConfig| (domain.domain_id, t)));
    assert(all_accounts(more) =~= all_accounts(domains) + domain.reg_accounts@.map_values(
        |a: RegisterAccountConfig| (domain.domain_id, a),
    ));
}

/// A domain is shown with its id and realm and no aliases, and hashed by its realm.
pub proof fn lemma_how_a_domain_is_shown(view: SipDomainView, domain: DomainRuntimeConfig)
    requires
        shows_domain(view, domain),
    ensures
        view.domain_id@ == domain.domain_id@,
        view.realm@ == domain.realm@,
        view.host_aliases@.len() == 0,
        view.config_hash == fnv1a(json_list(seq![Part::Text(domain.realm@), Part::EmptyList])),
{
}

/// An extension is shown with its number and what it logs in with, and hashed by these
/// three.
pub proof fn lemma_how_an_extension_is_shown(
    view: SipEndpointAuthView,
    domain_id: String,
    extension: ExtensionConfig,
)
    requires
        shows_endpoint(view, domain_id, extension),
    ensures
        view.domain_id@ == domain_id@,
        view.endpoint_id@ == decimal(extension.id as nat),
        view.number@ == extension.number@,
        view.auth_user@ == extension.auth_user@,
        view.password@ == extension.password@,
        view.config_hash == fnv1a(
            json_list(
                seq![
                    Part::Text(extension.number@),
                    Part::Text(extension.auth_user@),
                    Part::Text(extension.password@),
                ],
            ),
        ),
{
}

/// A peer trunk is shown with where it leads, through what, and whether it is in use,
/// and hashed by these.
pub proof fn lemma_how_a_peer_trunk_is_shown(
    view: SipPeerTrunkView,
    domain_id: String,
    trunk: TrunkConfig,
)
    requires
        shows_peer_trunk(view, domain_id, trunk),
    ensures
        view.domain_id@ == domain_id@,
        view.peer_trunk_id == trunk.id,
        view.server_host@ == trunk.server_host@,
        view.server_port == trunk.server_port,
        view.outbound_proxy_host == trunk.outbound_proxy_host,
        view.outbound_proxy_port == trunk.outbound_proxy_port,
        view.transport@ == trunk.transport@,
        view.keep_alive_seconds == trunk.keep_alive_seconds,
        view.enabled == trunk.enabled,
        view.config_hash == fnv1a(
            json_list(
                seq![
                    Part::Text(trunk.server_host@),
                    Part::Number(trunk.server_port as u64),
                    match trunk.outbound_proxy_host {
                        Some(host) => Part::Text(host@),
                        None => Part::Nothing,
                    },
                    match trunk.outbound_proxy_port {
                        Some(port) => Part::Number(port as u64),
                        None => Part::Nothing,
                    },
                    Part::Text(trunk.transport@),
                    Part::Number(trunk.keep_alive_seconds as u64),
                    Part::Truth(trunk.enabled),
                ],
            ),
        ),
{
    assert(peer_parts(trunk) =~= seq![
            Part::Text(trunk.server_host@),
            Part::Number(trunk.server_port as u64),
            match trunk.outbound_proxy_host {
                Some(host) => Part::Text(host@),
                None => Part::Nothing,
            },
            match trunk.outbound_proxy_port {
                Some(port) => Part::Number(port as u64),
                None => Part::Nothing,
            },
            Part::Text(trunk.transport@),
            Part::Number(trunk.keep_alive_seconds as u64),
            Part::Truth(trunk.enabled),
        ]);
}

/// A trunk that registers is shown as a peer trunk is, and with the time that it asks
/// for, which its hash tells too.
pub proof fn lemma_how_a_register_trunk_is_shown(
    view: SipRegisterTrunkView,
    domain_id: String,
    trunk: TrunkConfig,
)
    requires
        shows_register_trunk(view, domain_id, trunk),
    ensures
        view.domain_id@ == domain_id@,
        view.reg_trunk_id == trunk.id,
        view.server_host@ == trunk.server_host@,
        view.server_port == trunk.server_port,
        view.outbound_proxy_host == trunk.outbound_proxy_host,
        view.outbound_proxy_port == trunk.outbound_proxy_port,
        view.transport@ == trunk.transport@,
        view.keep_alive_seconds == trunk.keep_alive_seconds,
        view.requested_expires_seconds == trunk.requested_expires_seconds,
        view.enabled == trunk.enabled,
        view.config_hash == fnv1a(
            json_list(
                seq![
                    Part::Text(trunk.server_host@),
                    Part::Number(trunk.server_port as u64),
                    match trunk.outbound_proxy_host {
                        Some(host) => Part::Text(host@),
                        None => Part::Nothing,
                    },
                    match trunk.outbound_proxy_port {
                        Some(port) => Part::Number(port as u64),
                        None => Part::Nothing,
                    },
                    Part::Text(trunk.transport@),
                    Part::Number(trunk.keep_alive_seconds as u64),
                    Part::Number(trunk.requested_expires_seconds as u64),
                    Part::Truth(trunk.enabled),
                ],
            ),
        ),
{
    assert(register_parts(trunk) =~= seq![
            Part::Text(trunk.server_host@),
            Part::Number(trunk.server_port as u64),
            match trunk.outbound_proxy_host {
                Some(host) => Part::Text(host@),
                None => Part::Nothing,
            },
            match trunk.outbound_proxy_port {
                Some(port) => Part::Number(port as u64),
                None => Part::Nothing,
            },
            Part::Text(trunk.transport@),
            Part::Number(trunk.keep_alive_seconds as u64),
            Part::Number(trunk.requested_expires_seconds as u64),
            Part::Truth(trunk.enabled),
        ]);
}

/// An account is shown under its trunk with what it logs in with, and hashed by that.
pub proof fn lemma_how_an_account_is_shown(
    view: SipRegisterAccountView,
    domain_id: String,
    account: RegisterAccountConfig,
)
    requires
        shows_account(view, domain_id, account),
    ensures
        view.domain_id@ == domain_id@,
        view.reg_trunk_id == account.reg_trunk_id,
        view.reg_account_id == account.id,
        view.auth_name@ == account.auth_name@,
        view.auth_pwd@ == account.auth_pwd@,
        view.enabled == account.enabled,
        view.config_hash == fnv1a(
            json_list(
                seq![
                    Part::Number(account.reg_trunk_id),
                    Part::Text(account.auth_name@),
                    Part::Text(account.auth_pwd@),
                    Part::Truth(account.enabled),
                ],
            ),
        ),
{
}

/// A list is shown whole and in order: one view for each object, the view of that
/// object.
pub proof fn lemma_lists_are_shown_whole(
    domain_views: Seq<SipDomainView>,
    domains: Seq<DomainRuntimeConfig>,
    endpoint_views: Seq<SipEndpointAuthView>,
    extensions: Seq<(String, ExtensionConfig)>,
    peer_views: Seq<SipPeerTrunkView>,
    peers: Seq<(String, TrunkConfig)>,
    register_views: Seq<SipRegisterTrunkView>,
    registers: Seq<(String, TrunkConfig)>,
    account_views: Seq<SipRegisterAccountView>,
    accounts: Seq<(String, RegisterAccountConfig)>,
    i: int,
)
    requires
        domains_shown(domain_views, domains),
        endpoints_shown(endpoint_views, extensions),
        peer_trunks_shown(peer_views, peers),
        register_trunks_shown(register_views, registers),
        accounts_shown(account_views, accounts),
    ensures
        domain_views.len() == domains.len(),
        endpoint_views.len() == extensions.len(),
        peer_views.len() == peers.len(),
        register_views.len() == registers.len(),
        account_views.len() == accounts.len(),
        0 <= i < domains.len() ==> domain_views[i].domain_id@ == domains[i].domain_id@
            && domain_views[i].realm@ == domains[i].realm@,
        0 <= i < extensions.len() ==> endpoint_views[i].domain_id@ == extensions[i].0@
            && endpoint_views[i].number@ == extensions[i].1.number@,
        0 <= i < peers.len() ==> peer_views[i].domain_id@ == peers[i].0@
            && peer_views[i].peer_trunk_id == peers[i].1.id,
        0 <= i < registers.len() ==> register_views[i].domain_id@ == registers[i].0@
            && register_views[i].reg_trunk_id == registers[i].1.id,
        0 <= i < accounts.len() ==> account_views[i].domain_id@ == accounts[i].0@
            && account_views[i].reg_account_id == accounts[i].1.id,
{
    if 0 <= i < domains.len() {
        assert(shows_domain(domain_views[i], domains[i]));
    }
    if 0 <= i < extensions.len() {
        assert(shows_endpoint(endpoint_views[i], extensions[i].0, extensions[i].1));
    }
    if 0 <= i < peers.len() {
        assert(shows_peer_trunk(peer_views[i], peers[i].0, peers[i].1));
    }
    if 0 <= i < registers.len() {
        assert(shows_register_trunk(register_views[i], registers[i].0, registers[i].1));
    }
    if 0 <= i < accounts.len() {
        assert(shows_account(account_views[i], accounts[i].0, accounts[i].1));
    }
}

/// A fault names the revision that it is about.
pub proof fn lemma_fault_names_the_revision(revision: u64)
    ensures
        ViewFault::Unsent(revision).says() == "adapter acked unsent runtime revision "@ + decimal(
            revision as nat,
        ),
        ViewFault::Rejected(revision).says() == "adapter rejected runtime revision "@ + decimal(
            revision as nat,
        ),
{
}

} // verus!
