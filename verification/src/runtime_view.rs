//! What the SIP adapter is told of the settings: one flat list for each kind of
//! object, each object with a hash of what it says, and the adapter's answer.

use crate::call::policy::{
    DomainRuntimeConfig, ExtensionConfig, RegisterAccountConfig, TrunkConfig,
};
use crate::keyed::{lemma_text_before_irreflexive, text_before, Entry, KeyedMap};
use crate::text::{copy_opt, decimal, decimal_text, join2, join4};
use vstd::prelude::*;

verus! {

#[derive(Debug, Clone, Copy, PartialEq, Eq, Structural)]
pub enum RuntimeViewMode {
    Full,
}

#[derive(Debug, Clone)]
pub struct SipDomainView {
    pub domain_id: String,
    pub realm: String,
    pub host_aliases: Vec<String>,
    pub config_hash: u64,
}

#[derive(Debug, Clone)]
pub struct SipEndpointAuthView {
    pub domain_id: String,
    pub endpoint_id: String,
    pub number: String,
    pub auth_user: String,
    pub password: String,
    pub config_hash: u64,
}

#[derive(Debug, Clone)]
pub struct SipPeerTrunkView {
    pub domain_id: String,
    pub peer_trunk_id: u64,
    pub server_host: String,
    pub server_port: u16,
    pub outbound_proxy_host: Option<String>,
    pub outbound_proxy_port: Option<u16>,
    pub transport: String,
    pub keep_alive_seconds: u32,
    pub enabled: bool,
    pub config_hash: u64,
}

#[derive(Debug, Clone)]
pub struct SipRegisterTrunkView {
    pub domain_id: String,
    pub reg_trunk_id: u64,
    pub server_host: String,
    pub server_port: u16,
    pub outbound_proxy_host: Option<String>,
    pub outbound_proxy_port: Option<u16>,
    pub transport: String,
    pub keep_alive_seconds: u32,
    pub requested_expires_seconds: u32,
    pub enabled: bool,
    pub config_hash: u64,
}

#[derive(Debug, Clone)]
pub struct SipRegisterAccountView {
    pub domain_id: String,
    pub reg_trunk_id: u64,
    pub reg_account_id: u64,
    pub auth_name: String,
    pub auth_pwd: String,
    pub enabled: bool,
    pub config_hash: u64,
}

#[derive(Debug, Clone, Copy, PartialEq, Eq, Structural)]
pub struct SipOverloadPolicy {
    pub reject_new_invite_when_overloaded: bool,
}

#[derive(Debug)]
pub struct SipRuntimeView {
    pub view_revision: u64,
    pub mode: RuntimeViewMode,
    pub generated_at_ms: u64,
    pub sip_port: u16,
    pub log_level: String,
    pub call_trace_enabled: bool,
    pub transports: Vec<serde_json::Value>,
    pub profiles: Vec<serde_json::Value>,
    pub domains: Vec<SipDomainView>,
    pub endpoints: Vec<SipEndpointAuthView>,
    pub peer_trunks: Vec<SipPeerTrunkView>,
    pub reg_trunks: Vec<SipRegisterTrunkView>,
    pub reg_accounts: Vec<SipRegisterAccountView>,
    pub policy: SipOverloadPolicy,
}

/// The settings of the switch, as far as the adapter is told of them.
pub struct RuntimeConfig {
    pub version: u64,
    pub instance_id: String,
    pub sip_port: u16,
    pub log_level: String,
    pub call_trace_enabled: bool,
    /// The domains by their ids.
    pub domains: KeyedMap<DomainRuntimeConfig>,
}

impl RuntimeConfig {
    /// The domains in order.
    pub open spec fn listed(self) -> Seq<DomainRuntimeConfig> {
        self.domains.entries().map_values(|entry: Entry<DomainRuntimeConfig>| entry.value)
    }

    /// Every domain stands under its own id.
    pub open spec fn wf(self) -> bool {
        &&& self.domains.wf()
        &&& forall|id: Seq<char>| #[trigger]
            self.domains@.contains_key(id) ==> self.domains@[id].domain_id@ == id
    }

    /// Puts in a domain, in place of one with the same id.
    pub fn put_domain(&mut self, domain: DomainRuntimeConfig)
        requires
            old(self).wf(),
        ensures
            final(self).wf(),
            *final(self) == (RuntimeConfig { domains: final(self).domains, ..*old(self) }),
            final(self).domains@ == old(self).domains@.insert(domain.domain_id@, domain),
    {
        let id = domain.domain_id.clone();
        self.domains.insert(id, domain);
    }

    /// The ids of the domains ascend, so none occurs twice.
    pub proof fn lemma_domains_are_in_order(self)
        requires
            self.wf(),
        ensures
            ascending(self.listed()),
    {
        assert forall|i: int, j: int| 0 <= i < j < self.listed().len() implies text_before(
            (#[trigger] self.listed()[i]).domain_id@,
            (#[trigger] self.listed()[j]).domain_id@,
        ) by {
            let a = self.domains.entries()[i];
            let b = self.domains.entries()[j];
            assert(self.domains.has_at(a.key@, i));
            assert(self.domains.has_at(b.key@, j));
            self.domains.lemma_index(a.key@, i);
            self.domains.lemma_index(b.key@, j);
            assert(self.domains@.contains_key(a.key@) && self.domains@.contains_key(b.key@));
        }
    }
}

/// Whether every domain's id comes before the ids of those behind it.
pub open spec fn ascending(domains: Seq<DomainRuntimeConfig>) -> bool {
    forall|i: int, j: int|
        0 <= i < j < domains.len() ==> text_before(
            (#[trigger] domains[i]).domain_id@,
            (#[trigger] domains[j]).domain_id@,
        )
}

/// A part of what is hashed.
pub enum Part {
    Text(Seq<char>),
    Number(u64),
    Truth(bool),
    Nothing,
    EmptyList,
}

pub enum JsonPart {
    Text(String),
    Number(u64),
    Truth(bool),
    Nothing,
    EmptyList,
}

impl JsonPart {
    pub open spec fn view(&self) -> Part {
        match self {
            JsonPart::Text(text) => Part::Text(text@),
            JsonPart::Number(number) => Part::Number(*number),
            JsonPart::Truth(truth) => Part::Truth(*truth),
            JsonPart::Nothing => Part::Nothing,
            JsonPart::EmptyList => Part::EmptyList,
        }
    }
}

pub open spec fn parts_of(parts: Seq<JsonPart>) -> Seq<Part> {
    Seq::new(parts.len(), |i: int| parts[i]@)
}

/// The bytes that `serde_json::to_vec` writes for a list of values.
pub uninterp spec fn json_list(parts: Seq<Part>) -> Seq<u8>;

/// `serde_json::to_vec` on a list of values: the same bytes for the same values. It
/// cannot fail on them, since they hold no map and are written to memory.
#[verifier::external_body]
fn json_bytes(parts: &Vec<JsonPart>) -> (bytes: Vec<u8>)
    ensures
        bytes@ == json_list(parts_of(parts@)),
{
    let values = parts.iter().map(|part| match part {
        JsonPart::Text(text) => serde_json::Value::from(text.as_str()),
        JsonPart::Number(number) => serde_json::Value::from(*number),
        JsonPart::Truth(truth) => serde_json::Value::from(*truth),
        JsonPart::Nothing => serde_json::Value::Null,
        JsonPart::EmptyList => serde_json::Value::Array(Vec::new()),
    });
    serde_json::to_vec(&values.collect::<Vec<serde_json::Value>>()).expect("no map, no I/O")
}

pub const HASH_OFFSET: u64 = 0xcbf29ce484222325;

pub const HASH_PRIME: u64 = 0x100000001b3;

/// The FNV-1a hash of bytes, with 64 bits.
pub open spec fn fnv1a(bytes: Seq<u8>) -> u64
    decreases bytes.len(),
{
    if bytes.len() == 0 {
        HASH_OFFSET
    } else {
        (fnv1a(bytes.drop_last()) ^ bytes.last() as u64).wrapping_mul(HASH_PRIME)
    }
}

pub fn hash_bytes(bytes: &[u8]) -> (hash: u64)
    ensures
        hash == fnv1a(bytes@),
{
    let mut hash: u64 = HASH_OFFSET;
    let mut i: usize = 0;
    while i < bytes.len()
        invariant
            i <= bytes.len(),
            hash == fnv1a(bytes@.take(i as int)),
        decreases bytes.len() - i,
    {
        assert(bytes@.take(i + 1).drop_last() =~= bytes@.take(i as int));
        hash = (hash ^ bytes[i] as u64).wrapping_mul(HASH_PRIME);
        i = i + 1;
    }
    assert(bytes@.take(i as int) =~= bytes@);
    hash
}

/// The hash of a list of values.
pub open spec fn hash_of(parts: Seq<Part>) -> u64 {
    fnv1a(json_list(parts))
}

fn config_hash(parts: &Vec<JsonPart>) -> (hash: u64)
    ensures
        hash == hash_of(parts_of(parts@)),
{
    let bytes = json_bytes(parts);
    hash_bytes(bytes.as_slice())
}

pub open spec fn opt_part(text: Option<String>) -> Part {
    match text {
        Some(text) => Part::Text(text@),
        None => Part::Nothing,
    }
}

pub open spec fn port_part(port: Option<u16>) -> Part {
    match port {
        Some(port) => Part::Number(port as u64),
        None => Part::Nothing,
    }
}

fn opt_json(text: &Option<String>) -> (part: JsonPart)
    ensures
        part@ == opt_part(*text),
{
    match text {
        Some(text) => JsonPart::Text(text.clone()),
        None => JsonPart::Nothing,
    }
}

fn port_json(port: Option<u16>) -> (part: JsonPart)
    ensures
        part@ == port_part(port),
{
    match port {
        Some(port) => JsonPart::Number(port as u64),
        None => JsonPart::Nothing,
    }
}

/// How a domain is shown.
pub open spec fn shows_domain(view: SipDomainView, domain: DomainRuntimeConfig) -> bool {
    &&& view.domain_id == domain.domain_id
    &&& view.realm == domain.realm
    &&& view.host_aliases@.len() == 0
    &&& view.config_hash == hash_of(seq![Part::Text(domain.realm@), Part::EmptyList])
}

fn domain_view(domain: &DomainRuntimeConfig) -> (view: SipDomainView)
    ensures
        shows_domain(view, *domain),
{
    let mut parts: Vec<JsonPart> = Vec::new();
    parts.push(JsonPart::Text(domain.realm.clone()));
    parts.push(JsonPart::EmptyList);
    assert(parts_of(parts@) =~= seq![Part::Text(domain.realm@), Part::EmptyList]);
    SipDomainView {
        domain_id: domain.domain_id.clone(),
        realm: domain.realm.clone(),
        host_aliases: Vec::new(),
        config_hash: config_hash(&parts),
    }
}

/// How an extension is shown: its number, and what it logs in with.
pub open spec fn shows_endpoint(
    view: SipEndpointAuthView,
    domain_id: String,
    extension: ExtensionConfig,
) -> bool {
    &&& view.domain_id == domain_id
    &&& view.endpoint_id@ == decimal(extension.id as nat)
    &&& view.number == extension.number
    &&& view.auth_user == extension.auth_user
    &&& view.password == extension.password
    &&& view.config_hash == hash_of(
        seq![
            Part::Text(extension.number@),
            Part::Text(extension.auth_user@),
            Part::Text(extension.password@),
        ],
    )
}

fn endpoint_view(domain_id: &String, extension: &ExtensionConfig) -> (view: SipEndpointAuthView)
    ensures
        shows_endpoint(view, *domain_id, *extension),
{
    let mut parts: Vec<JsonPart> = Vec::new();
    parts.push(JsonPart::Text(extension.number.clone()));
    parts.push(JsonPart::Text(extension.auth_user.clone()));
    parts.push(JsonPart::Text(extension.password.clone()));
    assert(parts_of(parts@) =~= seq![
        Part::Text(extension.number@),
        Part::Text(extension.auth_user@),
        Part::Text(extension.password@),
    ]);
    SipEndpointAuthView {
        domain_id: domain_id.clone(),
        endpoint_id: decimal_text(extension.id),
        number: extension.number.clone(),
        auth_user: extension.auth_user.clone(),
        password: extension.password.clone(),
        config_hash: config_hash(&parts),
    }
}

pub open spec fn peer_parts(trunk: TrunkConfig) -> Seq<Part> {
    seq![
        Part::Text(trunk.server_host@),
        Part::Number(trunk.server_port as u64),
        opt_part(trunk.outbound_proxy_host),
        port_part(trunk.outbound_proxy_port),
        Part::Text(trunk.transport@),
        Part::Number(trunk.keep_alive_seconds as u64),
        Part::Truth(trunk.enabled),
    ]
}

/// How a peer trunk is shown. A trunk that is not in use is shown as such.
pub open spec fn shows_peer_trunk(view: SipPeerTrunkView, domain_id: String, trunk: TrunkConfig) -> bool {
    &&& view.domain_id == domain_id
    &&& view.peer_trunk_id == trunk.id
    &&& view.server_host == trunk.server_host
    &&& view.server_port == trunk.server_port
    &&& view.outbound_proxy_host == trunk.outbound_proxy_host
    &&& view.outbound_proxy_port == trunk.outbound_proxy_port
    &&& view.transport == trunk.transport
    &&& view.keep_alive_seconds == trunk.keep_alive_seconds
    &&& view.enabled == trunk.enabled
    &&& view.config_hash == hash_of(peer_parts(trunk))
}

fn peer_trunk_view(domain_id: &String, trunk: &TrunkConfig) -> (view: SipPeerTrunkView)
    ensures
        shows_peer_trunk(view, *domain_id, *trunk),
{
    let mut parts: Vec<JsonPart> = Vec::new();
    parts.push(JsonPart::Text(trunk.server_host.clone()));
    parts.push(JsonPart::Number(trunk.server_port as u64));
    parts.push(opt_json(&trunk.outbound_proxy_host));
    parts.push(port_json(trunk.outbound_proxy_port));
    parts.push(JsonPart::Text(trunk.transport.clone()));
    parts.push(JsonPart::Number(trunk.keep_alive_seconds as u64));
    parts.push(JsonPart::Truth(trunk.enabled));
    assert(parts_of(parts@) =~= peer_parts(*trunk));
    SipPeerTrunkView {
        domain_id: domain_id.clone(),
        peer_trunk_id: trunk.id,
        server_host: trunk.server_host.clone(),
        server_port: trunk.server_port,
        outbound_proxy_host: copy_opt(&trunk.outbound_proxy_host),
        outbound_proxy_port: trunk.outbound_proxy_port,
        transport: trunk.transport.clone(),
        keep_alive_seconds: trunk.keep_alive_seconds,
        enabled: trunk.enabled,
        config_hash: config_hash(&parts),
    }
}

pub open spec fn register_parts(trunk: TrunkConfig) -> Seq<Part> {
    seq![
        Part::Text(trunk.server_host@),
        Part::Number(trunk.server_port as u64),
        opt_part(trunk.outbound_proxy_host),
        port_part(trunk.outbound_proxy_port),
        Part::Text(trunk.transport@),
        Part::Number(trunk.keep_alive_seconds as u64),
        Part::Number(trunk.requested_expires_seconds as u64),
        Part::Truth(trunk.enabled),
    ]
}

pub open spec fn shows_register_trunk(
    view: SipRegisterTrunkView,
    domain_id: String,
    trunk: TrunkConfig,
) -> bool {
    &&& view.domain_id == domain_id
    &&& view.reg_trunk_id == trunk.id
    &&& view.server_host == trunk.server_host
    &&& view.server_port == trunk.server_port
    &&& view.outbound_proxy_host == trunk.outbound_proxy_host
    &&& view.outbound_proxy_port == trunk.outbound_proxy_port
    &&& view.transport == trunk.transport
    &&& view.keep_alive_seconds == trunk.keep_alive_seconds
    &&& view.requested_expires_seconds == trunk.requested_expires_seconds
    &&& view.enabled == trunk.enabled
    &&& view.config_hash == hash_of(register_parts(trunk))
}

fn register_trunk_view(domain_id: &String, trunk: &TrunkConfig) -> (view: SipRegisterTrunkView)
    ensures
        shows_register_trunk(view, *domain_id, *trunk),
{
    let mut parts: Vec<JsonPart> = Vec::new();
    parts.push(JsonPart::Text(trunk.server_host.clone()));
    parts.push(JsonPart::Number(trunk.server_port as u64));
    parts.push(opt_json(&trunk.outbound_proxy_host));
    parts.push(port_json(trunk.outbound_proxy_port));
    parts.push(JsonPart::Text(trunk.transport.clone()));
    parts.push(JsonPart::Number(trunk.keep_alive_seconds as u64));
    parts.push(JsonPart::Number(trunk.requested_expires_seconds as u64));
    parts.push(JsonPart::Truth(trunk.enabled));
    assert(parts_of(parts@) =~= register_parts(*trunk));
    SipRegisterTrunkView {
        domain_id: domain_id.clone(),
        reg_trunk_id: trunk.id,
        server_host: trunk.server_host.clone(),
        server_port: trunk.server_port,
        outbound_proxy_host: copy_opt(&trunk.outbound_proxy_host),
        outbound_proxy_port: trunk.outbound_proxy_port,
        transport: trunk.transport.clone(),
        keep_alive_seconds: trunk.keep_alive_seconds,
        requested_expires_seconds: trunk.requested_expires_seconds,
        enabled: trunk.enabled,
        config_hash: config_hash(&parts),
    }
}

pub open spec fn account_parts(account: RegisterAccountConfig) -> Seq<Part> {
    seq![
        Part::Number(account.reg_trunk_id),
        Part::Text(account.auth_name@),
        Part::Text(account.auth_pwd@),
        Part::Truth(account.enabled),
    ]
}

pub open spec fn shows_account(
    view: SipRegisterAccountView,
    domain_id: String,
    account: RegisterAccountConfig,
) -> bool {
    &&& view.domain_id == domain_id
    &&& view.reg_trunk_id == account.reg_trunk_id
    &&& view.reg_account_id == account.id
    &&& view.auth_name == account.auth_name
    &&& view.auth_pwd == account.auth_pwd
    &&& view.enabled == account.enabled
    &&& view.config_hash == hash_of(account_parts(account))
}

fn account_view(domain_id: &String, account: &RegisterAccountConfig) -> (view: SipRegisterAccountView)
    ensures
        shows_account(view, *domain_id, *account),
{
    let mut parts: Vec<JsonPart> = Vec::new();
    parts.push(JsonPart::Number(account.reg_trunk_id));
    parts.push(JsonPart::Text(account.auth_name.clone()));
    parts.push(JsonPart::Text(account.auth_pwd.clone()));
    parts.push(JsonPart::Truth(account.enabled));
    assert(parts_of(parts@) =~= account_parts(*account));
    SipRegisterAccountView {
        domain_id: domain_id.clone(),
        reg_trunk_id: account.reg_trunk_id,
        reg_account_id: account.id,
        auth_name: account.auth_name.clone(),
        auth_pwd: account.auth_pwd.clone(),
        enabled: account.enabled,
        config_hash: config_hash(&parts),
    }
}

/// The domains in use.
pub open spec fn used_domains(domains: Seq<DomainRuntimeConfig>) -> Seq<DomainRuntimeConfig>
    decreases domains.len(),
{
    if domains.len() == 0 {
        Seq::empty()
    } else {
        let front = used_domains(domains.drop_last());
        if domains.last().enabled {
            front.push(domains.last())
        } else {
            front
        }
    }
}

/// The extensions in use, each with its domain.
pub open spec fn used_extensions(domain_id: String, extensions: Seq<ExtensionConfig>) -> Seq<
    (String, ExtensionConfig),
>
    decreases extensions.len(),
{
    if extensions.len() == 0 {
        Seq::empty()
    } else {
        let front = used_extensions(domain_id, extensions.drop_last());
        if extensions.last().enabled {
            front.push((domain_id, extensions.last()))
        } else {
            front
        }
    }
}

/// Objects, each with its domain.
pub open spec fn owned<T>(domain_id: String, objects: Seq<T>) -> Seq<(String, T)> {
    Seq::new(objects.len(), |i: int| (domain_id, objects[i]))
}

/// The extensions of a list of domains, one domain after the other.
pub open spec fn all_extensions(domains: Seq<DomainRuntimeConfig>) -> Seq<(String, ExtensionConfig)>
    decreases domains.len(),
{
    if domains.len() == 0 {
        Seq::empty()
    } else {
        all_extensions(domains.drop_last()) + used_extensions(
            domains.last().domain_id,
            domains.last().extensions@,
        )
    }
}

pub open spec fn all_peer_trunks(domains: Seq<DomainRuntimeConfig>) -> Seq<(String, TrunkConfig)>
    decreases domains.len(),
{
    if domains.len() == 0 {
        Seq::empty()
    } else {
        all_peer_trunks(domains.drop_last()) + owned(
            domains.last().domain_id,
            domains.last().peer_trunks@,
        )
    }
}

pub open spec fn all_register_trunks(domains: Seq<DomainRuntimeConfig>) -> Seq<(String, TrunkConfig)>
    decreases domains.len(),
{
    if domains.len() == 0 {
        Seq::empty()
    } else {
        all_register_trunks(domains.drop_last()) + owned(
            domains.last().domain_id,
            domains.last().reg_trunks@,
        )
    }
}

pub open spec fn all_accounts(domains: Seq<DomainRuntimeConfig>) -> Seq<
    (String, RegisterAccountConfig),
>
    decreases domains.len(),
{
    if domains.len() == 0 {
        Seq::empty()
    } else {
        all_accounts(domains.drop_last()) + owned(
            domains.last().domain_id,
            domains.last().reg_accounts@,
        )
    }
}

pub open spec fn domains_shown(views: Seq<SipDomainView>, domains: Seq<DomainRuntimeConfig>) -> bool {
    views.len() == domains.len() && forall|i: int|
        0 <= i < domains.len() ==> shows_domain(#[trigger] views[i], domains[i])
}

pub open spec fn endpoints_shown(
    views: Seq<SipEndpointAuthView>,
    extensions: Seq<(String, ExtensionConfig)>,
) -> bool {
    views.len() == extensions.len() && forall|i: int|
        0 <= i < extensions.len() ==> shows_endpoint(
            #[trigger] views[i],
            extensions[i].0,
            extensions[i].1,
        )
}

pub open spec fn peer_trunks_shown(
    views: Seq<SipPeerTrunkView>,
    trunks: Seq<(String, TrunkConfig)>,
) -> bool {
    views.len() == trunks.len() && forall|i: int|
        0 <= i < trunks.len() ==> shows_peer_trunk(#[trigger] views[i], trunks[i].0, trunks[i].1)
}

pub open spec fn register_trunks_shown(
    views: Seq<SipRegisterTrunkView>,
    trunks: Seq<(String, TrunkConfig)>,
) -> bool {
    views.len() == trunks.len() && forall|i: int|
        0 <= i < trunks.len() ==> shows_register_trunk(#[trigger] views[i], trunks[i].0, trunks[i].1)
}

pub open spec fn accounts_shown(
    views: Seq<SipRegisterAccountView>,
    accounts: Seq<(String, RegisterAccountConfig)>,
) -> bool {
    views.len() == accounts.len() && forall|i: int|
        0 <= i < accounts.len() ==> shows_account(#[trigger] views[i], accounts[i].0, accounts[i].1)
}

fn add_endpoints(
    views: &mut Vec<SipEndpointAuthView>,
    domain: &DomainRuntimeConfig,
    shown: Ghost<Seq<(String, ExtensionConfig)>>,
)
    requires
        endpoints_shown(old(views)@, shown@),
    ensures
        endpoints_shown(
            final(views)@,
            shown@ + used_extensions(domain.domain_id, domain.extensions@),
        ),
{
    let ghost here = used_extensions(domain.domain_id, domain.extensions@.take(0));
    assert(shown@ + here =~= shown@);
    let mut i: usize = 0;
    while i < domain.extensions.len()
        invariant
            i <= domain.extensions.len(),
            endpoints_shown(
                views@,
                shown@ + used_extensions(domain.domain_id, domain.extensions@.take(i as int)),
            ),
        decreases domain.extensions.len() - i,
    {
        let ghost list = domain.extensions@;
        let ghost before = used_extensions(domain.domain_id, list.take(i as int));
        assert(list.take(i + 1).drop_last() =~= list.take(i as int));
        if domain.extensions[i].enabled {
            views.push(endpoint_view(&domain.domain_id, &domain.extensions[i]));
            assert(shown@ + before.push((domain.domain_id, list[i as int])) =~= (shown@
                + before).push((domain.domain_id, list[i as int])));
        }
        i = i + 1;
    }
    assert(domain.extensions@.take(i as int) =~= domain.extensions@);
}

fn add_peer_trunks(
    views: &mut Vec<SipPeerTrunkView>,
    domain: &DomainRuntimeConfig,
    shown: Ghost<Seq<(String, TrunkConfig)>>,
)
    requires
        peer_trunks_shown(old(views)@, shown@),
    ensures
        peer_trunks_shown(final(views)@, shown@ + owned(domain.domain_id, domain.peer_trunks@)),
{
    let mut i: usize = 0;
    while i < domain.peer_trunks.len()
        invariant
            i <= domain.peer_trunks.len(),
            views@.len() == shown@.len() + i,
            peer_trunks_shown(
                views@,
                shown@ + owned(domain.domain_id, domain.peer_trunks@.take(i as int)),
            ),
        decreases domain.peer_trunks.len() - i,
    {
        views.push(peer_trunk_view(&domain.domain_id, &domain.peer_trunks[i]));
        i = i + 1;
    }
    assert(domain.peer_trunks@.take(i as int) =~= domain.peer_trunks@);
}

fn add_register_trunks(
    views: &mut Vec<SipRegisterTrunkView>,
    domain: &DomainRuntimeConfig,
    shown: Ghost<Seq<(String, TrunkConfig)>>,
)
    requires
        register_trunks_shown(old(views)@, shown@),
    ensures
        register_trunks_shown(final(views)@, shown@ + owned(domain.domain_id, domain.reg_trunks@)),
{
    let mut i: usize = 0;
    while i < domain.reg_trunks.len()
        invariant
            i <= domain.reg_trunks.len(),
            views@.len() == shown@.len() + i,
            register_trunks_shown(
                views@,
                shown@ + owned(domain.domain_id, domain.reg_trunks@.take(i as int)),
            ),
        decreases domain.reg_trunks.len() - i,
    {
        views.push(register_trunk_view(&domain.domain_id, &domain.reg_trunks[i]));
        i = i + 1;
    }
    assert(domain.reg_trunks@.take(i as int) =~= domain.reg_trunks@);
}

fn add_accounts(
    views: &mut Vec<SipRegisterAccountView>,
    domain: &DomainRuntimeConfig,
    shown: Ghost<Seq<(String, RegisterAccountConfig)>>,
)
    requires
        accounts_shown(old(views)@, shown@),
    ensures
        accounts_shown(final(views)@, shown@ + owned(domain.domain_id, domain.reg_accounts@)),
{
    let mut i: usize = 0;
    while i < domain.reg_accounts.len()
        invariant
            i <= domain.reg_accounts.len(),
            views@.len() == shown@.len() + i,
            accounts_shown(
                views@,
                shown@ + owned(domain.domain_id, domain.reg_accounts@.take(i as int)),
            ),
        decreases domain.reg_accounts.len() - i,
    {
        views.push(account_view(&domain.domain_id, &domain.reg_accounts[i]));
        i = i + 1;
    }
    assert(domain.reg_accounts@.take(i as int) =~= domain.reg_accounts@);
}

/// The view of the settings: of every domain in use its extensions in use, and all its
/// trunks and accounts.
pub fn build_sip_runtime_view(config: &RuntimeConfig, generated_at_ms: u64) -> (view: SipRuntimeView)
    ensures
        view.view_revision == config.version,
        view.mode == RuntimeViewMode::Full,
        view.generated_at_ms == generated_at_ms,
        view.sip_port == config.sip_port,
        view.log_level == config.log_level,
        view.call_trace_enabled == config.call_trace_enabled,
        view.transports@.len() == 0,
        view.profiles@.len() == 0,
        domains_shown(view.domains@, used_domains(config.listed())),
        endpoints_shown(view.endpoints@, all_extensions(used_domains(config.listed()))),
        peer_trunks_shown(view.peer_trunks@, all_peer_trunks(used_domains(config.listed()))),
        register_trunks_shown(view.reg_trunks@, all_register_trunks(used_domains(config.listed()))),
        accounts_shown(view.reg_accounts@, all_accounts(used_domains(config.listed()))),
        view.policy.reject_new_invite_when_overloaded,
{
    let mut domains: Vec<SipDomainView> = Vec::new();
    let mut endpoints: Vec<SipEndpointAuthView> = Vec::new();
    let mut peer_trunks: Vec<SipPeerTrunkView> = Vec::new();
    let mut reg_trunks: Vec<SipRegisterTrunkView> = Vec::new();
    let mut reg_accounts: Vec<SipRegisterAccountView> = Vec::new();
    let mut i: usize = 0;
    while i < config.domains.len()
        invariant
            i <= config.listed().len(),
            domains_shown(domains@, used_domains(config.listed().take(i as int))),
            endpoints_shown(
                endpoints@,
                all_extensions(used_domains(config.listed().take(i as int))),
            ),
            peer_trunks_shown(
                peer_trunks@,
                all_peer_trunks(used_domains(config.listed().take(i as int))),
            ),
            register_trunks_shown(
                reg_trunks@,
                all_register_trunks(used_domains(config.listed().take(i as int))),
            ),
            accounts_shown(
                reg_accounts@,
                all_accounts(used_domains(config.listed().take(i as int))),
            ),
        decreases config.listed().len() - i,
    {
        let domain = config.domains.value_at(i);
        let ghost before = used_domains(config.listed().take(i as int));
        assert(config.listed().take(i + 1).drop_last() =~= config.listed().take(i as int));
        if domain.enabled {
            assert(before.push(*domain).drop_last() =~= before);
            domains.push(domain_view(domain));
            add_endpoints(&mut endpoints, domain, Ghost(all_extensions(before)));
            add_peer_trunks(&mut peer_trunks, domain, Ghost(all_peer_trunks(before)));
            add_register_trunks(&mut reg_trunks, domain, Ghost(all_register_trunks(before)));
            add_accounts(&mut reg_accounts, domain, Ghost(all_accounts(before)));
        }
        i = i + 1;
    }
    assert(config.listed().take(i as int) =~= config.listed());
    SipRuntimeView {
        view_revision: config.version,
        mode: RuntimeViewMode::Full,
        generated_at_ms,
        sip_port: config.sip_port,
        log_level: config.log_level.clone(),
        call_trace_enabled: config.call_trace_enabled,
        transports: Vec::new(),
        profiles: Vec::new(),
        domains,
        endpoints,
        peer_trunks,
        reg_trunks,
        reg_accounts,
        policy: SipOverloadPolicy { reject_new_invite_when_overloaded: true },
    }
}

/// How the request that carries a view is named.
pub fn view_request_id(revision: u64, now_ms: u64) -> (id: String)
    ensures
        id@ == "runtime-view-"@ + decimal(revision as nat) + "-"@ + decimal(now_ms as nat),
{
    join4("runtime-view-", decimal_text(revision).as_str(), "-", decimal_text(now_ms).as_str())
}

/// What is wrong with an object of the view.
#[derive(Debug, Clone)]
pub struct RuntimeViewObjectError {
    pub object_type: String,
    pub object_key: String,
    pub code: String,
    pub message: String,
}

#[derive(Debug, Clone, Copy, PartialEq, Eq, Structural)]
pub enum ApplyRuntimeViewStatus {
    Accepted,
    Partial,
    Rejected,
    Stale,
}

/// The adapter's answer to a view.
#[derive(Debug, Clone)]
pub struct ApplyRuntimeViewAck {
    pub view_revision: u64,
    pub status: ApplyRuntimeViewStatus,
    pub applied_at_ms: u64,
    pub errors: Vec<RuntimeViewObjectError>,
}

/// Why the connection to the adapter ends with its answer.
#[derive(Debug, Clone, Copy, PartialEq, Eq, Structural)]
pub enum ViewFault {
    /// It answers a view that it was not sent.
    Unsent(u64),
    Rejected(u64),
}

impl ViewFault {
    pub open spec fn says(self) -> Seq<char> {
        match self {
            ViewFault::Unsent(revision) => "adapter acked unsent runtime revision "@ + decimal(
                revision as nat,
            ),
            ViewFault::Rejected(revision) => "adapter rejected runtime revision "@ + decimal(
                revision as nat,
            ),
        }
    }

    pub fn text(self) -> (text: String)
        ensures
            text@ == self.says(),
    {
        match self {
            ViewFault::Unsent(revision) => join2(
                "adapter acked unsent runtime revision ",
                decimal_text(revision).as_str(),
            ),
            ViewFault::Rejected(revision) => join2(
                "adapter rejected runtime revision ",
                decimal_text(revision).as_str(),
            ),
        }
    }
}

impl ApplyRuntimeViewAck {
    /// Whether the connection goes on. The errors of a view that was applied in part
    /// are there to be reported.
    pub fn judge(&self, last_sent_revision: u64) -> (result: Result<(), ViewFault>)
        ensures
            result == (if self.view_revision > last_sent_revision {
                Err::<(), ViewFault>(ViewFault::Unsent(self.view_revision))
            } else if self.status == ApplyRuntimeViewStatus::Rejected {
                Err::<(), ViewFault>(ViewFault::Rejected(self.view_revision))
            } else {
                Ok::<(), ViewFault>(())
            }),
    {
        if self.view_revision > last_sent_revision {
            return Err(ViewFault::Unsent(self.view_revision));
        }
        match self.status {
            ApplyRuntimeViewStatus::Rejected => Err(ViewFault::Rejected(self.view_revision)),
            _ => Ok(()),
        }
    }
}

proof fn lemma_used_extensions_are_enabled(domain_id: String, extensions: Seq<ExtensionConfig>)
    ensures
        forall|i: int|
            0 <= i < used_extensions(domain_id, extensions).len() ==> (
            #[trigger] used_extensions(domain_id, extensions)[i]).1.enabled
                && used_extensions(domain_id, extensions)[i].0 == domain_id,
    decreases extensions.len(),
{
    if extensions.len() > 0 {
        let front = used_extensions(domain_id, extensions.drop_last());
        lemma_used_extensions_are_enabled(domain_id, extensions.drop_last());
        assert forall|i: int| 0 <= i < used_extensions(domain_id, extensions).len() implies (
        #[trigger] used_extensions(domain_id, extensions)[i]).1.enabled && used_extensions(
            domain_id,
            extensions,
        )[i].0 == domain_id by {
            if i < front.len() {
                assert(used_extensions(domain_id, extensions)[i] == front[i]);
            }
        }
    }
}

proof fn lemma_used_domains_are_enabled(domains: Seq<DomainRuntimeConfig>)
    ensures
        forall|i: int|
            0 <= i < used_domains(domains).len() ==> (#[trigger] used_domains(domains)[i]).enabled,
    decreases domains.len(),
{
    if domains.len() > 0 {
        let front = used_domains(domains.drop_last());
        lemma_used_domains_are_enabled(domains.drop_last());
        assert forall|i: int| 0 <= i < used_domains(domains).len() implies (
        #[trigger] used_domains(domains)[i]).enabled by {
            if i < front.len() {
                assert(used_domains(domains)[i] == front[i]);
            }
        }
    }
}

proof fn lemma_used_domains_stay_in_order(domains: Seq<DomainRuntimeConfig>)
    requires
        ascending(domains),
    ensures
        ascending(used_domains(domains)),
        forall|i: int|
            0 <= i < used_domains(domains).len() ==> exists|k: int|
                0 <= k < domains.len() && (#[trigger] domains[k]) == (
                #[trigger] used_domains(domains)[i]),
    decreases domains.len(),
{
    if domains.len() > 0 {
        let before = domains.drop_last();
        let last = domains.len() - 1;
        let front = used_domains(before);
        let used = used_domains(domains);
        assert forall|i: int, j: int| 0 <= i < j < before.len() implies text_before(
            (#[trigger] before[i]).domain_id@,
            (#[trigger] before[j]).domain_id@,
        ) by {
            assert(before[i] == domains[i] && before[j] == domains[j]);
        }
        lemma_used_domains_stay_in_order(before);
        assert forall|i: int| 0 <= i < used.len() implies exists|k: int|
            0 <= k < domains.len() && (#[trigger] domains[k]) == (#[trigger] used[i]) by {
            if i < front.len() {
                let k = choose|k: int| 0 <= k < before.len() && (#[trigger] before[k]) == front[i];
                assert(domains[k] == before[k]);
            } else {
                assert(domains[last] == used[i]);
            }
        }
        assert forall|i: int, j: int| 0 <= i < j < used.len() implies text_before(
            (#[trigger] used[i]).domain_id@,
            (#[trigger] used[j]).domain_id@,
        ) by {
            assert(used[i] == front[i]);
            if j < front.len() {
                assert(used[j] == front[j]);
            } else {
                let k = choose|k: int| 0 <= k < before.len() && (#[trigger] before[k]) == front[i];
                assert(domains[k] == before[k]);
                assert(used[j] == domains[last]);
            }
        }
    }
}

/// The domains in use are shown in the order of their ids, none of them twice.
pub proof fn lemma_domains_are_shown_in_order(config: RuntimeConfig, views: Seq<SipDomainView>)
    requires
        config.wf(),
        domains_shown(views, used_domains(config.listed())),
    ensures
        forall|i: int, j: int|
            0 <= i < j < views.len() ==> text_before(
                (#[trigger] views[i]).domain_id@,
                (#[trigger] views[j]).domain_id@,
            ) && views[i].domain_id@ != views[j].domain_id@,
{
    let used = used_domains(config.listed());
    config.lemma_domains_are_in_order();
    lemma_used_domains_stay_in_order(config.listed());
    assert forall|i: int, j: int| 0 <= i < j < views.len() implies text_before(
        (#[trigger] views[i]).domain_id@,
        (#[trigger] views[j]).domain_id@,
    ) && views[i].domain_id@ != views[j].domain_id@ by {
        assert(shows_domain(views[i], used[i]) && shows_domain(views[j], used[j]));
        lemma_text_before_irreflexive(views[i].domain_id@);
    }
}

/// No extension that is not in use, and none of a domain that is not in use, is shown.
pub proof fn lemma_only_what_is_used_is_shown(domains: Seq<DomainRuntimeConfig>)
    ensures
        forall|i: int|
            0 <= i < all_extensions(used_domains(domains)).len() ==> (
            #[trigger] all_extensions(used_domains(domains))[i]).1.enabled && exists|d: int|
                0 <= d < used_domains(domains).len() && (#[trigger] used_domains(domains)[d]).enabled
                    && used_domains(domains)[d].domain_id == all_extensions(
                    used_domains(domains),
                )[i].0,
{
    lemma_used_domains_are_enabled(domains);
    lemma_extensions_have_a_domain(used_domains(domains));
}

proof fn lemma_extensions_have_a_domain(domains: Seq<DomainRuntimeConfig>)
    ensures
        forall|i: int|
            0 <= i < all_extensions(domains).len() ==> (
            #[trigger] all_extensions(domains)[i]).1.enabled && exists|d: int|
                0 <= d < domains.len() && (#[trigger] domains[d]).domain_id == all_extensions(
                    domains,
                )[i].0,
    decreases domains.len(),
{
    if domains.len() > 0 {
        let front = domains.drop_last();
        let last = domains.last();
        lemma_extensions_have_a_domain(front);
        lemma_used_extensions_are_enabled(last.domain_id, last.extensions@);
        assert forall|i: int| 0 <= i < all_extensions(domains).len() implies (
        #[trigger] all_extensions(domains)[i]).1.enabled && exists|d: int|
            0 <= d < domains.len() && (#[trigger] domains[d]).domain_id == all_extensions(
                domains,
            )[i].0 by {
            if i < all_extensions(front).len() {
                assert(all_extensions(domains)[i] == all_extensions(front)[i]);
                let d = choose|d: int|
                    0 <= d < front.len() && (#[trigger] front[d]).domain_id == all_extensions(
                        front,
                    )[i].0;
                assert(domains[d] == front[d]);
            } else {
                let k = i - all_extensions(front).len();
                assert(all_extensions(domains)[i] == used_extensions(
                    last.domain_id,
                    last.extensions@,
                )[k]);
                assert(domains[domains.len() - 1] == last);
            }
        }
    }
}

} // verus!
