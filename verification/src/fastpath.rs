//! The fast path for media: which flows the kernel forwards by itself, what they
//! look like to it, and what it counted.

use crate::keyed::KeyedMap;
use crate::text::{
    decimal, decimal_text, is_word, join2, join3, join4, lowered, same_text, texts,
};
use crate::words::{lines, split_lines, split_words, trim, trimmed, words};
use vstd::prelude::*;

verus! {

/// The protocol number of UDP.
pub const IPPROTO_UDP: u8 = 17;

/// An IPv4 address, the first byte first, and a port.
#[derive(Debug, Clone, Copy, PartialEq, Eq, Structural)]
pub struct Ipv4Endpoint {
    pub a: u8,
    pub b: u8,
    pub c: u8,
    pub d: u8,
    pub port: u16,
}

#[derive(Debug, Clone, Copy, PartialEq, Eq, Structural)]
pub enum MediaFlowDirection {
    CallerToCallee,
    CalleeToCaller,
}

#[derive(Debug, Clone, Copy, PartialEq, Eq, Structural)]
pub enum FastPathMediaKind {
    Rtp,
    Rtcp,
}

#[derive(Debug, Clone, Copy, PartialEq, Eq, Structural)]
pub enum FastPathAvailability {
    Available,
    Unavailable,
}

/// One flow: packets between two endpoints, and what they are rewritten to.
#[derive(Debug, Clone, Copy, PartialEq, Eq, Structural)]
pub struct FastPathFlowSpec {
    pub media_kind: FastPathMediaKind,
    pub direction: MediaFlowDirection,
    pub local: Ipv4Endpoint,
    pub remote: Ipv4Endpoint,
    pub rewritten_source: Ipv4Endpoint,
    pub rewritten_destination: Ipv4Endpoint,
}

/// What the kernel counted, for each kind of media and direction.
#[derive(Debug, Clone, Copy, PartialEq, Eq, Structural)]
pub struct FastPathStats {
    pub caller_to_callee_packets: u64,
    pub caller_to_callee_bytes: u64,
    pub caller_to_callee_redirect_errors: u64,
    pub callee_to_caller_packets: u64,
    pub callee_to_caller_bytes: u64,
    pub callee_to_caller_redirect_errors: u64,
    pub caller_to_callee_rtcp_packets: u64,
    pub caller_to_callee_rtcp_bytes: u64,
    pub caller_to_callee_rtcp_redirect_errors: u64,
    pub callee_to_caller_rtcp_packets: u64,
    pub callee_to_caller_rtcp_bytes: u64,
    pub callee_to_caller_rtcp_redirect_errors: u64,
}

pub open spec fn no_stats() -> FastPathStats {
    FastPathStats {
        caller_to_callee_packets: 0,
        caller_to_callee_bytes: 0,
        caller_to_callee_redirect_errors: 0,
        callee_to_caller_packets: 0,
        callee_to_caller_bytes: 0,
        callee_to_caller_redirect_errors: 0,
        caller_to_callee_rtcp_packets: 0,
        caller_to_callee_rtcp_bytes: 0,
        caller_to_callee_rtcp_redirect_errors: 0,
        callee_to_caller_rtcp_packets: 0,
        callee_to_caller_rtcp_bytes: 0,
        callee_to_caller_rtcp_redirect_errors: 0,
    }
}

impl Default for FastPathStats {
    fn default() -> (stats: Self)
        ensures
            stats == no_stats(),
    {
        FastPathStats {
            caller_to_callee_packets: 0,
            caller_to_callee_bytes: 0,
            caller_to_callee_redirect_errors: 0,
            callee_to_caller_packets: 0,
            callee_to_caller_bytes: 0,
            callee_to_caller_redirect_errors: 0,
            caller_to_callee_rtcp_packets: 0,
            caller_to_callee_rtcp_bytes: 0,
            caller_to_callee_rtcp_redirect_errors: 0,
            callee_to_caller_rtcp_packets: 0,
            callee_to_caller_rtcp_bytes: 0,
            callee_to_caller_rtcp_redirect_errors: 0,
        }
    }
}

/// A sum that stops at the largest number.
pub open spec fn capped(a: u64, b: u64) -> u64 {
    if a + b <= u64::MAX {
        (a + b) as u64
    } else {
        u64::MAX
    }
}

impl FastPathStats {
    pub open spec fn merged(self, other: Self) -> Self {
        FastPathStats {
            caller_to_callee_packets: capped(
                self.caller_to_callee_packets,
                other.caller_to_callee_packets,
            ),
            caller_to_callee_bytes: capped(
                self.caller_to_callee_bytes,
                other.caller_to_callee_bytes,
            ),
            caller_to_callee_redirect_errors: capped(
                self.caller_to_callee_redirect_errors,
                other.caller_to_callee_redirect_errors,
            ),
            callee_to_caller_packets: capped(
                self.callee_to_caller_packets,
                other.callee_to_caller_packets,
            ),
            callee_to_caller_bytes: capped(
                self.callee_to_caller_bytes,
                other.callee_to_caller_bytes,
            ),
            callee_to_caller_redirect_errors: capped(
                self.callee_to_caller_redirect_errors,
                other.callee_to_caller_redirect_errors,
            ),
            caller_to_callee_rtcp_packets: capped(
                self.caller_to_callee_rtcp_packets,
                other.caller_to_callee_rtcp_packets,
            ),
            caller_to_callee_rtcp_bytes: capped(
                self.caller_to_callee_rtcp_bytes,
                other.caller_to_callee_rtcp_bytes,
            ),
            caller_to_callee_rtcp_redirect_errors: capped(
                self.caller_to_callee_rtcp_redirect_errors,
                other.caller_to_callee_rtcp_redirect_errors,
            ),
            callee_to_caller_rtcp_packets: capped(
                self.callee_to_caller_rtcp_packets,
                other.callee_to_caller_rtcp_packets,
            ),
            callee_to_caller_rtcp_bytes: capped(
                self.callee_to_caller_rtcp_bytes,
                other.callee_to_caller_rtcp_bytes,
            ),
            callee_to_caller_rtcp_redirect_errors: capped(
                self.callee_to_caller_rtcp_redirect_errors,
                other.callee_to_caller_rtcp_redirect_errors,
            ),
        }
    }

    pub fn merge_from(self, other: Self) -> (sum: Self)
        ensures
            sum == self.merged(other),
    {
        FastPathStats {
            caller_to_callee_packets: self.caller_to_callee_packets.saturating_add(
                other.caller_to_callee_packets,
            ),
            caller_to_callee_bytes: self.caller_to_callee_bytes.saturating_add(
                other.caller_to_callee_bytes,
            ),
            caller_to_callee_redirect_errors: self.caller_to_callee_redirect_errors.saturating_add(
                other.caller_to_callee_redirect_errors,
            ),
            callee_to_caller_packets: self.callee_to_caller_packets.saturating_add(
                other.callee_to_caller_packets,
            ),
            callee_to_caller_bytes: self.callee_to_caller_bytes.saturating_add(
                other.callee_to_caller_bytes,
            ),
            callee_to_caller_redirect_errors: self.callee_to_caller_redirect_errors.saturating_add(
                other.callee_to_caller_redirect_errors,
            ),
            caller_to_callee_rtcp_packets: self.caller_to_callee_rtcp_packets.saturating_add(
                other.caller_to_callee_rtcp_packets,
            ),
            caller_to_callee_rtcp_bytes: self.caller_to_callee_rtcp_bytes.saturating_add(
                other.caller_to_callee_rtcp_bytes,
            ),
            caller_to_callee_rtcp_redirect_errors:
                self.caller_to_callee_rtcp_redirect_errors.saturating_add(
                other.caller_to_callee_rtcp_redirect_errors,
            ),
            callee_to_caller_rtcp_packets: self.callee_to_caller_rtcp_packets.saturating_add(
                other.callee_to_caller_rtcp_packets,
            ),
            callee_to_caller_rtcp_bytes: self.callee_to_caller_rtcp_bytes.saturating_add(
                other.callee_to_caller_rtcp_bytes,
            ),
            callee_to_caller_rtcp_redirect_errors:
                self.callee_to_caller_rtcp_redirect_errors.saturating_add(
                other.callee_to_caller_rtcp_redirect_errors,
            ),
        }
    }

    /// The largest of the four counts of packets that could not be redirected.
    pub open spec fn worst_errors(self) -> u64 {
        larger(
            larger(self.caller_to_callee_redirect_errors, self.callee_to_caller_redirect_errors),
            larger(
                self.caller_to_callee_rtcp_redirect_errors,
                self.callee_to_caller_rtcp_redirect_errors,
            ),
        )
    }

    pub fn max_redirect_errors(self) -> (errors: u64)
        ensures
            errors == self.worst_errors(),
    {
        let rtp: u64 = if self.caller_to_callee_redirect_errors
            >= self.callee_to_caller_redirect_errors {
            self.caller_to_callee_redirect_errors
        } else {
            self.callee_to_caller_redirect_errors
        };
        let rtcp: u64 = if self.caller_to_callee_rtcp_redirect_errors
            >= self.callee_to_caller_rtcp_redirect_errors {
            self.caller_to_callee_rtcp_redirect_errors
        } else {
            self.callee_to_caller_rtcp_redirect_errors
        };
        if rtp >= rtcp {
            rtp
        } else {
            rtcp
        }
    }
}

pub open spec fn larger(a: u64, b: u64) -> u64 {
    if a >= b {
        a
    } else {
        b
    }
}

/// What identifies a flow to the kernel. Addresses and ports are in network byte
/// order in memory.
#[derive(Debug, Clone, Copy, PartialEq, Eq, Structural)]
pub struct FlowKey {
    pub ingress_ifindex: u32,
    pub local_ip: u32,
    pub remote_ip: u32,
    pub local_port: u16,
    pub remote_port: u16,
    pub protocol: u8,
}

/// What the kernel does with a flow, and what it counted of it.
#[derive(Debug, Clone, Copy, PartialEq, Eq, Structural)]
pub struct FlowAction {
    pub egress_ifindex: u32,
    pub rewritten_src_ip: u32,
    pub rewritten_dst_ip: u32,
    pub rewritten_src_port: u16,
    pub rewritten_dst_port: u16,
    pub direction: u32,
    pub generation: u64,
    pub packets: u64,
    pub bytes: u64,
    pub redirect_errors: u64,
}

/// `u16::from_ne_bytes` reads two bytes as this machine keeps a number in memory:
/// of the bytes 1 and 0 it makes 1 where the least significant byte comes first,
/// and 256 where it comes last. Which of the two depends on the machine.
#[verifier::external_body]
fn native_probe() -> (value: u16)
    ensures
        value == 1 || value == 256,
{
    u16::from_ne_bytes([1, 0])
}

/// Whether numbers are kept with their least significant byte first.
fn least_significant_first() -> (least: bool) {
    native_probe() == 1
}

/// The number that has these four bytes in memory.
pub open spec fn native32(least_first: bool, a: u8, b: u8, c: u8, d: u8) -> u32 {
    if least_first {
        (a + 256 * b + 65536 * c + 16777216 * d) as u32
    } else {
        (16777216 * a + 65536 * b + 256 * c + d) as u32
    }
}

/// The number that has these two bytes in memory.
pub open spec fn native16(least_first: bool, a: u8, b: u8) -> u16 {
    if least_first {
        (a + 256 * b) as u16
    } else {
        (256 * a + b) as u16
    }
}

/// An address as the kernel sees it.
pub open spec fn address_of(least_first: bool, e: Ipv4Endpoint) -> u32 {
    native32(least_first, e.a, e.b, e.c, e.d)
}

pub open spec fn port_of(least_first: bool, e: Ipv4Endpoint) -> u16 {
    native16(least_first, (e.port / 256) as u8, (e.port % 256) as u8)
}

pub fn ipv4_native(least_first: bool, e: Ipv4Endpoint) -> (value: u32)
    ensures
        value == address_of(least_first, e),
{
    if least_first {
        e.a as u32 + 256 * (e.b as u32) + 65536 * (e.c as u32) + 16777216 * (e.d as u32)
    } else {
        16777216 * (e.a as u32) + 65536 * (e.b as u32) + 256 * (e.c as u32) + e.d as u32
    }
}

pub fn port_native(least_first: bool, e: Ipv4Endpoint) -> (value: u16)
    ensures
        value == port_of(least_first, e),
{
    let high: u16 = e.port / 256;
    let low: u16 = e.port % 256;
    if least_first {
        high + 256 * low
    } else {
        256 * high + low
    }
}

pub open spec fn key_of(least_first: bool, ifindex: u32, local: Ipv4Endpoint, remote: Ipv4Endpoint) -> FlowKey {
    FlowKey {
        ingress_ifindex: ifindex,
        local_ip: address_of(least_first, local),
        remote_ip: address_of(least_first, remote),
        local_port: port_of(least_first, local),
        remote_port: port_of(least_first, remote),
        protocol: IPPROTO_UDP,
    }
}

/// The key of a flow, for a machine that keeps numbers as `least_first` says.
pub fn flow_key_for(
    least_first: bool,
    ifindex: u32,
    local: Ipv4Endpoint,
    remote: Ipv4Endpoint,
) -> (key: FlowKey)
    ensures
        key == key_of(least_first, ifindex, local, remote),
{
    FlowKey {
        ingress_ifindex: ifindex,
        local_ip: ipv4_native(least_first, local),
        remote_ip: ipv4_native(least_first, remote),
        local_port: port_native(least_first, local),
        remote_port: port_native(least_first, remote),
        protocol: IPPROTO_UDP,
    }
}

/// The key of a flow on this machine.
pub fn flow_key(ifindex: u32, local: Ipv4Endpoint, remote: Ipv4Endpoint) -> (key: FlowKey)
    ensures
        key == key_of(true, ifindex, local, remote) || key == key_of(false, ifindex, local, remote),
{
    flow_key_for(least_significant_first(), ifindex, local, remote)
}

/// Two flows have the same key only if their endpoints are the same.
pub proof fn lemma_keys_tell_flows_apart(
    least_first: bool,
    ifindex: u32,
    local: Ipv4Endpoint,
    remote: Ipv4Endpoint,
    other_local: Ipv4Endpoint,
    other_remote: Ipv4Endpoint,
)
    requires
        key_of(least_first, ifindex, local, remote) == key_of(
            least_first,
            ifindex,
            other_local,
            other_remote,
        ),
    ensures
        local == other_local,
        remote == other_remote,
{
    lemma_address_reads_back(least_first, local, other_local);
    lemma_address_reads_back(least_first, remote, other_remote);
}

proof fn lemma_address_reads_back(least_first: bool, x: Ipv4Endpoint, y: Ipv4Endpoint)
    requires
        address_of(least_first, x) == address_of(least_first, y),
        port_of(least_first, x) == port_of(least_first, y),
    ensures
        x == y,
{
    if least_first {
        lemma_digits_apart(x.a as int, x.b + 256 * x.c + 65536 * x.d, y.a as int, y.b + 256 * y.c
            + 65536 * y.d);
        lemma_digits_apart(x.b as int, x.c + 256 * x.d, y.b as int, y.c + 256 * y.d);
        lemma_digits_apart(x.c as int, x.d as int, y.c as int, y.d as int);
    } else {
        lemma_digits_apart(x.d as int, x.c + 256 * x.b + 65536 * x.a, y.d as int, y.c + 256 * y.b
            + 65536 * y.a);
        lemma_digits_apart(x.c as int, x.b + 256 * x.a, y.c as int, y.b + 256 * y.a);
        lemma_digits_apart(x.b as int, x.a as int, y.b as int, y.a as int);
    }
    let (p, q) = (x.port as int, y.port as int);
    assert(p == 256 * (p / 256) + p % 256 && q == 256 * (q / 256) + q % 256);
    if least_first {
        lemma_digits_apart(p / 256, p % 256, q / 256, q % 256);
    } else {
        lemma_digits_apart(p % 256, p / 256, q % 256, q / 256);
    }
}

/// The last digit to base 256, and what stands before it, are told by the number.
proof fn lemma_digits_apart(low: int, high: int, other_low: int, other_high: int)
    requires
        low + 256 * high == other_low + 256 * other_high,
        0 <= low < 256,
        0 <= other_low < 256,
    ensures
        low == other_low,
        high == other_high,
{
}

pub open spec fn action_of(
    least_first: bool,
    ifindex: u32,
    generation: u64,
    flow: FastPathFlowSpec,
) -> FlowAction {
    FlowAction {
        egress_ifindex: ifindex,
        rewritten_src_ip: address_of(least_first, flow.rewritten_source),
        rewritten_dst_ip: address_of(least_first, flow.rewritten_destination),
        rewritten_src_port: port_of(least_first, flow.rewritten_source),
        rewritten_dst_port: port_of(least_first, flow.rewritten_destination),
        direction: match flow.direction {
            MediaFlowDirection::CallerToCallee => 1,
            MediaFlowDirection::CalleeToCaller => 2,
        },
        generation,
        packets: 0,
        bytes: 0,
        redirect_errors: 0,
    }
}

pub fn flow_action(least_first: bool, ifindex: u32, generation: u64, flow: &FastPathFlowSpec) -> (action:
    FlowAction)
    ensures
        action == action_of(least_first, ifindex, generation, *flow),
{
    let direction: u32 = match flow.direction {
        MediaFlowDirection::CallerToCallee => 1,
        MediaFlowDirection::CalleeToCaller => 2,
    };
    FlowAction {
        egress_ifindex: ifindex,
        rewritten_src_ip: ipv4_native(least_first, flow.rewritten_source),
        rewritten_dst_ip: ipv4_native(least_first, flow.rewritten_destination),
        rewritten_src_port: port_native(least_first, flow.rewritten_source),
        rewritten_dst_port: port_native(least_first, flow.rewritten_destination),
        direction,
        generation,
        packets: 0,
        bytes: 0,
        redirect_errors: 0,
    }
}

#[derive(Debug, Clone, Copy, PartialEq, Eq, Structural)]
pub struct InstalledFlow {
    pub key: FlowKey,
    pub media_kind: FastPathMediaKind,
    pub direction: MediaFlowDirection,
}

/// What one flow adds to the counts: its packets count for its own kind of media
/// and direction, and nowhere else.
pub open spec fn flow_added(stats: FastPathStats, flow: InstalledFlow, action: FlowAction) -> FastPathStats {
    match (flow.media_kind, flow.direction) {
        (FastPathMediaKind::Rtp, MediaFlowDirection::CallerToCallee) => FastPathStats {
            caller_to_callee_packets: capped(stats.caller_to_callee_packets, action.packets),
            caller_to_callee_bytes: capped(stats.caller_to_callee_bytes, action.bytes),
            caller_to_callee_redirect_errors: capped(
                stats.caller_to_callee_redirect_errors,
                action.redirect_errors,
            ),
            ..stats
        },
        (FastPathMediaKind::Rtp, MediaFlowDirection::CalleeToCaller) => FastPathStats {
            callee_to_caller_packets: capped(stats.callee_to_caller_packets, action.packets),
            callee_to_caller_bytes: capped(stats.callee_to_caller_bytes, action.bytes),
            callee_to_caller_redirect_errors: capped(
                stats.callee_to_caller_redirect_errors,
                action.redirect_errors,
            ),
            ..stats
        },
        (FastPathMediaKind::Rtcp, MediaFlowDirection::CallerToCallee) => FastPathStats {
            caller_to_callee_rtcp_packets: capped(
                stats.caller_to_callee_rtcp_packets,
                action.packets,
            ),
            caller_to_callee_rtcp_bytes: capped(stats.caller_to_callee_rtcp_bytes, action.bytes),
            caller_to_callee_rtcp_redirect_errors: capped(
                stats.caller_to_callee_rtcp_redirect_errors,
                action.redirect_errors,
            ),
            ..stats
        },
        (FastPathMediaKind::Rtcp, MediaFlowDirection::CalleeToCaller) => FastPathStats {
            callee_to_caller_rtcp_packets: capped(
                stats.callee_to_caller_rtcp_packets,
                action.packets,
            ),
            callee_to_caller_rtcp_bytes: capped(stats.callee_to_caller_rtcp_bytes, action.bytes),
            callee_to_caller_rtcp_redirect_errors: capped(
                stats.callee_to_caller_rtcp_redirect_errors,
                action.redirect_errors,
            ),
            ..stats
        },
    }
}

pub fn add_flow_stats(stats: &mut FastPathStats, flow: InstalledFlow, action: FlowAction)
    ensures
        *final(stats) == flow_added(*old(stats), flow, action),
{
    match (flow.media_kind, flow.direction) {
        (FastPathMediaKind::Rtp, MediaFlowDirection::CallerToCallee) => {
            stats.caller_to_callee_packets = stats.caller_to_callee_packets.saturating_add(
                action.packets,
            );
            stats.caller_to_callee_bytes = stats.caller_to_callee_bytes.saturating_add(action.bytes);
            stats.caller_to_callee_redirect_errors =
            stats.caller_to_callee_redirect_errors.saturating_add(action.redirect_errors);
        },
        (FastPathMediaKind::Rtp, MediaFlowDirection::CalleeToCaller) => {
            stats.callee_to_caller_packets = stats.callee_to_caller_packets.saturating_add(
                action.packets,
            );
            stats.callee_to_caller_bytes = stats.callee_to_caller_bytes.saturating_add(action.bytes);
            stats.callee_to_caller_redirect_errors =
            stats.callee_to_caller_redirect_errors.saturating_add(action.redirect_errors);
        },
        (FastPathMediaKind::Rtcp, MediaFlowDirection::CallerToCallee) => {
            stats.caller_to_callee_rtcp_packets =
            stats.caller_to_callee_rtcp_packets.saturating_add(action.packets);
            stats.caller_to_callee_rtcp_bytes = stats.caller_to_callee_rtcp_bytes.saturating_add(
                action.bytes,
            );
            stats.caller_to_callee_rtcp_redirect_errors =
            stats.caller_to_callee_rtcp_redirect_errors.saturating_add(action.redirect_errors);
        },
        (FastPathMediaKind::Rtcp, MediaFlowDirection::CalleeToCaller) => {
            stats.callee_to_caller_rtcp_packets =
            stats.callee_to_caller_rtcp_packets.saturating_add(action.packets);
            stats.callee_to_caller_rtcp_bytes = stats.callee_to_caller_rtcp_bytes.saturating_add(
                action.bytes,
            );
            stats.callee_to_caller_rtcp_redirect_errors =
            stats.callee_to_caller_rtcp_redirect_errors.saturating_add(action.redirect_errors);
        },
    }
}

#[derive(Debug, Clone)]
pub struct FastPathError {
    pub code: String,
    pub message: String,
}

pub struct Fault {
    pub code: Seq<char>,
    pub message: Seq<char>,
}

impl FastPathError {
    pub open spec fn view(&self) -> Fault {
        Fault { code: self.code@, message: self.message@ }
    }
}

pub fn controller_error(code: &str, message: &str) -> (error: FastPathError)
    ensures
        error@ == (Fault { code: code@, message: message@ }),
{
    FastPathError { code: code.to_owned(), message: message.to_owned() }
}

/// What every request is answered where there is no fast path.
pub fn fast_path_unavailable() -> (error: FastPathError)
    ensures
        error@ == (Fault {
            code: "fast_path_unavailable"@,
            message: "tc/eBPF fast path backend is not available"@,
        }),
{
    controller_error("fast_path_unavailable", "tc/eBPF fast path backend is not available")
}

/// Whether the fast path is to be tried. It is, unless the setting keeps all media in
/// user space.
pub fn fast_path_wanted(mode: &Option<String>) -> (wanted: bool)
    ensures
        wanted == (match mode {
            Some(mode) => lowered(mode@) != lowered("userspace"@),
            None => true,
        }),
{
    match mode {
        Some(mode) => !is_word(mode.as_str(), "userspace"),
        None => true,
    }
}

/// A bridge whose flows are to be forwarded by the kernel.
#[derive(Debug, Clone)]
pub struct FastPathBridgeSpec {
    pub bridge_id: String,
    pub generation: u64,
    pub flows: Vec<FastPathFlowSpec>,
}

/// A bridge whose flows are installed.
pub struct InstalledBridge {
    pub generation: u64,
    pub flows: Vec<InstalledFlow>,
}

/// A rule for the kernel.
#[derive(Debug, Clone, Copy, PartialEq, Eq, Structural)]
pub struct FlowRule {
    pub key: FlowKey,
    pub action: FlowAction,
}

/// The bridges of the fast path on one interface.
pub struct FastPathTable {
    pub ifindex: u32,
    pub least_first: bool,
    pub bridges: KeyedMap<InstalledBridge>,
}

pub open spec fn rules_of(table: FastPathTable, spec: FastPathBridgeSpec) -> Seq<FlowRule> {
    Seq::new(
        spec.flows@.len(),
        |i: int|
            FlowRule {
                key: key_of(
                    table.least_first,
                    table.ifindex,
                    spec.flows@[i].local,
                    spec.flows@[i].remote,
                ),
                action: action_of(
                    table.least_first,
                    table.ifindex,
                    spec.generation,
                    spec.flows@[i],
                ),
            },
    )
}

pub open spec fn installed_of(table: FastPathTable, spec: FastPathBridgeSpec) -> Seq<InstalledFlow> {
    Seq::new(
        spec.flows@.len(),
        |i: int|
            InstalledFlow {
                key: key_of(
                    table.least_first,
                    table.ifindex,
                    spec.flows@[i].local,
                    spec.flows@[i].remote,
                ),
                media_kind: spec.flows@[i].media_kind,
                direction: spec.flows@[i].direction,
            },
    )
}

pub open spec fn stale_message(bridge: Seq<char>, asked: u64, installed: u64) -> Seq<char> {
    "bridge "@ + bridge + " generation "@ + decimal(asked as nat) + " does not match "@ + decimal(
        installed as nat,
    )
}

fn stale_generation(bridge_id: &str, asked: u64, installed: u64) -> (error: FastPathError)
    ensures
        error@ == (Fault {
            code: "stale_generation"@,
            message: stale_message(bridge_id@, asked, installed),
        }),
{
    let front = join4("bridge ", bridge_id, " generation ", decimal_text(asked).as_str());
    let message = join3(front.as_str(), " does not match ", decimal_text(installed).as_str());
    controller_error("stale_generation", message.as_str())
}

impl FastPathTable {
    pub open spec fn wf(self) -> bool {
        self.bridges.wf()
    }

    pub fn new(ifindex: u32) -> (table: Self)
        ensures
            table.wf(),
            table.ifindex == ifindex,
            table.bridges@ == Map::<Seq<char>, InstalledBridge>::empty(),
    {
        FastPathTable { ifindex, least_first: least_significant_first(), bridges: KeyedMap::new() }
    }

    /// The rules that a bridge needs, in the order in which they are installed. A
    /// bridge is installed once.
    pub fn plan_promotion(&self, spec: &FastPathBridgeSpec) -> (result: Result<
        Vec<FlowRule>,
        FastPathError,
    >)
        requires
            self.wf(),
        ensures
            match result {
                Ok(rules) => !self.bridges@.contains_key(spec.bridge_id@) && rules@ == rules_of(
                    *self,
                    *spec,
                ),
                Err(error) => self.bridges@.contains_key(spec.bridge_id@) && error@ == (Fault {
                    code: "bridge_exists"@,
                    message: "bridge "@ + spec.bridge_id@ + " already has fast path rules"@,
                }),
            },
    {
        if self.bridges.contains(spec.bridge_id.as_str()) {
            let message = join3(
                "bridge ",
                spec.bridge_id.as_str(),
                " already has fast path rules",
            );
            return Err(controller_error("bridge_exists", message.as_str()));
        }
        let mut rules: Vec<FlowRule> = Vec::new();
        let mut i: usize = 0;
        while i < spec.flows.len()
            invariant
                i <= spec.flows.len(),
                rules@.len() == i,
                forall|k: int| 0 <= k < i ==> rules@[k] == rules_of(*self, *spec)[k],
            decreases spec.flows.len() - i,
        {
            let flow = &spec.flows[i];
            rules.push(
                FlowRule {
                    key: flow_key_for(self.least_first, self.ifindex, flow.local, flow.remote),
                    action: flow_action(self.least_first, self.ifindex, spec.generation, flow),
                },
            );
            i = i + 1;
        }
        assert(rules@ =~= rules_of(*self, *spec));
        Ok(rules)
    }

    /// Notes that the rules of a bridge are installed.
    pub fn note_promotion(&mut self, spec: &FastPathBridgeSpec)
        requires
            old(self).wf(),
        ensures
            final(self).wf(),
            final(self).ifindex == old(self).ifindex,
            final(self).least_first == old(self).least_first,
            final(self).bridges@.contains_key(spec.bridge_id@),
            final(self).bridges@[spec.bridge_id@].generation == spec.generation,
            final(self).bridges@[spec.bridge_id@].flows@ == installed_of(*old(self), *spec),
            final(self).bridges@ == old(self).bridges@.insert(
                spec.bridge_id@,
                final(self).bridges@[spec.bridge_id@],
            ),
    {
        let ghost before = *self;
        let mut flows: Vec<InstalledFlow> = Vec::new();
        let mut i: usize = 0;
        while i < spec.flows.len()
            invariant
                i <= spec.flows.len(),
                *self == before,
                flows@.len() == i,
                forall|k: int| 0 <= k < i ==> flows@[k] == installed_of(before, *spec)[k],
            decreases spec.flows.len() - i,
        {
            let flow = &spec.flows[i];
            flows.push(
                InstalledFlow {
                    key: flow_key_for(self.least_first, self.ifindex, flow.local, flow.remote),
                    media_kind: flow.media_kind,
                    direction: flow.direction,
                },
            );
            i = i + 1;
        }
        assert(flows@ =~= installed_of(before, *spec));
        self.bridges.insert(
            spec.bridge_id.clone(),
            InstalledBridge { generation: spec.generation, flows },
        );
    }

    /// Takes a bridge out of the table; its flows are to be removed. Nothing is
    /// there where it was never installed; another generation of it is left alone.
    pub fn take_bridge(&mut self, bridge_id: &str, generation: u64) -> (result: Result<
        Option<InstalledBridge>,
        FastPathError,
    >)
        requires
            old(self).wf(),
        ensures
            final(self).wf(),
            final(self).ifindex == old(self).ifindex,
            final(self).least_first == old(self).least_first,
            if !old(self).bridges@.contains_key(bridge_id@) {
                result matches Ok(None) && final(self).bridges@ == old(self).bridges@
            } else if old(self).bridges@[bridge_id@].generation != generation {
                final(self).bridges@ == old(self).bridges@ && (result matches Err(error) && error@
                    == (Fault {
                    code: "stale_generation"@,
                    message: stale_message(
                        bridge_id@,
                        generation,
                        old(self).bridges@[bridge_id@].generation,
                    ),
                }))
            } else {
                final(self).bridges@ == old(self).bridges@.remove(bridge_id@) && (result matches Ok(
                    Some(bridge),
                ) && bridge == old(self).bridges@[bridge_id@])
            },
    {
        let installed: u64 = match self.bridges.get(bridge_id) {
            None => return Ok(None),
            Some(bridge) => bridge.generation,
        };
        if installed != generation {
            return Err(stale_generation(bridge_id, generation, installed));
        }
        Ok(self.bridges.remove(bridge_id))
    }

    /// The flows whose counts make up a snapshot of a bridge.
    pub fn snapshot_flows(&self, bridge_id: &str, generation: u64) -> (result: Result<
        &Vec<InstalledFlow>,
        FastPathError,
    >)
        requires
            self.wf(),
        ensures
            if !self.bridges@.contains_key(bridge_id@) {
                result matches Err(error) && error@ == (Fault {
                    code: "bridge_missing"@,
                    message: "bridge "@ + bridge_id@ + " has no active fast path rules"@,
                })
            } else if self.bridges@[bridge_id@].generation != generation {
                result matches Err(error) && error@ == (Fault {
                    code: "stale_generation"@,
                    message: stale_message(
                        bridge_id@,
                        generation,
                        self.bridges@[bridge_id@].generation,
                    ),
                })
            } else {
                result matches Ok(flows) && *flows == self.bridges@[bridge_id@].flows
            },
    {
        match self.bridges.get(bridge_id) {
            None => {
                let message = join3("bridge ", bridge_id, " has no active fast path rules");
                Err(controller_error("bridge_missing", message.as_str()))
            },
            Some(bridge) => {
                if bridge.generation != generation {
                    return Err(stale_generation(bridge_id, generation, bridge.generation));
                }
                Ok(&bridge.flows)
            },
        }
    }
}

/// The counts of a list of flows; a flow that could not be read counts nothing.
pub open spec fn total(flows: Seq<InstalledFlow>, actions: Seq<Option<FlowAction>>) -> FastPathStats
    decreases flows.len(),
{
    if flows.len() == 0 {
        no_stats()
    } else {
        let rest = total(flows.drop_last(), actions);
        match actions[flows.len() - 1] {
            Some(action) => flow_added(rest, flows.last(), action),
            None => rest,
        }
    }
}

pub fn total_stats(flows: &Vec<InstalledFlow>, actions: &Vec<Option<FlowAction>>) -> (stats:
    FastPathStats)
    requires
        actions@.len() == flows@.len(),
    ensures
        stats == total(flows@, actions@),
{
    let mut stats = FastPathStats::default();
    let mut i: usize = 0;
    while i < flows.len()
        invariant
            i <= flows.len(),
            actions@.len() == flows@.len(),
            stats == total(flows@.take(i as int), actions@),
        decreases flows.len() - i,
    {
        assert(flows@.take(i + 1).drop_last() =~= flows@.take(i as int));
        match actions[i] {
            Some(action) => add_flow_stats(&mut stats, flows[i], action),
            None => {},
        }
        i = i + 1;
    }
    assert(flows@.take(i as int) =~= flows@);
    stats
}

/// What a removal comes to: the counts, or the first rule that could not be removed.
pub fn removal_result(stats: FastPathStats, first_error: Option<String>) -> (result: Result<
    FastPathStats,
    FastPathError,
>)
    ensures
        match first_error {
            None => result matches Ok(counted) && counted == stats,
            Some(message) => result matches Err(error) && error@ == (Fault {
                code: "map_remove_failed"@,
                message: message@,
            }),
        },
{
    match first_error {
        None => Ok(stats),
        Some(message) => Err(controller_error("map_remove_failed", message.as_str())),
    }
}

/// Whether a line of the routing table is the default route, in use.
pub open spec fn default_route(line: Seq<char>) -> bool {
    let fields = words(line);
    fields.len() > 3 && fields[1] == "00000000"@ && fields[3] != "0000"@
}

/// The interface of the first default route in a routing table, whose first line is
/// a heading.
pub open spec fn default_interface_from(table: Seq<Seq<char>>, i: nat) -> Option<Seq<char>>
    decreases table.len() - i,
{
    if i >= table.len() {
        None
    } else if default_route(table[i as int]) {
        Some(words(table[i as int])[0])
    } else {
        default_interface_from(table, i + 1)
    }
}

pub fn default_interface(routes: &str) -> (interface: Option<String>)
    ensures
        crate::text::opt_text(interface) == default_interface_from(lines(routes@), 1),
{
    let table = split_lines(routes);
    let ghost all = lines(routes@);
    let mut i: usize = 1;
    while i < table.len()
        invariant
            1 <= i,
            texts(table@) == all,
            all == lines(routes@),
            default_interface_from(all, 1) == default_interface_from(all, i as nat),
        decreases table.len() - i,
    {
        assert(texts(table@)[i as int] == table@[i as int]@);
        let fields = split_words(table[i].as_str());
        let ghost shown = words(all[i as int]);
        assert(texts(fields@) == shown);
        if fields.len() > 3 {
            assert(shown[0] == fields@[0]@ && shown[1] == fields@[1]@ && shown[3] == fields@[3]@);
            if same_text(fields[1].as_str(), "00000000") && !same_text(fields[3].as_str(), "0000") {
                assert(default_route(all[i as int]));
                return Some(fields[0].clone());
            }
        }
        i = i + 1;
    }
    None
}

/// The interface of the fast path: the configured one, unless it is blank, or that
/// of the default route.
pub fn fast_path_interface(configured: Option<&str>, routes: &str) -> (interface: Option<String>)
    ensures
        crate::text::opt_text(interface) == (match configured {
            Some(name) => if trimmed(name@).len() > 0 {
                Some(trimmed(name@))
            } else {
                default_interface_from(lines(routes@), 1)
            },
            None => default_interface_from(lines(routes@), 1),
        }),
{
    match configured {
        Some(name) => {
            let interface = trim(name);
            if crate::text::chars_of(interface.as_str()).len() > 0 {
                return Some(interface);
            }
        },
        None => {},
    }
    default_interface(routes)
}

} // verus!
