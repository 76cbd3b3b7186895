//! The media bridge between two legs: which sockets relay what to whom, which
//! packets count, and when a new source of packets is believed.

use crate::call::dtmf::{
    DigitEvent, DtmfEventId, DtmfSourceGeneration, DtmfTransport,
};
use crate::dtmf::{
    detectable, observed, DtmfCapability, DtmfMediaMode, ParserConfig, ParserObservation,
    ParserState, Rfc4733DigitCompleted, Rfc4733Parser,
};
use crate::fastpath::{
    capped, FastPathFlowSpec, FastPathMediaKind, FastPathStats, Ipv4Endpoint, MediaFlowDirection,
};
use crate::recording::RecordingSide;
use vstd::prelude::*;

verus! {

pub const FAST_PATH_HEALTH_INTERVAL_MS: u64 = 500;

pub const DTMF_OBSERVATION_QUEUE_CAPACITY: usize = 32;

pub const DTMF_COLLECT_RELEASE_DRAIN_MS: u64 = 250;

/// An IP address: the bytes of IPv4, or the two halves of IPv6.
#[derive(Debug, Clone, Copy, PartialEq, Eq, Structural)]
pub enum IpAddress {
    V4(u8, u8, u8, u8),
    V6(u64, u64),
}

/// A transport address.
#[derive(Debug, Clone, Copy, PartialEq, Eq, Structural)]
pub struct Endpoint {
    pub ip: IpAddress,
    pub port: u16,
}

#[derive(Debug, Clone, Copy, PartialEq, Eq, Structural)]
pub struct DtmfObservationStats {
    pub completed: u64,
    pub incomplete: u64,
    pub invalid: u64,
    pub delivery_fault: u64,
}

#[derive(Debug, Clone, Copy, PartialEq, Eq, Structural)]
pub struct MediaStatsSnapshot {
    pub caller_to_callee_packets: u64,
    pub caller_to_callee_bytes: u64,
    pub callee_to_caller_packets: u64,
    pub callee_to_caller_bytes: u64,
    pub caller_to_callee_rtcp_packets: u64,
    pub callee_to_caller_rtcp_packets: u64,
    pub dtmf: DtmfObservationStats,
}

impl Default for DtmfObservationStats {
    fn default() -> (stats: Self)
        ensures
            stats == (DtmfObservationStats {
                completed: 0,
                incomplete: 0,
                invalid: 0,
                delivery_fault: 0,
            }),
    {
        DtmfObservationStats { completed: 0, incomplete: 0, invalid: 0, delivery_fault: 0 }
    }
}

impl Default for MediaStatsSnapshot {
    fn default() -> (stats: Self)
        ensures
            stats == (MediaStatsSnapshot {
                caller_to_callee_packets: 0,
                caller_to_callee_bytes: 0,
                callee_to_caller_packets: 0,
                callee_to_caller_bytes: 0,
                caller_to_callee_rtcp_packets: 0,
                callee_to_caller_rtcp_packets: 0,
                dtmf: DtmfObservationStats {
                    completed: 0,
                    incomplete: 0,
                    invalid: 0,
                    delivery_fault: 0,
                },
            }),
    {
        MediaStatsSnapshot {
            caller_to_callee_packets: 0,
            caller_to_callee_bytes: 0,
            callee_to_caller_packets: 0,
            callee_to_caller_bytes: 0,
            caller_to_callee_rtcp_packets: 0,
            callee_to_caller_rtcp_packets: 0,
            dtmf: DtmfObservationStats::default(),
        }
    }
}

impl MediaStatsSnapshot {
    /// The counts with those of the fast path.
    pub fn with_fast_path(self, fast_path: FastPathStats) -> (stats: Self)
        ensures
            stats == (MediaStatsSnapshot {
                caller_to_callee_packets: capped(
                    self.caller_to_callee_packets,
                    fast_path.caller_to_callee_packets,
                ),
                caller_to_callee_bytes: capped(
                    self.caller_to_callee_bytes,
                    fast_path.caller_to_callee_bytes,
                ),
                callee_to_caller_packets: capped(
                    self.callee_to_caller_packets,
                    fast_path.callee_to_caller_packets,
                ),
                callee_to_caller_bytes: capped(
                    self.callee_to_caller_bytes,
                    fast_path.callee_to_caller_bytes,
                ),
                caller_to_callee_rtcp_packets: capped(
                    self.caller_to_callee_rtcp_packets,
                    fast_path.caller_to_callee_rtcp_packets,
                ),
                callee_to_caller_rtcp_packets: capped(
                    self.callee_to_caller_rtcp_packets,
                    fast_path.callee_to_caller_rtcp_packets,
                ),
                dtmf: self.dtmf,
            }),
    {
        MediaStatsSnapshot {
            caller_to_callee_packets: self.caller_to_callee_packets.saturating_add(
                fast_path.caller_to_callee_packets,
            ),
            caller_to_callee_bytes: self.caller_to_callee_bytes.saturating_add(
                fast_path.caller_to_callee_bytes,
            ),
            callee_to_caller_packets: self.callee_to_caller_packets.saturating_add(
                fast_path.callee_to_caller_packets,
            ),
            callee_to_caller_bytes: self.callee_to_caller_bytes.saturating_add(
                fast_path.callee_to_caller_bytes,
            ),
            caller_to_callee_rtcp_packets: self.caller_to_callee_rtcp_packets.saturating_add(
                fast_path.caller_to_callee_rtcp_packets,
            ),
            callee_to_caller_rtcp_packets: self.callee_to_caller_rtcp_packets.saturating_add(
                fast_path.callee_to_caller_rtcp_packets,
            ),
            dtmf: self.dtmf,
        }
    }
}

#[derive(Debug, Clone, Copy, PartialEq, Eq, Structural)]
pub enum RelayDirection {
    CallerToCalleeRtp,
    CalleeToCallerRtp,
    CallerToCalleeRtcp,
    CalleeToCallerRtcp,
}

/// The remote end of one of the four sockets.
#[derive(Debug, Clone, Copy, PartialEq, Eq, Structural)]
pub enum RemoteEndpointSlot {
    CallerRtp,
    CallerRtcp,
    CalleeRtp,
    CalleeRtcp,
}

impl RemoteEndpointSlot {
    pub open spec fn flow(self) -> MediaFlowDirection {
        match self {
            RemoteEndpointSlot::CallerRtp => MediaFlowDirection::CallerToCallee,
            RemoteEndpointSlot::CallerRtcp => MediaFlowDirection::CallerToCallee,
            RemoteEndpointSlot::CalleeRtp => MediaFlowDirection::CalleeToCaller,
            RemoteEndpointSlot::CalleeRtcp => MediaFlowDirection::CalleeToCaller,
        }
    }

    pub fn direction(self) -> (direction: MediaFlowDirection)
        ensures
            direction == self.flow(),
    {
        match self {
            RemoteEndpointSlot::CallerRtp
            | RemoteEndpointSlot::CallerRtcp => MediaFlowDirection::CallerToCallee,
            RemoteEndpointSlot::CalleeRtp
            | RemoteEndpointSlot::CalleeRtcp => MediaFlowDirection::CalleeToCaller,
        }
    }

    /// How many packets in a row a new source has to send before it is believed.
    pub open spec fn needed(self) -> u8 {
        if self is CallerRtp || self is CalleeRtp {
            3
        } else {
            1
        }
    }

    pub fn confirmation_packets(self) -> (packets: u8)
        ensures
            packets == self.needed(),
    {
        match self {
            RemoteEndpointSlot::CallerRtp | RemoteEndpointSlot::CalleeRtp => 3,
            RemoteEndpointSlot::CallerRtcp | RemoteEndpointSlot::CalleeRtcp => 1,
        }
    }
}

pub open spec fn is_rtp(direction: RelayDirection) -> bool {
    direction is CallerToCalleeRtp || direction is CalleeToCallerRtp
}

/// Whether a packet looks like what its relay carries: version two, long enough,
/// and for RTCP one of its packet types.
pub open spec fn looks_valid(direction: RelayDirection, packet: Seq<u8>) -> bool {
    if is_rtp(direction) {
        packet.len() >= 12 && packet[0] / 64 == 2
    } else {
        packet.len() >= 4 && packet[0] / 64 == 2 && 192 <= packet[1] <= 223
    }
}

pub fn valid_media_packet(direction: RelayDirection, packet: &[u8]) -> (valid: bool)
    ensures
        valid == looks_valid(direction, packet@),
{
    match direction {
        RelayDirection::CallerToCalleeRtp | RelayDirection::CalleeToCallerRtp => packet.len() >= 12
            && packet[0] / 64 == 2,
        RelayDirection::CallerToCalleeRtcp | RelayDirection::CalleeToCallerRtcp => packet.len() >= 4
            && packet[0] / 64 == 2 && packet[1] >= 192 && packet[1] <= 223,
    }
}

/// What the relays of a bridge forwarded. Counts start again at zero behind the
/// largest number.
#[derive(Debug, Clone, Copy, PartialEq, Eq, Structural)]
pub struct RelayCounters {
    pub caller_to_callee_packets: u64,
    pub caller_to_callee_bytes: u64,
    pub callee_to_caller_packets: u64,
    pub callee_to_caller_bytes: u64,
    pub caller_to_callee_rtcp_packets: u64,
    pub callee_to_caller_rtcp_packets: u64,
}

pub open spec fn wrapped(a: u64, b: u64) -> u64 {
    ((a + b) % 0x1_0000_0000_0000_0000) as u64
}

impl RelayCounters {
    pub open spec fn counted(self, direction: RelayDirection, bytes: u64) -> Self {
        match direction {
            RelayDirection::CallerToCalleeRtp => RelayCounters {
                caller_to_callee_packets: wrapped(self.caller_to_callee_packets, 1),
                caller_to_callee_bytes: wrapped(self.caller_to_callee_bytes, bytes),
                ..self
            },
            RelayDirection::CalleeToCallerRtp => RelayCounters {
                callee_to_caller_packets: wrapped(self.callee_to_caller_packets, 1),
                callee_to_caller_bytes: wrapped(self.callee_to_caller_bytes, bytes),
                ..self
            },
            RelayDirection::CallerToCalleeRtcp => RelayCounters {
                caller_to_callee_rtcp_packets: wrapped(self.caller_to_callee_rtcp_packets, 1),
                ..self
            },
            RelayDirection::CalleeToCallerRtcp => RelayCounters {
                callee_to_caller_rtcp_packets: wrapped(self.callee_to_caller_rtcp_packets, 1),
                ..self
            },
        }
    }

    pub fn count_packet(&mut self, direction: RelayDirection, bytes: u64)
        ensures
            *final(self) == old(self).counted(direction, bytes),
    {
        match direction {
            RelayDirection::CallerToCalleeRtp => {
                self.caller_to_callee_packets = self.caller_to_callee_packets.wrapping_add(1);
                self.caller_to_callee_bytes = self.caller_to_callee_bytes.wrapping_add(bytes);
            },
            RelayDirection::CalleeToCallerRtp => {
                self.callee_to_caller_packets = self.callee_to_caller_packets.wrapping_add(1);
                self.callee_to_caller_bytes = self.callee_to_caller_bytes.wrapping_add(bytes);
            },
            RelayDirection::CallerToCalleeRtcp => {
                self.caller_to_callee_rtcp_packets =
                self.caller_to_callee_rtcp_packets.wrapping_add(1);
            },
            RelayDirection::CalleeToCallerRtcp => {
                self.callee_to_caller_rtcp_packets =
                self.callee_to_caller_rtcp_packets.wrapping_add(1);
            },
        }
    }

    pub fn snapshot(&self, dtmf: DtmfObservationStats) -> (stats: MediaStatsSnapshot)
        ensures
            stats == (MediaStatsSnapshot {
                caller_to_callee_packets: self.caller_to_callee_packets,
                caller_to_callee_bytes: self.caller_to_callee_bytes,
                callee_to_caller_packets: self.callee_to_caller_packets,
                callee_to_caller_bytes: self.callee_to_caller_bytes,
                caller_to_callee_rtcp_packets: self.caller_to_callee_rtcp_packets,
                callee_to_caller_rtcp_packets: self.callee_to_caller_rtcp_packets,
                dtmf,
            }),
    {
        MediaStatsSnapshot {
            caller_to_callee_packets: self.caller_to_callee_packets,
            caller_to_callee_bytes: self.caller_to_callee_bytes,
            callee_to_caller_packets: self.callee_to_caller_packets,
            callee_to_caller_bytes: self.callee_to_caller_bytes,
            caller_to_callee_rtcp_packets: self.caller_to_callee_rtcp_packets,
            callee_to_caller_rtcp_packets: self.callee_to_caller_rtcp_packets,
            dtmf,
        }
    }
}

/// An RTP packet with synthesised speech.
pub open spec fn speech_packet(
    payload: Seq<u8>,
    payload_type: u8,
    timestamp: u32,
    sequence: u16,
    ssrc: u32,
) -> Seq<u8> {
    seq![
        0x80u8,
        payload_type % 128,
        (sequence / 256) as u8,
        (sequence % 256) as u8,
        (timestamp / 16777216) as u8,
        ((timestamp / 65536) % 256) as u8,
        ((timestamp / 256) % 256) as u8,
        (timestamp % 256) as u8,
        (ssrc / 16777216) as u8,
        ((ssrc / 65536) % 256) as u8,
        ((ssrc / 256) % 256) as u8,
        (ssrc % 256) as u8,
    ] + payload
}

pub fn tts_packet(payload: &[u8], payload_type: u8, timestamp: u32, sequence: u16, ssrc: u32) -> (packet:
    Vec<u8>)
    ensures
        packet@ == speech_packet(payload@, payload_type, timestamp, sequence, ssrc),
{
    let mut packet: Vec<u8> = Vec::new();
    packet.push(0x80);
    packet.push(payload_type % 128);
    packet.push((sequence / 256) as u8);
    packet.push((sequence % 256) as u8);
    packet.push((timestamp / 16777216) as u8);
    packet.push(((timestamp / 65536) % 256) as u8);
    packet.push(((timestamp / 256) % 256) as u8);
    packet.push((timestamp % 256) as u8);
    packet.push((ssrc / 16777216) as u8);
    packet.push(((ssrc / 65536) % 256) as u8);
    packet.push(((ssrc / 256) % 256) as u8);
    packet.push((ssrc % 256) as u8);
    crate::bytes::push_range(&mut packet, payload, 0, payload.len());
    assert(payload@.subrange(0, payload@.len() as int) =~= payload@);
    assert(packet@ =~= speech_packet(payload@, payload_type, timestamp, sequence, ssrc));
    packet
}

/// What a packet with speech says when it is read again: its numbers and its
/// payload come back, and relays take it for RTP.
pub proof fn lemma_speech_packet_reads_back(
    payload: Seq<u8>,
    payload_type: u8,
    timestamp: u32,
    sequence: u16,
    ssrc: u32,
)
    ensures
        ({
            let packet = speech_packet(payload, payload_type, timestamp, sequence, ssrc);
            &&& looks_valid(RelayDirection::CallerToCalleeRtp, packet)
            &&& crate::bytes::be16_at(packet, 2) == sequence
            &&& crate::bytes::be32_at(packet, 4) == timestamp
            &&& crate::bytes::be32_at(packet, 8) == ssrc
            &&& packet[1] == payload_type % 128
            &&& packet.skip(12) == payload
        }),
{
    let packet = speech_packet(payload, payload_type, timestamp, sequence, ssrc);
    assert(packet.skip(12) =~= payload);
}

/// The four sockets of a bridge.
#[derive(Debug, Clone, Copy, PartialEq, Eq, Structural)]
pub enum RelaySocket {
    CallerRtp,
    CallerRtcp,
    CalleeRtp,
    CalleeRtcp,
}

/// One relay: what it receives where, and where it sends it.
#[derive(Debug, Clone, Copy, PartialEq, Eq, Structural)]
pub struct RelayPlan {
    pub receive: RelaySocket,
    pub send: RelaySocket,
    pub source: RemoteEndpointSlot,
    pub target: RemoteEndpointSlot,
    pub direction: RelayDirection,
    /// The side that is recorded.
    pub recording: Option<RecordingSide>,
    /// Whether the relay looks for telephone events.
    pub observes_dtmf: bool,
}

/// The socket that faces a remote end.
pub open spec fn socket_facing(slot: RemoteEndpointSlot) -> RelaySocket {
    match slot {
        RemoteEndpointSlot::CallerRtp => RelaySocket::CallerRtp,
        RemoteEndpointSlot::CallerRtcp => RelaySocket::CallerRtcp,
        RemoteEndpointSlot::CalleeRtp => RelaySocket::CalleeRtp,
        RemoteEndpointSlot::CalleeRtcp => RelaySocket::CalleeRtcp,
    }
}

/// The relay of one direction.
pub open spec fn relay_for(direction: RelayDirection) -> RelayPlan {
    match direction {
        RelayDirection::CallerToCalleeRtp => RelayPlan {
            receive: RelaySocket::CallerRtp,
            send: RelaySocket::CalleeRtp,
            source: RemoteEndpointSlot::CallerRtp,
            target: RemoteEndpointSlot::CalleeRtp,
            direction,
            recording: Some(RecordingSide::Caller),
            observes_dtmf: true,
        },
        RelayDirection::CalleeToCallerRtp => RelayPlan {
            receive: RelaySocket::CalleeRtp,
            send: RelaySocket::CallerRtp,
            source: RemoteEndpointSlot::CalleeRtp,
            target: RemoteEndpointSlot::CallerRtp,
            direction,
            recording: Some(RecordingSide::Callee),
            observes_dtmf: true,
        },
        RelayDirection::CallerToCalleeRtcp => RelayPlan {
            receive: RelaySocket::CallerRtcp,
            send: RelaySocket::CalleeRtcp,
            source: RemoteEndpointSlot::CallerRtcp,
            target: RemoteEndpointSlot::CalleeRtcp,
            direction,
            recording: None,
            observes_dtmf: false,
        },
        RelayDirection::CalleeToCallerRtcp => RelayPlan {
            receive: RelaySocket::CalleeRtcp,
            send: RelaySocket::CallerRtcp,
            source: RemoteEndpointSlot::CalleeRtcp,
            target: RemoteEndpointSlot::CallerRtcp,
            direction,
            recording: None,
            observes_dtmf: false,
        },
    }
}

pub fn relay_plan(direction: RelayDirection) -> (plan: RelayPlan)
    ensures
        plan == relay_for(direction),
{
    match direction {
        RelayDirection::CallerToCalleeRtp => RelayPlan {
            receive: RelaySocket::CallerRtp,
            send: RelaySocket::CalleeRtp,
            source: RemoteEndpointSlot::CallerRtp,
            target: RemoteEndpointSlot::CalleeRtp,
            direction,
            recording: Some(RecordingSide::Caller),
            observes_dtmf: true,
        },
        RelayDirection::CalleeToCallerRtp => RelayPlan {
            receive: RelaySocket::CalleeRtp,
            send: RelaySocket::CallerRtp,
            source: RemoteEndpointSlot::CalleeRtp,
            target: RemoteEndpointSlot::CallerRtp,
            direction,
            recording: Some(RecordingSide::Callee),
            observes_dtmf: true,
        },
        RelayDirection::CallerToCalleeRtcp => RelayPlan {
            receive: RelaySocket::CallerRtcp,
            send: RelaySocket::CalleeRtcp,
            source: RemoteEndpointSlot::CallerRtcp,
            target: RemoteEndpointSlot::CalleeRtcp,
            direction,
            recording: None,
            observes_dtmf: false,
        },
        RelayDirection::CalleeToCallerRtcp => RelayPlan {
            receive: RelaySocket::CalleeRtcp,
            send: RelaySocket::CallerRtcp,
            source: RemoteEndpointSlot::CalleeRtcp,
            target: RemoteEndpointSlot::CallerRtcp,
            direction,
            recording: None,
            observes_dtmf: false,
        },
    }
}

/// Each relay receives on the socket that faces its source and sends from the one
/// that faces its target: a peer sees packets from the port it was told of.
pub proof fn lemma_relays_send_from_the_advertised_socket(direction: RelayDirection)
    ensures
        relay_for(direction).receive == socket_facing(relay_for(direction).source),
        relay_for(direction).send == socket_facing(relay_for(direction).target),
        relay_for(direction).source.flow() != relay_for(direction).target.flow(),
{
}

/// The ports of the four sockets.
#[derive(Debug, Clone, Copy, PartialEq, Eq, Structural)]
pub struct RelayPorts {
    pub caller_rtp: u16,
    pub caller_rtcp: u16,
    pub callee_rtp: u16,
    pub callee_rtcp: u16,
}

/// Where the two legs send from and want to be sent to, as far as known.
#[derive(Debug, Clone, Copy, PartialEq, Eq, Structural)]
pub struct RemoteEndpoints {
    pub caller_rtp: Option<Endpoint>,
    pub caller_rtcp: Option<Endpoint>,
    pub callee_rtp: Option<Endpoint>,
    pub callee_rtcp: Option<Endpoint>,
}

impl RemoteEndpoints {
    pub open spec fn at(self, slot: RemoteEndpointSlot) -> Option<Endpoint> {
        match slot {
            RemoteEndpointSlot::CallerRtp => self.caller_rtp,
            RemoteEndpointSlot::CallerRtcp => self.caller_rtcp,
            RemoteEndpointSlot::CalleeRtp => self.callee_rtp,
            RemoteEndpointSlot::CalleeRtcp => self.callee_rtcp,
        }
    }

    pub fn get(&self, slot: RemoteEndpointSlot) -> (endpoint: Option<Endpoint>)
        ensures
            endpoint == self.at(slot),
    {
        match slot {
            RemoteEndpointSlot::CallerRtp => self.caller_rtp,
            RemoteEndpointSlot::CallerRtcp => self.caller_rtcp,
            RemoteEndpointSlot::CalleeRtp => self.callee_rtp,
            RemoteEndpointSlot::CalleeRtcp => self.callee_rtcp,
        }
    }

    pub fn set(&mut self, slot: RemoteEndpointSlot, endpoint: Endpoint)
        ensures
            final(self).at(slot) == Some(endpoint),
            forall|other: RemoteEndpointSlot|
                other != slot ==> #[trigger] final(self).at(other) == old(self).at(other),
    {
        match slot {
            RemoteEndpointSlot::CallerRtp => {
                self.caller_rtp = Some(endpoint);
            },
            RemoteEndpointSlot::CallerRtcp => {
                self.caller_rtcp = Some(endpoint);
            },
            RemoteEndpointSlot::CalleeRtp => {
                self.callee_rtp = Some(endpoint);
            },
            RemoteEndpointSlot::CalleeRtcp => {
                self.callee_rtcp = Some(endpoint);
            },
        }
    }
}

/// What a session description says of the audio of a leg.
#[derive(Debug, Clone, Copy)]
pub struct ParsedAudio {
    pub remote_rtp: Endpoint,
    pub remote_rtcp: Option<Endpoint>,
    pub telephone_event: Option<DtmfCapability>,
}

/// Where a leg is told to send.
#[derive(Debug, Clone, Copy, PartialEq, Eq, Structural)]
pub struct RelayEndpoint {
    pub rtp: Endpoint,
    pub rtcp: Endpoint,
}

/// Where media for a leg is routed: to the given target, or to what its offer says.
pub fn route_target(target: Option<Endpoint>, offered: Endpoint) -> (chosen: Endpoint)
    ensures
        chosen == (match target {
            Some(target) => target,
            None => offered,
        }),
{
    match target {
        Some(target) => target,
        None => offered,
    }
}

/// The negotiated part of a bridge: both remote ends, the addresses the legs are
/// told, and how telephone events are looked for.
pub struct MediaBridge {
    pub ports: RelayPorts,
    pub remotes: RemoteEndpoints,
    pub caller_advertise_ip: IpAddress,
    pub callee_advertise_ip: IpAddress,
    pub caller_dtmf: ParserConfig,
    pub callee_dtmf: ParserConfig,
}

pub open spec fn callee_relay(ip: IpAddress, ports: RelayPorts) -> RelayEndpoint {
    RelayEndpoint {
        rtp: Endpoint { ip, port: ports.callee_rtp },
        rtcp: Endpoint { ip, port: ports.callee_rtcp },
    }
}

pub open spec fn caller_relay(ip: IpAddress, ports: RelayPorts) -> RelayEndpoint {
    RelayEndpoint {
        rtp: Endpoint { ip, port: ports.caller_rtp },
        rtcp: Endpoint { ip, port: ports.caller_rtcp },
    }
}

/// A parser for another negotiation, in the mode it had.
pub open spec fn renegotiated(
    config: ParserConfig,
    capability: Option<DtmfCapability>,
    generation: u64,
) -> ParserConfig {
    ParserConfig { generation, capability: detectable(capability), mode: config.mode }
}

impl MediaBridge {
    /// The bridge for a caller's offer, and where the callee is told to send.
    pub fn allocate(
        offer: &ParsedAudio,
        caller_advertise_ip: IpAddress,
        callee_advertise_ip: IpAddress,
        ports: RelayPorts,
    ) -> (allocated: (MediaBridge, RelayEndpoint))
        ensures
            allocated.0 == (MediaBridge {
                ports,
                remotes: RemoteEndpoints {
                    caller_rtp: Some(offer.remote_rtp),
                    caller_rtcp: offer.remote_rtcp,
                    callee_rtp: None,
                    callee_rtcp: None,
                },
                caller_advertise_ip,
                callee_advertise_ip,
                caller_dtmf: ParserConfig {
                    generation: 0,
                    capability: detectable(offer.telephone_event),
                    mode: DtmfMediaMode::Transparent,
                },
                callee_dtmf: ParserConfig {
                    generation: 0,
                    capability: None,
                    mode: DtmfMediaMode::Transparent,
                },
            }),
            allocated.1 == callee_relay(callee_advertise_ip, ports),
    {
        let bridge = MediaBridge {
            ports,
            remotes: RemoteEndpoints {
                caller_rtp: Some(offer.remote_rtp),
                caller_rtcp: offer.remote_rtcp,
                callee_rtp: None,
                callee_rtcp: None,
            },
            caller_advertise_ip,
            callee_advertise_ip,
            caller_dtmf: ParserConfig::transparent(0, offer.telephone_event),
            callee_dtmf: ParserConfig::disabled(0),
        };
        let relay = RelayEndpoint {
            rtp: Endpoint { ip: callee_advertise_ip, port: ports.callee_rtp },
            rtcp: Endpoint { ip: callee_advertise_ip, port: ports.callee_rtcp },
        };
        (bridge, relay)
    }

    /// Prepares the bridge for another attempt to reach the callee: the ports stay,
    /// and what was known of the previous callee is forgotten.
    pub fn prepare_callee_sdp(
        &mut self,
        offer: &ParsedAudio,
        advertise_ip: IpAddress,
        generation: u64,
    ) -> (relay: RelayEndpoint)
        ensures
            *final(self) == (MediaBridge {
                remotes: RemoteEndpoints {
                    callee_rtp: None,
                    callee_rtcp: None,
                    ..old(self).remotes
                },
                callee_advertise_ip: advertise_ip,
                caller_dtmf: renegotiated(
                    old(self).caller_dtmf,
                    offer.telephone_event,
                    generation,
                ),
                callee_dtmf: renegotiated(old(self).callee_dtmf, None, generation),
                ..*old(self)
            }),
            relay == callee_relay(advertise_ip, old(self).ports),
    {
        self.callee_advertise_ip = advertise_ip;
        self.remotes = RemoteEndpoints {
            caller_rtp: self.remotes.caller_rtp,
            caller_rtcp: self.remotes.caller_rtcp,
            callee_rtp: None,
            callee_rtcp: None,
        };
        self.caller_dtmf = ParserConfig::with_mode(
            generation,
            offer.telephone_event,
            self.caller_dtmf.mode,
        );
        self.callee_dtmf = ParserConfig::with_mode(generation, None, self.callee_dtmf.mode);
        RelayEndpoint {
            rtp: Endpoint { ip: advertise_ip, port: self.ports.callee_rtp },
            rtcp: Endpoint { ip: advertise_ip, port: self.ports.callee_rtcp },
        }
    }

    /// Takes the callee's answer: where it is, and which telephone events it knows.
    /// Gives where the caller is told to send.
    pub fn prepare_caller_sdp(&mut self, answer: &ParsedAudio, generation: u64) -> (relay:
        RelayEndpoint)
        ensures
            *final(self) == (MediaBridge {
                remotes: RemoteEndpoints {
                    callee_rtp: Some(answer.remote_rtp),
                    callee_rtcp: answer.remote_rtcp,
                    ..old(self).remotes
                },
                caller_dtmf: renegotiated(
                    old(self).caller_dtmf,
                    answer.telephone_event,
                    generation,
                ),
                callee_dtmf: renegotiated(
                    old(self).callee_dtmf,
                    answer.telephone_event,
                    generation,
                ),
                ..*old(self)
            }),
            relay == caller_relay(old(self).caller_advertise_ip, old(self).ports),
    {
        self.remotes = RemoteEndpoints {
            caller_rtp: self.remotes.caller_rtp,
            caller_rtcp: self.remotes.caller_rtcp,
            callee_rtp: Some(answer.remote_rtp),
            callee_rtcp: answer.remote_rtcp,
        };
        self.caller_dtmf = ParserConfig::with_mode(
            generation,
            answer.telephone_event,
            self.caller_dtmf.mode,
        );
        self.callee_dtmf = ParserConfig::with_mode(
            generation,
            answer.telephone_event,
            self.callee_dtmf.mode,
        );
        RelayEndpoint {
            rtp: Endpoint { ip: self.caller_advertise_ip, port: self.ports.caller_rtp },
            rtcp: Endpoint { ip: self.caller_advertise_ip, port: self.ports.caller_rtcp },
        }
    }

    /// The flows of the bridge, where every end is known and has an IPv4 address.
    pub open spec fn flows(self) -> Option<Seq<FastPathFlowSpec>> {
        match (
            local_leg(
                self.caller_advertise_ip,
                self.ports.caller_rtp,
                self.ports.caller_rtcp,
                self.remotes.caller_rtp,
                self.remotes.caller_rtcp,
            ),
            local_leg(
                self.callee_advertise_ip,
                self.ports.callee_rtp,
                self.ports.callee_rtcp,
                self.remotes.callee_rtp,
                self.remotes.callee_rtcp,
            ),
        ) {
            (Some(caller), Some(callee)) => Some(flows_between(caller, callee)),
            _ => None,
        }
    }

    pub fn current_flows(&self) -> (flows: Option<Vec<FastPathFlowSpec>>)
        ensures
            match flows {
                Some(list) => self.flows() == Some(list@),
                None => self.flows() is None,
            },
    {
        let caller = leg_endpoints(
            self.caller_advertise_ip,
            self.ports.caller_rtp,
            self.ports.caller_rtcp,
            self.remotes.caller_rtp,
            self.remotes.caller_rtcp,
        );
        let callee = leg_endpoints(
            self.callee_advertise_ip,
            self.ports.callee_rtp,
            self.ports.callee_rtcp,
            self.remotes.callee_rtp,
            self.remotes.callee_rtcp,
        );
        match (caller, callee) {
            (Some(caller), Some(callee)) => Some(fast_path_flows(caller, callee)),
            _ => None,
        }
    }
}

/// Both ends of one leg, for RTP and RTCP.
#[derive(Debug, Clone, Copy, PartialEq, Eq, Structural)]
pub struct FastPathLegEndpoints {
    pub local_rtp: Ipv4Endpoint,
    pub remote_rtp: Ipv4Endpoint,
    pub local_rtcp: Ipv4Endpoint,
    pub remote_rtcp: Ipv4Endpoint,
}

pub open spec fn as_ipv4(ip: IpAddress, port: u16) -> Option<Ipv4Endpoint> {
    match ip {
        IpAddress::V4(a, b, c, d) => Some(Ipv4Endpoint { a, b, c, d, port }),
        IpAddress::V6(_, _) => None,
    }
}

fn to_ipv4(ip: IpAddress, port: u16) -> (endpoint: Option<Ipv4Endpoint>)
    ensures
        endpoint == as_ipv4(ip, port),
{
    match ip {
        IpAddress::V4(a, b, c, d) => Some(Ipv4Endpoint { a, b, c, d, port }),
        IpAddress::V6(_, _) => None,
    }
}

pub open spec fn remote_ipv4(endpoint: Option<Endpoint>) -> Option<Ipv4Endpoint> {
    match endpoint {
        Some(endpoint) => as_ipv4(endpoint.ip, endpoint.port),
        None => None,
    }
}

pub open spec fn local_leg(
    ip: IpAddress,
    rtp_port: u16,
    rtcp_port: u16,
    remote_rtp: Option<Endpoint>,
    remote_rtcp: Option<Endpoint>,
) -> Option<FastPathLegEndpoints> {
    match (
        as_ipv4(ip, rtp_port),
        as_ipv4(ip, rtcp_port),
        remote_ipv4(remote_rtp),
        remote_ipv4(remote_rtcp),
    ) {
        (Some(local_rtp), Some(local_rtcp), Some(remote_rtp), Some(remote_rtcp)) => Some(
            FastPathLegEndpoints { local_rtp, remote_rtp, local_rtcp, remote_rtcp },
        ),
        _ => None,
    }
}

fn leg_endpoints(
    ip: IpAddress,
    rtp_port: u16,
    rtcp_port: u16,
    remote_rtp: Option<Endpoint>,
    remote_rtcp: Option<Endpoint>,
) -> (leg: Option<FastPathLegEndpoints>)
    ensures
        leg == local_leg(ip, rtp_port, rtcp_port, remote_rtp, remote_rtcp),
{
    let far_rtp = match remote_rtp {
        Some(endpoint) => to_ipv4(endpoint.ip, endpoint.port),
        None => None,
    };
    let far_rtcp = match remote_rtcp {
        Some(endpoint) => to_ipv4(endpoint.ip, endpoint.port),
        None => None,
    };
    match (to_ipv4(ip, rtp_port), to_ipv4(ip, rtcp_port), far_rtp, far_rtcp) {
        (Some(local_rtp), Some(local_rtcp), Some(remote_rtp), Some(remote_rtcp)) => Some(
            FastPathLegEndpoints { local_rtp, remote_rtp, local_rtcp, remote_rtcp },
        ),
        _ => None,
    }
}

pub open spec fn flow(
    media_kind: FastPathMediaKind,
    direction: MediaFlowDirection,
    local: Ipv4Endpoint,
    remote: Ipv4Endpoint,
    rewritten_source: Ipv4Endpoint,
    rewritten_destination: Ipv4Endpoint,
) -> FastPathFlowSpec {
    FastPathFlowSpec {
        media_kind,
        direction,
        local,
        remote,
        rewritten_source,
        rewritten_destination,
    }
}

/// RTP and RTCP, each in both directions: what comes in on one leg goes out on the
/// other.
pub open spec fn flows_between(caller: FastPathLegEndpoints, callee: FastPathLegEndpoints) -> Seq<
    FastPathFlowSpec,
> {
    seq![
        flow(
            FastPathMediaKind::Rtp,
            MediaFlowDirection::CallerToCallee,
            caller.local_rtp,
            caller.remote_rtp,
            callee.local_rtp,
            callee.remote_rtp,
        ),
        flow(
            FastPathMediaKind::Rtp,
            MediaFlowDirection::CalleeToCaller,
            callee.local_rtp,
            callee.remote_rtp,
            caller.local_rtp,
            caller.remote_rtp,
        ),
        flow(
            FastPathMediaKind::Rtcp,
            MediaFlowDirection::CallerToCallee,
            caller.local_rtcp,
            caller.remote_rtcp,
            callee.local_rtcp,
            callee.remote_rtcp,
        ),
        flow(
            FastPathMediaKind::Rtcp,
            MediaFlowDirection::CalleeToCaller,
            callee.local_rtcp,
            callee.remote_rtcp,
            caller.local_rtcp,
            caller.remote_rtcp,
        ),
    ]
}

pub fn fast_path_flows(caller: FastPathLegEndpoints, callee: FastPathLegEndpoints) -> (flows: Vec<
    FastPathFlowSpec,
>)
    ensures
        flows@ == flows_between(caller, callee),
{
    let flows = vec![
        FastPathFlowSpec {
            media_kind: FastPathMediaKind::Rtp,
            direction: MediaFlowDirection::CallerToCallee,
            local: caller.local_rtp,
            remote: caller.remote_rtp,
            rewritten_source: callee.local_rtp,
            rewritten_destination: callee.remote_rtp,
        },
        FastPathFlowSpec {
            media_kind: FastPathMediaKind::Rtp,
            direction: MediaFlowDirection::CalleeToCaller,
            local: callee.local_rtp,
            remote: callee.remote_rtp,
            rewritten_source: caller.local_rtp,
            rewritten_destination: caller.remote_rtp,
        },
        FastPathFlowSpec {
            media_kind: FastPathMediaKind::Rtcp,
            direction: MediaFlowDirection::CallerToCallee,
            local: caller.local_rtcp,
            remote: caller.remote_rtcp,
            rewritten_source: callee.local_rtcp,
            rewritten_destination: callee.remote_rtcp,
        },
        FastPathFlowSpec {
            media_kind: FastPathMediaKind::Rtcp,
            direction: MediaFlowDirection::CalleeToCaller,
            local: callee.local_rtcp,
            remote: callee.remote_rtcp,
            rewritten_source: caller.local_rtcp,
            rewritten_destination: caller.remote_rtcp,
        },
    ];
    assert(flows@ =~= flows_between(caller, callee));
    flows
}

/// What a relay does with a packet.
pub struct RelayDecision {
    /// A new source is to be looked at.
    pub endpoint_observed: bool,
    pub observations: Vec<ParserObservation>,
    /// Where the packet goes; it is dropped where there is no such place.
    pub forward_to: Option<Endpoint>,
}

/// What the parser of a relay makes of a packet.
pub open spec fn parsed_by_relay(
    parser: Option<ParserState>,
    confirmed: bool,
    packet: Seq<u8>,
    now: u64,
) -> (Option<ParserState>, Seq<ParserObservation>) {
    match parser {
        Some(state) => if confirmed {
            (Some(observed(state, packet, now).0), observed(state, packet, now).1)
        } else {
            (Some(state), Seq::empty())
        },
        None => (None, Seq::empty()),
    }
}

/// Whether a parser keeps a packet from being relayed.
pub open spec fn keeps_back(parser: Option<ParserState>, packet: Seq<u8>) -> bool {
    match parser {
        Some(state) => state.config.mode == DtmfMediaMode::Collect && match state.config.capability {
            Some(capability) => packet.len() >= 2 && packet[0] / 64 == 2 && packet[1] % 128
                == capability.payload_type,
            None => false,
        },
        None => false,
    }
}

pub open spec fn parser_state(parser: Option<Rfc4733Parser>) -> Option<ParserState> {
    match parser {
        Some(parser) => Some(parser@),
        None => None,
    }
}

/// Decides on a packet from `source`. Telephone events count only from the source
/// that is believed; what is collected is not relayed.
pub fn relay_packet(
    direction: RelayDirection,
    parser: &mut Option<Rfc4733Parser>,
    packet: &[u8],
    source: Endpoint,
    believed: Option<Endpoint>,
    target: Option<Endpoint>,
    now: u64,
) -> (decision: RelayDecision)
    ensures
        ({
            let confirmed = believed == Some(source);
            let parsed = parsed_by_relay(parser_state(*old(parser)), confirmed, packet@, now);
            &&& parser_state(*final(parser)) == parsed.0
            &&& decision.observations@ == parsed.1
            &&& decision.endpoint_observed == (!confirmed && looks_valid(direction, packet@))
            &&& decision.forward_to == (if keeps_back(parsed.0, packet@) {
                None
            } else {
                target
            })
        }),
{
    let confirmed = match believed {
        Some(endpoint) => endpoint == source,
        None => false,
    };
    let endpoint_observed = !confirmed && valid_media_packet(direction, packet);
    let mut observations: Vec<ParserObservation> = Vec::new();
    let mut suppressed = false;
    let held = parser.take();
    match held {
        Some(mut state) => {
            if confirmed {
                observations = state.observe_packet(packet, now);
            }
            suppressed = state.suppresses_packet(packet);
            *parser = Some(state);
        },
        None => {},
    }
    let forward_to = if suppressed {
        None
    } else {
        target
    };
    RelayDecision { endpoint_observed, observations, forward_to }
}

#[derive(Debug, Clone, Copy, PartialEq, Eq, Structural)]
pub enum DtmfRelayDirection {
    CallerToCallee,
    CalleeToCaller,
}

/// The direction in which a relay reports telephone events; control packets carry
/// none.
pub fn observation_direction(direction: RelayDirection) -> (reported: Option<DtmfRelayDirection>)
    ensures
        reported == (match direction {
            RelayDirection::CallerToCalleeRtp => Some(DtmfRelayDirection::CallerToCallee),
            RelayDirection::CalleeToCallerRtp => Some(DtmfRelayDirection::CalleeToCaller),
            _ => None,
        }),
{
    match direction {
        RelayDirection::CallerToCalleeRtp => Some(DtmfRelayDirection::CallerToCallee),
        RelayDirection::CalleeToCallerRtp => Some(DtmfRelayDirection::CalleeToCaller),
        _ => None,
    }
}

/// The sessions that digits of the two legs belong to.
pub struct DtmfSessionBindings {
    pub domain_id: String,
    pub call_id: String,
    pub caller_session_id: String,
    pub callee_session_id: String,
}

impl DtmfSessionBindings {
    pub open spec fn session(self, direction: DtmfRelayDirection) -> String {
        match direction {
            DtmfRelayDirection::CallerToCallee => self.caller_session_id,
            DtmfRelayDirection::CalleeToCaller => self.callee_session_id,
        }
    }
}

impl DtmfObservationStats {
    pub open spec fn after(self, observation: ParserObservation) -> Self {
        match observation {
            ParserObservation::Completed(completed) => DtmfObservationStats {
                completed: wrapped(self.completed, 1),
                incomplete: if completed.incomplete_end {
                    wrapped(self.incomplete, 1)
                } else {
                    self.incomplete
                },
                ..self
            },
            ParserObservation::Invalid => DtmfObservationStats {
                invalid: wrapped(self.invalid, 1),
                ..self
            },
        }
    }

    /// Counts what a relay observed.
    pub fn count(&mut self, observation: &ParserObservation)
        ensures
            *final(self) == old(self).after(*observation),
    {
        match observation {
            ParserObservation::Completed(completed) => {
                self.completed = self.completed.wrapping_add(1);
                if completed.incomplete_end {
                    self.incomplete = self.incomplete.wrapping_add(1);
                }
            },
            ParserObservation::Invalid => {
                self.invalid = self.invalid.wrapping_add(1);
            },
        }
    }

    /// Counts a digit that its session did not get.
    pub fn count_delivery_fault(&mut self)
        ensures
            *final(self) == (DtmfObservationStats {
                delivery_fault: wrapped(old(self).delivery_fault, 1),
                ..*old(self)
            }),
    {
        self.delivery_fault = self.delivery_fault.wrapping_add(1);
    }
}

/// The event for a digit that a relay observed.
pub fn observed_digit(
    bindings: &DtmfSessionBindings,
    direction: DtmfRelayDirection,
    completed: &Rfc4733DigitCompleted,
    observed_at_ms: u64,
) -> (event: DigitEvent)
    ensures
        event == (DigitEvent {
            event_id: DtmfEventId::Rfc4733 {
                media_generation: completed.generation,
                source_session_id: bindings.session(direction),
                ssrc: completed.ssrc,
                timestamp: completed.timestamp,
                event_code: completed.event_code,
            },
            domain_id: bindings.domain_id,
            call_id: bindings.call_id,
            source_session_id: bindings.session(direction),
            source_media_leg_id: None,
            digit: completed.digit,
            transport: DtmfTransport::Rfc4733,
            duration_ms: completed.duration_ms,
            observed_at_ms,
            source_generation: DtmfSourceGeneration::Media(completed.generation),
            incomplete_end: completed.incomplete_end,
        }),
        event.consistent(),
{
    let session = match direction {
        DtmfRelayDirection::CallerToCallee => bindings.caller_session_id.clone(),
        DtmfRelayDirection::CalleeToCaller => bindings.callee_session_id.clone(),
    };
    DigitEvent {
        event_id: DtmfEventId::Rfc4733 {
            media_generation: completed.generation,
            source_session_id: session.clone(),
            ssrc: completed.ssrc,
            timestamp: completed.timestamp,
            event_code: completed.event_code,
        },
        domain_id: bindings.domain_id.clone(),
        call_id: bindings.call_id.clone(),
        source_session_id: session,
        source_media_leg_id: None,
        digit: completed.digit,
        transport: DtmfTransport::Rfc4733,
        duration_ms: completed.duration_ms,
        observed_at_ms,
        source_generation: DtmfSourceGeneration::Media(completed.generation),
        incomplete_end: completed.incomplete_end,
    }
}

/// A source that is not believed yet, and how many packets in a row it sent.
#[derive(Debug, Clone, Copy, PartialEq, Eq, Structural)]
pub struct RebindCandidate {
    pub source: Endpoint,
    pub packets: u8,
}

/// The sources that may take the place of the believed ones.
#[derive(Debug, Clone, Copy, PartialEq, Eq, Structural)]
pub struct RebindMonitor {
    pub caller_rtp: Option<RebindCandidate>,
    pub caller_rtcp: Option<RebindCandidate>,
    pub callee_rtp: Option<RebindCandidate>,
    pub callee_rtcp: Option<RebindCandidate>,
}

/// What becomes of the candidate of a slot when a packet from `source` is observed,
/// and whether the source is to be believed from now on.
pub open spec fn candidate_after(
    slot: RemoteEndpointSlot,
    candidate: Option<RebindCandidate>,
    source: Endpoint,
    believed: Option<Endpoint>,
) -> (Option<RebindCandidate>, bool) {
    if believed == Some(source) {
        (None, false)
    } else {
        let before: u8 = match candidate {
            Some(known) => if known.source == source {
                known.packets
            } else {
                0
            },
            None => 0,
        };
        let packets: u8 = if before < 255 {
            (before + 1) as u8
        } else {
            255
        };
        if packets >= slot.needed() {
            (None, true)
        } else {
            (Some(RebindCandidate { source, packets }), false)
        }
    }
}

/// A source is believed only after as many packets in a row as its slot needs: with
/// fewer it stays a candidate, and a packet from elsewhere starts the count again.
pub proof fn lemma_rebind_needs_packets_in_a_row(
    slot: RemoteEndpointSlot,
    candidate: RebindCandidate,
    source: Endpoint,
    believed: Option<Endpoint>,
)
    requires
        believed != Some(source),
    ensures
        candidate_after(slot, Some(candidate), source, believed).1 ==> slot.needed() == 1 || (
        candidate.source == source && candidate.packets + 1 >= slot.needed()),
        candidate.source != source ==> candidate_after(slot, Some(candidate), source, believed)
            == candidate_after(slot, None, source, believed),
{
}

impl RebindMonitor {
    pub open spec fn at(self, slot: RemoteEndpointSlot) -> Option<RebindCandidate> {
        match slot {
            RemoteEndpointSlot::CallerRtp => self.caller_rtp,
            RemoteEndpointSlot::CallerRtcp => self.caller_rtcp,
            RemoteEndpointSlot::CalleeRtp => self.callee_rtp,
            RemoteEndpointSlot::CalleeRtcp => self.callee_rtcp,
        }
    }

    pub fn new() -> (monitor: Self)
        ensures
            forall|slot: RemoteEndpointSlot| (#[trigger] monitor.at(slot)) is None,
    {
        RebindMonitor { caller_rtp: None, caller_rtcp: None, callee_rtp: None, callee_rtcp: None }
    }

    /// Takes a packet into account. Says whether its source is to be believed.
    pub fn observe(&mut self, slot: RemoteEndpointSlot, source: Endpoint, believed: Option<Endpoint>) -> (confirmed:
        bool)
        ensures
            (final(self).at(slot), confirmed) == candidate_after(
                slot,
                old(self).at(slot),
                source,
                believed,
            ),
            forall|other: RemoteEndpointSlot|
                other != slot ==> #[trigger] final(self).at(other) == old(self).at(other),
    {
        let candidate = match slot {
            RemoteEndpointSlot::CallerRtp => self.caller_rtp,
            RemoteEndpointSlot::CallerRtcp => self.caller_rtcp,
            RemoteEndpointSlot::CalleeRtp => self.callee_rtp,
            RemoteEndpointSlot::CalleeRtcp => self.callee_rtcp,
        };
        let known = match believed {
            Some(endpoint) => endpoint == source,
            None => false,
        };
        let mut confirmed = false;
        let mut next: Option<RebindCandidate> = None;
        if !known {
            let before: u8 = match candidate {
                Some(seen) => if seen.source == source {
                    seen.packets
                } else {
                    0
                },
                None => 0,
            };
            let packets: u8 = before.saturating_add(1);
            if packets >= slot.confirmation_packets() {
                confirmed = true;
            } else {
                next = Some(RebindCandidate { source, packets });
            }
        }
        match slot {
            RemoteEndpointSlot::CallerRtp => {
                self.caller_rtp = next;
            },
            RemoteEndpointSlot::CallerRtcp => {
                self.caller_rtcp = next;
            },
            RemoteEndpointSlot::CalleeRtp => {
                self.callee_rtp = next;
            },
            RemoteEndpointSlot::CalleeRtcp => {
                self.callee_rtcp = next;
            },
        }
        confirmed
    }
}

impl IpAddress {
    /// Whether an address stands for none in particular.
    pub open spec fn unspecified(self) -> bool {
        self == IpAddress::V4(0, 0, 0, 0) || self == IpAddress::V6(0, 0)
    }

    pub fn is_unspecified(self) -> (unspecified: bool)
        ensures
            unspecified == self.unspecified(),
    {
        match self {
            IpAddress::V4(a, b, c, d) => a == 0 && b == 0 && c == 0 && d == 0,
            IpAddress::V6(high, low) => high == 0 && low == 0,
        }
    }
}

/// Why there is no address to advertise.
#[derive(Debug, Clone, Copy, PartialEq, Eq, Structural)]
pub enum AdvertiseFault {
    SettingUnreadable,
    SettingUnspecified,
    ProbeUnspecified,
}

impl AdvertiseFault {
    pub fn text(self) -> (text: String)
        ensures
            text@ == (match self {
                AdvertiseFault::SettingUnreadable => "parse VOIPSWITCH_MEDIA_IP"@,
                AdvertiseFault::SettingUnspecified => {
                    "VOIPSWITCH_MEDIA_IP cannot be an unspecified address"@
                },
                AdvertiseFault::ProbeUnspecified => {
                    "media route probe selected an unspecified address"@
                },
            }),
    {
        match self {
            AdvertiseFault::SettingUnreadable => "parse VOIPSWITCH_MEDIA_IP".to_owned(),
            AdvertiseFault::SettingUnspecified => {
                "VOIPSWITCH_MEDIA_IP cannot be an unspecified address".to_owned()
            },
            AdvertiseFault::ProbeUnspecified => {
                "media route probe selected an unspecified address".to_owned()
            },
        }
    }
}

/// The address that is set to be advertised, if one is. A setting that is no address
/// comes as `Some(None)`. Without a setting the route to the other side is probed.
pub fn configured_address(setting: Option<Option<IpAddress>>) -> (address: Result<
    Option<IpAddress>,
    AdvertiseFault,
>)
    ensures
        address == (match setting {
            None => Ok::<Option<IpAddress>, AdvertiseFault>(None),
            Some(None) => Err(AdvertiseFault::SettingUnreadable),
            Some(Some(ip)) => if ip.unspecified() {
                Err(AdvertiseFault::SettingUnspecified)
            } else {
                Ok(Some(ip))
            },
        }),
{
    match setting {
        None => Ok(None),
        Some(None) => Err(AdvertiseFault::SettingUnreadable),
        Some(Some(ip)) => if ip.is_unspecified() {
            Err(AdvertiseFault::SettingUnspecified)
        } else {
            Ok(Some(ip))
        },
    }
}

/// The address that the probe of a route found.
pub fn probed_address(ip: IpAddress) -> (address: Result<IpAddress, AdvertiseFault>)
    ensures
        address == (if ip.unspecified() {
            Err::<IpAddress, AdvertiseFault>(AdvertiseFault::ProbeUnspecified)
        } else {
            Ok::<IpAddress, AdvertiseFault>(ip)
        }),
{
    if ip.is_unspecified() {
        Err(AdvertiseFault::ProbeUnspecified)
    } else {
        Ok(ip)
    }
}

} // verus!
