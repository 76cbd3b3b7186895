//! What holds of a media bridge: each leg sends to the socket that its own relay
//! receives on, what comes in on one leg goes out on the other, and each packet
//! is counted once.

use crate::dtmf::{DtmfCapability, DtmfMediaMode, ParserConfig, ParserObservation, ParserState};
use crate::fastpath::{FastPathFlowSpec, FastPathMediaKind, Ipv4Endpoint, MediaFlowDirection};
use crate::media::{
    caller_relay, callee_relay, candidate_after, flows_between, keeps_back, looks_valid,
    parsed_by_relay, relay_for, renegotiated, DtmfObservationStats, DtmfRelayDirection,
    DtmfSessionBindings, Endpoint, FastPathLegEndpoints, IpAddress, MediaBridge, RebindCandidate,
    RelayCounters, RelayDirection, RelayPorts, RelaySocket, RemoteEndpointSlot,
};
use crate::recording::RecordingSide;
use vstd::prelude::*;

verus! {

/// The port of a socket of the bridge.
pub open spec fn port_of(ports: RelayPorts, socket: RelaySocket) -> u16 {
    match socket {
        RelaySocket::CallerRtp => ports.caller_rtp,
        RelaySocket::CallerRtcp => ports.caller_rtcp,
        RelaySocket::CalleeRtp => ports.callee_rtp,
        RelaySocket::CalleeRtcp => ports.callee_rtcp,
    }
}

/// Whether no two sockets share a port.
pub open spec fn all_distinct(ports: RelayPorts) -> bool {
    &&& ports.caller_rtp != ports.caller_rtcp
    &&& ports.caller_rtp != ports.callee_rtp
    &&& ports.caller_rtp != ports.callee_rtcp
    &&& ports.caller_rtcp != ports.callee_rtp
    &&& ports.caller_rtcp != ports.callee_rtcp
    &&& ports.callee_rtp != ports.callee_rtcp
}

/// The ports that a leg is told to send to are those of the sockets on which the
/// relays with that leg as source receive, at the address that is advertised to it.
pub proof fn lemma_leg_is_told_where_its_relay_receives(ip: IpAddress, ports: RelayPorts)
    ensures
        caller_relay(ip, ports).rtp.port == port_of(
            ports,
            relay_for(RelayDirection::CallerToCalleeRtp).receive,
        ),
        caller_relay(ip, ports).rtcp.port == port_of(
            ports,
            relay_for(RelayDirection::CallerToCalleeRtcp).receive,
        ),
        callee_relay(ip, ports).rtp.port == port_of(
            ports,
            relay_for(RelayDirection::CalleeToCallerRtp).receive,
        ),
        callee_relay(ip, ports).rtcp.port == port_of(
            ports,
            relay_for(RelayDirection::CalleeToCallerRtcp).receive,
        ),
        caller_relay(ip, ports).rtp.ip == ip && caller_relay(ip, ports).rtcp.ip == ip,
        callee_relay(ip, ports).rtp.ip == ip && callee_relay(ip, ports).rtcp.ip == ip,
        caller_relay(ip, ports).rtp.port == ports.caller_rtp,
        caller_relay(ip, ports).rtcp.port == ports.caller_rtcp,
        callee_relay(ip, ports).rtp.port == ports.callee_rtp,
        callee_relay(ip, ports).rtcp.port == ports.callee_rtcp,
{
}

/// Where the four ports are distinct, the two legs are told different ports, and
/// each leg different ones for media and for control.
pub proof fn lemma_legs_are_told_different_ports(a: IpAddress, b: IpAddress, ports: RelayPorts)
    requires
        all_distinct(ports),
    ensures
        caller_relay(a, ports).rtp.port != callee_relay(b, ports).rtp.port,
        caller_relay(a, ports).rtp.port != callee_relay(b, ports).rtcp.port,
        caller_relay(a, ports).rtcp.port != callee_relay(b, ports).rtp.port,
        caller_relay(a, ports).rtcp.port != callee_relay(b, ports).rtcp.port,
        caller_relay(a, ports).rtp.port != caller_relay(a, ports).rtcp.port,
        callee_relay(b, ports).rtp.port != callee_relay(b, ports).rtcp.port,
{
}

/// A relay takes what one leg sends and gives it to the other: it receives facing
/// its source and sends facing its target, media to media and control to control.
pub proof fn lemma_relay_crosses_the_bridge()
    ensures
        relay_for(RelayDirection::CallerToCalleeRtp).receive == RelaySocket::CallerRtp,
        relay_for(RelayDirection::CallerToCalleeRtp).send == RelaySocket::CalleeRtp,
        relay_for(RelayDirection::CallerToCalleeRtp).source == RemoteEndpointSlot::CallerRtp,
        relay_for(RelayDirection::CallerToCalleeRtp).target == RemoteEndpointSlot::CalleeRtp,
        relay_for(RelayDirection::CalleeToCallerRtp).receive == RelaySocket::CalleeRtp,
        relay_for(RelayDirection::CalleeToCallerRtp).send == RelaySocket::CallerRtp,
        relay_for(RelayDirection::CalleeToCallerRtp).source == RemoteEndpointSlot::CalleeRtp,
        relay_for(RelayDirection::CalleeToCallerRtp).target == RemoteEndpointSlot::CallerRtp,
        relay_for(RelayDirection::CallerToCalleeRtcp).receive == RelaySocket::CallerRtcp,
        relay_for(RelayDirection::CallerToCalleeRtcp).send == RelaySocket::CalleeRtcp,
        relay_for(RelayDirection::CallerToCalleeRtcp).source == RemoteEndpointSlot::CallerRtcp,
        relay_for(RelayDirection::CallerToCalleeRtcp).target == RemoteEndpointSlot::CalleeRtcp,
        relay_for(RelayDirection::CalleeToCallerRtcp).receive == RelaySocket::CalleeRtcp,
        relay_for(RelayDirection::CalleeToCallerRtcp).send == RelaySocket::CallerRtcp,
        relay_for(RelayDirection::CalleeToCallerRtcp).source == RemoteEndpointSlot::CalleeRtcp,
        relay_for(RelayDirection::CalleeToCallerRtcp).target == RemoteEndpointSlot::CallerRtcp,
{
}

/// What a leg says is recorded on its own side, and only media is recorded or
/// looked through for telephone events.
pub proof fn lemma_each_side_is_recorded_as_itself(direction: RelayDirection)
    ensures
        relay_for(direction).direction == direction,
        relay_for(direction).source == RemoteEndpointSlot::CallerRtp <==> relay_for(
            direction,
        ).recording == Some(RecordingSide::Caller),
        relay_for(direction).source == RemoteEndpointSlot::CalleeRtp <==> relay_for(
            direction,
        ).recording == Some(RecordingSide::Callee),
        relay_for(direction).observes_dtmf <==> (direction == RelayDirection::CallerToCalleeRtp
            || direction == RelayDirection::CalleeToCallerRtp),
        relay_for(direction).recording is Some <==> relay_for(direction).observes_dtmf,
        relay_for(direction).source.flow() == MediaFlowDirection::CallerToCallee <==> (direction
            == RelayDirection::CallerToCalleeRtp || direction
            == RelayDirection::CallerToCalleeRtcp),
{
}

/// A packet adds one to the packets of its own direction, its size to the bytes of
/// that direction where it is media, and nothing to any other count.
pub proof fn lemma_packet_is_counted_where_it_went(
    c: RelayCounters,
    direction: RelayDirection,
    bytes: u64,
)
    requires
        c.caller_to_callee_packets < u64::MAX,
        c.callee_to_caller_packets < u64::MAX,
        c.caller_to_callee_rtcp_packets < u64::MAX,
        c.callee_to_caller_rtcp_packets < u64::MAX,
        c.caller_to_callee_bytes + bytes <= u64::MAX,
        c.callee_to_caller_bytes + bytes <= u64::MAX,
    ensures
        ({
            let n = c.counted(direction, bytes);
            &&& n.caller_to_callee_packets == c.caller_to_callee_packets + (if direction
                == RelayDirection::CallerToCalleeRtp { 1int } else { 0 })
            &&& n.callee_to_caller_packets == c.callee_to_caller_packets + (if direction
                == RelayDirection::CalleeToCallerRtp { 1int } else { 0 })
            &&& n.caller_to_callee_rtcp_packets == c.caller_to_callee_rtcp_packets + (if direction
                == RelayDirection::CallerToCalleeRtcp { 1int } else { 0 })
            &&& n.callee_to_caller_rtcp_packets == c.callee_to_caller_rtcp_packets + (if direction
                == RelayDirection::CalleeToCallerRtcp { 1int } else { 0 })
            &&& n.caller_to_callee_bytes == c.caller_to_callee_bytes + (if direction
                == RelayDirection::CallerToCalleeRtp { bytes as int } else { 0 })
            &&& n.callee_to_caller_bytes == c.callee_to_caller_bytes + (if direction
                == RelayDirection::CalleeToCallerRtp { bytes as int } else { 0 })
        }),
{
}

/// Behind the largest number a count begins at zero again.
pub proof fn lemma_counts_begin_again(c: RelayCounters, bytes: u64)
    ensures
        c.caller_to_callee_packets == u64::MAX ==> c.counted(
            RelayDirection::CallerToCalleeRtp,
            bytes,
        ).caller_to_callee_packets == 0,
        c.callee_to_caller_packets == u64::MAX ==> c.counted(
            RelayDirection::CalleeToCallerRtp,
            bytes,
        ).callee_to_caller_packets == 0,
{
}

/// What is observed of telephone events is counted once: as a digit, as one without
/// its end besides, or as invalid.
pub proof fn lemma_observation_is_counted_once(
    s: DtmfObservationStats,
    observation: ParserObservation,
)
    requires
        s.completed < u64::MAX,
        s.incomplete < u64::MAX,
        s.invalid < u64::MAX,
    ensures
        ({
            let n = s.after(observation);
            &&& n.completed == s.completed + (if observation is Completed { 1int } else { 0 })
            &&& n.invalid == s.invalid + (if observation is Invalid { 1int } else { 0 })
            &&& n.incomplete == s.incomplete + (if observation is Completed
                && observation->Completed_0.incomplete_end { 1int } else { 0 })
            &&& n.delivery_fault == s.delivery_fault
        }),
{
}

/// A packet too short for its kind, or of another version, is none; the version
/// stands in the two highest bits, and control packets have types of their own.
pub proof fn lemma_what_passes_for_media(direction: RelayDirection, packet: Seq<u8>)
    ensures
        looks_valid(direction, packet) ==> packet.len() >= 4 && 128 <= packet[0] <= 191,
        (direction == RelayDirection::CallerToCalleeRtp || direction
            == RelayDirection::CalleeToCallerRtp) ==> (looks_valid(direction, packet) <==> (
        packet.len() >= 12 && 128 <= packet[0] <= 191)),
        (direction == RelayDirection::CallerToCalleeRtcp || direction
            == RelayDirection::CalleeToCallerRtcp) ==> (looks_valid(direction, packet) <==> (
        packet.len() >= 4 && 128 <= packet[0] <= 191 && 192 <= packet[1] <= 223)),
{
}

/// The session that a digit belongs to is that of the leg which sent it.
pub proof fn lemma_digit_belongs_to_its_sender(bindings: DtmfSessionBindings)
    ensures
        bindings.session(DtmfRelayDirection::CallerToCallee) == bindings.caller_session_id,
        bindings.session(DtmfRelayDirection::CalleeToCaller) == bindings.callee_session_id,
{
}

/// A renegotiated parser keeps its mode, works in the new generation, and looks for
/// telephone events exactly where they were negotiated and can be detected.
pub proof fn lemma_renegotiation_keeps_the_mode(
    config: ParserConfig,
    capability: Option<DtmfCapability>,
    generation: u64,
)
    ensures
        renegotiated(config, capability, generation).mode == config.mode,
        renegotiated(config, capability, generation).generation == generation,
        renegotiated(config, capability, generation).capability is Some ==> renegotiated(
            config,
            capability,
            generation,
        ).capability == capability,
        renegotiated(config, capability, generation).capability is Some <==> (capability matches
            Some(value) && value.detectable),
{
}

/// A relay looks at telephone events only from the source that is believed, and
/// keeps a packet back only where it collects and the packet is such an event.
pub proof fn lemma_unbelieved_source_is_not_heard(
    parser: Option<ParserState>,
    packet: Seq<u8>,
    now: u64,
)
    ensures
        parsed_by_relay(parser, false, packet, now).0 == parser,
        parsed_by_relay(parser, false, packet, now).1.len() == 0,
        parsed_by_relay(None, true, packet, now).1.len() == 0,
        keeps_back(parser, packet) ==> (parser matches Some(state) && state.config.mode
            == DtmfMediaMode::Collect && (state.config.capability matches Some(capability)
            && packet.len() >= 2 && packet[1] % 128 == capability.payload_type)),
        (parser matches Some(state) && state.config.mode == DtmfMediaMode::Collect && (
        state.config.capability matches Some(capability) && packet.len() >= 2 && 128 <= packet[0]
            <= 191 && packet[1] % 128 == capability.payload_type)) ==> keeps_back(parser, packet),
{
}

/// The first packet of media from a new source does not move the leg there, nor
/// does the second; the third in a row does. One control packet is enough.
pub proof fn lemma_three_packets_move_the_media(
    slot: RemoteEndpointSlot,
    source: Endpoint,
    believed: Option<Endpoint>,
)
    requires
        believed != Some(source),
    ensures
        slot == RemoteEndpointSlot::CallerRtp || slot == RemoteEndpointSlot::CalleeRtp ==> {
            &&& candidate_after(slot, None, source, believed) == (
                Some(RebindCandidate { source, packets: 1 }),
                false,
            )
            &&& candidate_after(
                slot,
                Some(RebindCandidate { source, packets: 1 }),
                source,
                believed,
            ) == (Some(RebindCandidate { source, packets: 2 }), false)
            &&& candidate_after(
                slot,
                Some(RebindCandidate { source, packets: 2 }),
                source,
                believed,
            ) == (None::<RebindCandidate>, true)
        },
        slot == RemoteEndpointSlot::CallerRtcp || slot == RemoteEndpointSlot::CalleeRtcp
            ==> candidate_after(slot, None, source, believed) == (None::<RebindCandidate>, true),
{
}

/// A packet from the source that is believed forgets every candidate and moves
/// nothing; a packet from a third source starts the count for that one.
pub proof fn lemma_believed_source_forgets_candidates(
    slot: RemoteEndpointSlot,
    candidate: Option<RebindCandidate>,
    source: Endpoint,
    believed: Option<Endpoint>,
)
    ensures
        candidate_after(slot, candidate, source, Some(source)) == (None::<RebindCandidate>, false),
        believed != Some(source) && (slot == RemoteEndpointSlot::CallerRtp || slot
            == RemoteEndpointSlot::CalleeRtp) && (candidate matches Some(known) ==> known.source
            != source) ==> candidate_after(slot, candidate, source, believed) == (
            Some(RebindCandidate { source, packets: 1 }),
            false,
        ),
{
}

/// There are four flows, one for each kind and direction. Each takes what comes
/// from the remote end of one leg to its local end, and sends it from the local end
/// of the other leg to that leg's remote end.
pub proof fn lemma_flows_cross_the_bridge(
    caller: FastPathLegEndpoints,
    callee: FastPathLegEndpoints,
    i: int,
)
    requires
        0 <= i < flows_between(caller, callee).len(),
    ensures
        flows_between(caller, callee).len() == 4,
        ({
            let f = flows_between(caller, callee)[i];
            let (from, to) = if f.direction == MediaFlowDirection::CallerToCallee {
                (caller, callee)
            } else {
                (callee, caller)
            };
            &&& f.media_kind == FastPathMediaKind::Rtp ==> f.local == from.local_rtp && f.remote
                == from.remote_rtp && f.rewritten_source == to.local_rtp
                && f.rewritten_destination == to.remote_rtp
            &&& f.media_kind == FastPathMediaKind::Rtcp ==> f.local == from.local_rtcp && f.remote
                == from.remote_rtcp && f.rewritten_source == to.local_rtcp
                && f.rewritten_destination == to.remote_rtcp
        }),
        forall|j: int|
            0 <= j < 4 && j != i ==> (#[trigger] flows_between(caller, callee)[j]).media_kind
                != flows_between(caller, callee)[i].media_kind || flows_between(
                caller,
                callee,
            )[j].direction != flows_between(caller, callee)[i].direction,
{
}

/// The IPv4 end for an address and a port.
pub open spec fn v4(ip: IpAddress, port: u16) -> Ipv4Endpoint {
    Ipv4Endpoint { a: ip->V4_0, b: ip->V4_1, c: ip->V4_2, d: ip->V4_3, port }
}

/// A bridge has flows exactly where both ends of both legs are known and are IPv4;
/// the flow for a leg's media begins where that leg is told to send and where it is
/// known to send from.
pub proof fn lemma_flows_begin_where_the_legs_send(b: MediaBridge)
    ensures
        b.flows() is Some <==> b.caller_advertise_ip is V4 && b.callee_advertise_ip is V4 && (
        b.remotes.caller_rtp matches Some(r) && r.ip is V4) && (b.remotes.caller_rtcp matches
            Some(r) && r.ip is V4) && (b.remotes.callee_rtp matches Some(r) && r.ip is V4) && (
        b.remotes.callee_rtcp matches Some(r) && r.ip is V4),
        b.flows() matches Some(flows) ==> {
            let caller = caller_relay(b.caller_advertise_ip, b.ports);
            let callee = callee_relay(b.callee_advertise_ip, b.ports);
            let from_caller = b.remotes.caller_rtp->Some_0;
            let from_callee = b.remotes.callee_rtp->Some_0;
            let caller_control = b.remotes.caller_rtcp->Some_0;
            let callee_control = b.remotes.callee_rtcp->Some_0;
            &&& flows.len() == 4
            &&& flows[0] == FastPathFlowSpec {
                media_kind: FastPathMediaKind::Rtp,
                direction: MediaFlowDirection::CallerToCallee,
                local: v4(caller.rtp.ip, caller.rtp.port),
                remote: v4(from_caller.ip, from_caller.port),
                rewritten_source: v4(callee.rtp.ip, callee.rtp.port),
                rewritten_destination: v4(from_callee.ip, from_callee.port),
            }
            &&& flows[1] == FastPathFlowSpec {
                media_kind: FastPathMediaKind::Rtp,
                direction: MediaFlowDirection::CalleeToCaller,
                local: v4(callee.rtp.ip, callee.rtp.port),
                remote: v4(from_callee.ip, from_callee.port),
                rewritten_source: v4(caller.rtp.ip, caller.rtp.port),
                rewritten_destination: v4(from_caller.ip, from_caller.port),
            }
            &&& flows[2] == FastPathFlowSpec {
                media_kind: FastPathMediaKind::Rtcp,
                direction: MediaFlowDirection::CallerToCallee,
                local: v4(caller.rtcp.ip, caller.rtcp.port),
                remote: v4(caller_control.ip, caller_control.port),
                rewritten_source: v4(callee.rtcp.ip, callee.rtcp.port),
                rewritten_destination: v4(callee_control.ip, callee_control.port),
            }
            &&& flows[3] == FastPathFlowSpec {
                media_kind: FastPathMediaKind::Rtcp,
                direction: MediaFlowDirection::CalleeToCaller,
                local: v4(callee.rtcp.ip, callee.rtcp.port),
                remote: v4(callee_control.ip, callee_control.port),
                rewritten_source: v4(caller.rtcp.ip, caller.rtcp.port),
                rewritten_destination: v4(caller_control.ip, caller_control.port),
            }
        },
{
}

/// The addresses that stand for none in particular are the two zeros.
pub proof fn lemma_unspecified_addresses(a: u8, b: u8, c: u8, d: u8, high: u64, low: u64)
    ensures
        IpAddress::V4(a, b, c, d).unspecified() <==> a == 0 && b == 0 && c == 0 && d == 0,
        IpAddress::V6(high, low).unspecified() <==> high == 0 && low == 0,
{
}

} // verus!
