use voipswitchd::call::dtmf::DtmfSourceGeneration;
use voipswitchd::capability::{
    demotion_failure, AcquirePlan, DtmfCapabilities, DtmfCapabilityLeaseRequest, ReleasePlan,
};
use voipswitchd::dtmf::{
    DtmfCapability, DtmfEventSet, DtmfMediaMode, ParserObservation, Rfc4733DigitCompleted,
    Rfc4733Parser,
};
use voipswitchd::fast_path_runtime::{
    FastPathFallbackReason, FastPathRuntimeState, RebindStep,
    FAST_PATH_REDIRECT_ERROR_THRESHOLD,
};
use voipswitchd::fastpath::{
    add_flow_stats, controller_error, default_interface, fast_path_interface,
    fast_path_unavailable, fast_path_wanted, flow_key, removal_result, total_stats,
    FastPathBridgeSpec, FastPathError, FastPathFlowSpec, FastPathMediaKind, FastPathStats,
    FastPathTable, FlowAction, InstalledFlow, Ipv4Endpoint, MediaFlowDirection,
};
use voipswitchd::media::{
    configured_address, fast_path_flows, observation_direction, observed_digit, probed_address,
    relay_packet, relay_plan, route_target, tts_packet, valid_media_packet, AdvertiseFault,
    DtmfObservationStats, DtmfRelayDirection, DtmfSessionBindings, Endpoint, FastPathLegEndpoints,
    IpAddress, MediaBridge, MediaStatsSnapshot, ParsedAudio, RebindMonitor, RelayCounters,
    RelayDirection, RelayEndpoint, RelayPorts, RelaySocket, RemoteEndpointSlot,
    DTMF_OBSERVATION_QUEUE_CAPACITY,
};
use voipswitchd::recording::{parse_rtp, RecordingSide};

const LOOPBACK: IpAddress = IpAddress::V4(127, 0, 0, 1);
const PORTS: RelayPorts = RelayPorts {
    caller_rtp: 20_000,
    caller_rtcp: 20_001,
    callee_rtp: 21_000,
    callee_rtcp: 21_001,
};
const NOW: u64 = 1_000_000_000;

fn at(port: u16) -> Endpoint {
    Endpoint { ip: LOOPBACK, port }
}

fn audio_sdp(rtp_port: u16, rtcp_port: u16) -> ParsedAudio {
    ParsedAudio {
        remote_rtp: at(rtp_port),
        remote_rtcp: Some(at(rtcp_port)),
        telephone_event: None,
    }
}

fn dtmf_audio_sdp(rtp_port: u16, rtcp_port: u16) -> ParsedAudio {
    ParsedAudio {
        telephone_event: Some(DtmfCapability {
            payload_type: 101,
            clock_rate: 8_000,
            events: DtmfEventSet { mask: 0xffff },
            detectable: true,
        }),
        ..audio_sdp(rtp_port, rtcp_port)
    }
}

fn rfc4733_packet(sequence: u16, timestamp: u32, duration: u16, ended: bool) -> Vec<u8> {
    let mut packet = vec![0_u8; 16];
    packet[0] = 0x80;
    packet[1] = 101;
    packet[2..4].copy_from_slice(&sequence.to_be_bytes());
    packet[4..8].copy_from_slice(&timestamp.to_be_bytes());
    packet[8..12].copy_from_slice(&7_u32.to_be_bytes());
    packet[12] = 5;
    packet[13] = if ended { 0x80 } else { 0 };
    packet[14..16].copy_from_slice(&duration.to_be_bytes());
    packet
}

fn dtmf_lease(
    lease_id: &str,
    owner: &str,
    source_session_id: &str,
    mode: DtmfMediaMode,
    requested_generation: u64,
) -> DtmfCapabilityLeaseRequest {
    DtmfCapabilityLeaseRequest {
        lease_id: lease_id.to_string(),
        owner: owner.to_string(),
        source_session_id: source_session_id.to_string(),
        mode,
        requested_generation,
    }
}

/// A controller of the fast path that only keeps count.
#[derive(Default)]
struct Controller {
    stats: FastPathStats,
    active: Option<u64>,
    promotions: u64,
    demotions: u64,
    fail_demotion: bool,
}

impl Controller {
    fn promote(&mut self, generation: u64) {
        self.promotions += 1;
        self.active = Some(generation);
    }

    fn demote(&mut self) -> Result<FastPathStats, FastPathError> {
        if self.fail_demotion {
            return Err(controller_error("demote_failed", "no answer"));
        }
        self.demotions += 1;
        self.active = None;
        Ok(self.stats)
    }
}

struct Bridge {
    media: MediaBridge,
    capabilities: DtmfCapabilities,
    bindings: Option<DtmfSessionBindings>,
    runtime: FastPathRuntimeState,
    controller: Controller,
    caller_parser: Option<Rfc4733Parser>,
    callee_parser: Option<Rfc4733Parser>,
}

impl Bridge {
    fn allocate(offer: &ParsedAudio) -> (Self, RelayEndpoint) {
        let (media, relay) = MediaBridge::allocate(offer, LOOPBACK, LOOPBACK, PORTS);
        let caller_parser = Some(Rfc4733Parser::new(media.caller_dtmf));
        let callee_parser = Some(Rfc4733Parser::new(media.callee_dtmf));
        let bridge = Bridge {
            media,
            capabilities: DtmfCapabilities::new(),
            bindings: Some(DtmfSessionBindings {
                domain_id: "domain-test".to_string(),
                call_id: "call-test".to_string(),
                caller_session_id: "caller-test".to_string(),
                callee_session_id: "callee-test".to_string(),
            }),
            runtime: FastPathRuntimeState::new(),
            controller: Controller::default(),
            caller_parser,
            callee_parser,
        };
        (bridge, relay)
    }

    fn prepare_caller_sdp(&mut self, answer: &ParsedAudio, generation: u64) {
        self.media.prepare_caller_sdp(answer, generation);
        self.apply_policy();
    }

    fn apply_policy(&mut self) {
        if let Some(parser) = &mut self.caller_parser {
            parser.update_config(self.media.caller_dtmf);
        }
        if let Some(parser) = &mut self.callee_parser {
            parser.update_config(self.media.callee_dtmf);
        }
    }

    fn acquire(&mut self, request: DtmfCapabilityLeaseRequest) -> Result<u64, String> {
        let plan = self
            .capabilities
            .plan_acquire(
                &self.bindings,
                false,
                &self.media.caller_dtmf,
                &self.media.callee_dtmf,
                &request,
            )
            .map_err(|error| error.text())?;
        match plan {
            AcquirePlan::AlreadyReady(generation) => Ok(generation),
            AcquirePlan::Install(direction) => {
                let active = self
                    .runtime
                    .block_for_userspace_capability()
                    .map_err(|error| demotion_failure(&error))?;
                if active.is_some() {
                    let reply = self.controller.demote();
                    self.runtime
                        .note_capability_demotion(reply)
                        .map_err(|error| demotion_failure(&error))?;
                }
                let config = match direction {
                    DtmfRelayDirection::CallerToCallee => &mut self.media.caller_dtmf,
                    DtmfRelayDirection::CalleeToCaller => &mut self.media.callee_dtmf,
                };
                let generation = self.capabilities.install(request, direction, config);
                self.apply_policy();
                Ok(generation)
            }
        }
    }

    fn release(&mut self, lease_id: &str) -> (Option<bool>, u64) {
        let plan = self
            .capabilities
            .begin_release(lease_id, &self.media.caller_dtmf, &self.media.callee_dtmf)
            .unwrap();
        match plan {
            ReleasePlan::AlreadyReleased(generation) => (None, generation),
            ReleasePlan::Settle { direction, drain } => {
                let config = match direction {
                    DtmfRelayDirection::CallerToCallee => &mut self.media.caller_dtmf,
                    DtmfRelayDirection::CalleeToCaller => &mut self.media.callee_dtmf,
                };
                let generation = self.capabilities.finish_release(lease_id, direction, config);
                self.apply_policy();
                (Some(drain), generation)
            }
        }
    }

    fn try_promote(&mut self, bridge_id: &str, available: bool) {
        let has_flows = self.media.current_flows().is_some();
        if let Some(generation) = self.runtime.begin_promotion(bridge_id, available, has_flows) {
            self.controller.promote(generation);
            self.runtime.note_promotion(generation, true);
        }
    }

    fn from_caller(&mut self, packet: &[u8], source: Endpoint) -> (Option<Endpoint>, Vec<ParserObservation>) {
        let decision = relay_packet(
            RelayDirection::CallerToCalleeRtp,
            &mut self.caller_parser,
            packet,
            source,
            self.media.remotes.caller_rtp,
            self.media.remotes.callee_rtp,
            NOW,
        );
        (decision.forward_to, decision.observations)
    }

    fn from_callee(&mut self, packet: &[u8], source: Endpoint) -> (Option<Endpoint>, Vec<ParserObservation>) {
        let decision = relay_packet(
            RelayDirection::CalleeToCallerRtp,
            &mut self.callee_parser,
            packet,
            source,
            self.media.remotes.callee_rtp,
            self.media.remotes.caller_rtp,
            NOW,
        );
        (decision.forward_to, decision.observations)
    }
}

fn completed(observations: &[ParserObservation]) -> Vec<Rfc4733DigitCompleted> {
    observations
        .iter()
        .filter_map(|observation| match observation {
            ParserObservation::Completed(value) => Some(*value),
            ParserObservation::Invalid => None,
        })
        .collect()
}

#[test]
fn relay_sends_from_the_socket_advertised_to_the_target_leg() {
    let plan = relay_plan(RelayDirection::CallerToCalleeRtp);
    assert_eq!(plan.receive, RelaySocket::CallerRtp);
    assert_eq!(plan.send, RelaySocket::CalleeRtp);
    assert_eq!(plan.source, RemoteEndpointSlot::CallerRtp);
    assert_eq!(plan.target, RemoteEndpointSlot::CalleeRtp);
    assert_eq!(plan.recording, Some(RecordingSide::Caller));
    let decision = relay_packet(
        plan.direction,
        &mut None,
        b"rtp",
        at(4_000),
        Some(at(4_000)),
        Some(at(5_000)),
        NOW,
    );
    assert_eq!(decision.forward_to, Some(at(5_000)));
}

#[test]
fn relay_observes_rfc4733_without_changing_forwarded_packets() {
    let (mut bridge, _) = Bridge::allocate(&dtmf_audio_sdp(4_000, 4_001));
    bridge.prepare_caller_sdp(&dtmf_audio_sdp(5_000, 5_001), 2);
    let ready = bridge
        .acquire(dtmf_lease(
            "observe-caller",
            "test-observer",
            "caller-test",
            DtmfMediaMode::Observe,
            2,
        ))
        .unwrap();
    assert_eq!(ready, 3);

    let mut stats = DtmfObservationStats::default();
    let unconfirmed = rfc4733_packet(0, 41, 80, true);
    let (target, observations) = bridge.from_caller(&unconfirmed, at(4_900));
    assert_eq!(target, Some(at(5_000)));
    assert!(observations.is_empty());
    assert_eq!(stats.completed, 0);

    let mut digits = Vec::new();
    for packet in [
        rfc4733_packet(1, 42, 80, false),
        rfc4733_packet(2, 42, 160, false),
        rfc4733_packet(3, 42, 240, true),
    ] {
        let (target, observations) = bridge.from_caller(&packet, at(4_000));
        assert_eq!(target, Some(at(5_000)));
        for observation in &observations {
            stats.count(observation);
        }
        digits.extend(completed(&observations));
    }
    assert_eq!(digits.len(), 1);
    let event = observed_digit(
        bridge.bindings.as_ref().unwrap(),
        observation_direction(RelayDirection::CallerToCalleeRtp).unwrap(),
        &digits[0],
        7,
    );
    assert_eq!(event.call_id, "call-test");
    assert_eq!(event.source_session_id, "caller-test");
    assert_eq!(event.source_generation, DtmfSourceGeneration::Media(3));
    assert!(event.identity_is_consistent());

    bridge.bindings.as_mut().unwrap().callee_session_id = "callee-attempt-2".to_string();
    bridge
        .acquire(dtmf_lease(
            "observe-callee",
            "test-observer",
            "callee-attempt-2",
            DtmfMediaMode::Observe,
            2,
        ))
        .unwrap();
    let (target, observations) = bridge.from_callee(&rfc4733_packet(4, 84, 320, true), at(5_000));
    assert_eq!(target, Some(at(4_000)));
    for observation in &observations {
        stats.count(observation);
    }
    let event = observed_digit(
        bridge.bindings.as_ref().unwrap(),
        DtmfRelayDirection::CalleeToCaller,
        &completed(&observations)[0],
        8,
    );
    assert_eq!(event.source_session_id, "callee-attempt-2");
    assert_eq!(event.source_generation, DtmfSourceGeneration::Media(3));

    assert_eq!(stats.completed, 2);
    assert_eq!(stats.incomplete, 0);
    assert_eq!(stats.invalid, 0);
    assert_eq!(stats.delivery_fault, 0);
}

#[test]
fn collect_lease_suppresses_only_the_selected_source_telephone_event() {
    let (mut bridge, _) = Bridge::allocate(&dtmf_audio_sdp(4_000, 4_001));
    bridge.prepare_caller_sdp(&dtmf_audio_sdp(5_000, 5_001), 1);

    let request = dtmf_lease(
        "collect-caller",
        "test-collector",
        "caller-test",
        DtmfMediaMode::Collect,
        1,
    );
    assert_eq!(bridge.acquire(request.clone()).unwrap(), 2);
    assert_eq!(bridge.acquire(request).unwrap(), 2);
    let conflict = bridge
        .acquire(dtmf_lease(
            "collect-caller-2",
            "other-collector",
            "caller-test",
            DtmfMediaMode::Collect,
            2,
        ))
        .unwrap_err();
    assert!(conflict.contains("dtmf_collector_conflict"));

    let mut digits = Vec::new();
    for packet in [
        rfc4733_packet(1, 42, 80, false),
        rfc4733_packet(2, 42, 160, false),
        rfc4733_packet(3, 42, 240, true),
    ] {
        let (target, observations) = bridge.from_caller(&packet, at(4_000));
        assert_eq!(target, None);
        digits.extend(completed(&observations));
    }
    assert_eq!(digits.len(), 1);
    assert_eq!(digits[0].generation, 2);
    let (target, _) = bridge.from_callee(&rfc4733_packet(1, 42, 80, false), at(5_000));
    assert_eq!(target, Some(at(4_000)));

    for packet in [
        rfc4733_packet(4, 42, 240, true),
        rfc4733_packet(5, 42, 240, true),
    ] {
        let (target, observations) = bridge.from_caller(&packet, at(4_000));
        assert_eq!(target, None);
        assert!(observations.is_empty());
    }
    assert_eq!(bridge.release("collect-caller"), (Some(true), 3));
    assert_eq!(bridge.release("collect-caller"), (None, 3));
    let (target, observations) = bridge.from_caller(&rfc4733_packet(6, 84, 240, true), at(4_000));
    assert_eq!(target, Some(at(5_000)));
    assert!(observations.is_empty());
}

#[test]
fn capability_ready_waits_for_fast_path_demotion_and_blocks_repromotion() {
    let (mut bridge, _) = Bridge::allocate(&dtmf_audio_sdp(30_000, 30_001));
    bridge.prepare_caller_sdp(&dtmf_audio_sdp(31_000, 31_001), 1);
    bridge.try_promote("call-capability", true);
    assert_eq!(bridge.controller.promotions, 1);

    let ready = bridge
        .acquire(dtmf_lease(
            "observe-caller",
            "test-observer",
            "caller-test",
            DtmfMediaMode::Observe,
            1,
        ))
        .unwrap();
    assert_eq!(ready, 2);
    assert_eq!(bridge.controller.demotions, 1);
    assert!(bridge.controller.active.is_none());

    let second_ready = bridge
        .acquire(dtmf_lease(
            "observe-caller-2",
            "test-observer-2",
            "caller-test",
            DtmfMediaMode::Observe,
            1,
        ))
        .unwrap();
    assert_eq!(second_ready, 2);
    assert_eq!(bridge.controller.demotions, 1);

    bridge.release("observe-caller");
    assert_eq!(bridge.media.caller_dtmf.mode, DtmfMediaMode::Observe);
    bridge.release("observe-caller-2");
    assert_eq!(bridge.media.caller_dtmf.mode, DtmfMediaMode::Transparent);
    bridge.try_promote("call-capability", true);
    assert_eq!(bridge.controller.promotions, 1);
}

#[test]
fn demotion_failure_does_not_install_dtmf_policy_or_report_ready() {
    let (mut bridge, _) = Bridge::allocate(&dtmf_audio_sdp(30_000, 30_001));
    bridge.prepare_caller_sdp(&dtmf_audio_sdp(31_000, 31_001), 1);
    bridge.try_promote("call-capability-fail", true);
    bridge.controller.fail_demotion = true;

    let error = bridge
        .acquire(dtmf_lease(
            "observe-caller",
            "test-observer",
            "caller-test",
            DtmfMediaMode::Observe,
            1,
        ))
        .unwrap_err();
    assert!(error.contains("capability_demotion_failed"));
    assert_eq!(bridge.media.caller_dtmf.mode, DtmfMediaMode::Transparent);
    assert_eq!(bridge.media.caller_dtmf.generation, 1);
    assert!(bridge.controller.active.is_some());
}

#[test]
fn lease_needs_a_current_session_and_a_negotiated_event() {
    let (mut bridge, _) = Bridge::allocate(&audio_sdp(30_000, 30_001));
    bridge.prepare_caller_sdp(&audio_sdp(31_000, 31_001), 1);
    let observe = |session: &str, generation: u64| {
        dtmf_lease("lease", "owner", session, DtmfMediaMode::Observe, generation)
    };
    for (request, code) in [
        (observe("stranger", 1), "stale"),
        (observe("caller-test", 9), "stale"),
        (observe("caller-test", 1), "not_negotiated"),
    ] {
        assert!(bridge.acquire(request).unwrap_err().contains(code));
    }
}

#[test]
fn dtmf_observation_queue_is_bounded_and_non_blocking() {
    assert_eq!(DTMF_OBSERVATION_QUEUE_CAPACITY, 32);
    let (sender, _receiver) = tokio::sync::mpsc::channel(DTMF_OBSERVATION_QUEUE_CAPACITY);
    let observation = (DtmfRelayDirection::CallerToCallee, ParserObservation::Invalid);
    for _ in 0..DTMF_OBSERVATION_QUEUE_CAPACITY {
        sender.try_send(observation).unwrap();
    }
    assert!(matches!(
        sender.try_send(observation),
        Err(tokio::sync::mpsc::error::TrySendError::Full(_))
    ));
    let mut stats = DtmfObservationStats::default();
    stats.count_delivery_fault();
    assert_eq!(stats.delivery_fault, 1);
}

#[test]
fn callee_attempt_reuses_relay_ports_and_clears_previous_remote() {
    let (mut bridge, first) = Bridge::allocate(&audio_sdp(30_000, 30_001));

    bridge.prepare_caller_sdp(&audio_sdp(31_000, 31_001), 1);
    assert_eq!(bridge.media.remotes.callee_rtp, Some(at(31_000)));

    let second = bridge
        .media
        .prepare_callee_sdp(&audio_sdp(30_000, 30_001), LOOPBACK, 2);

    assert_eq!(second.rtp.port, first.rtp.port);
    assert_eq!(second.rtcp.port, first.rtcp.port);
    assert_eq!(bridge.media.remotes.callee_rtp, None);
    assert_eq!(bridge.media.remotes.callee_rtcp, None);
}

fn v4(a: u8, b: u8, c: u8, d: u8, port: u16) -> Ipv4Endpoint {
    Ipv4Endpoint { a, b, c, d, port }
}

#[test]
fn fast_path_builds_independent_bidirectional_rtp_and_rtcp_flows() {
    let caller = FastPathLegEndpoints {
        local_rtp: v4(192, 0, 2, 10, 20_000),
        remote_rtp: v4(198, 51, 100, 10, 30_000),
        local_rtcp: v4(192, 0, 2, 10, 20_001),
        remote_rtcp: v4(198, 51, 100, 10, 30_001),
    };
    let callee = FastPathLegEndpoints {
        local_rtp: v4(192, 0, 2, 20, 21_000),
        remote_rtp: v4(198, 51, 100, 20, 31_000),
        local_rtcp: v4(192, 0, 2, 20, 21_001),
        remote_rtcp: v4(198, 51, 100, 20, 31_001),
    };

    let flows = fast_path_flows(caller, callee);

    assert_eq!(flows.len(), 4);
    assert_eq!(
        flows[0],
        FastPathFlowSpec {
            media_kind: FastPathMediaKind::Rtp,
            direction: MediaFlowDirection::CallerToCallee,
            local: caller.local_rtp,
            remote: caller.remote_rtp,
            rewritten_source: callee.local_rtp,
            rewritten_destination: callee.remote_rtp,
        }
    );
    assert_eq!(
        flows[3],
        FastPathFlowSpec {
            media_kind: FastPathMediaKind::Rtcp,
            direction: MediaFlowDirection::CalleeToCaller,
            local: callee.local_rtcp,
            remote: callee.remote_rtcp,
            rewritten_source: caller.local_rtcp,
            rewritten_destination: caller.remote_rtcp,
        }
    );
}

#[test]
fn rebind_confirmation_and_packet_validation_are_media_specific() {
    assert_eq!(RemoteEndpointSlot::CallerRtp.confirmation_packets(), 3);
    assert_eq!(RemoteEndpointSlot::CalleeRtcp.confirmation_packets(), 1);

    let mut rtp = [0_u8; 12];
    rtp[0] = 0x80;
    assert!(valid_media_packet(RelayDirection::CallerToCalleeRtp, &rtp));
    assert!(!valid_media_packet(
        RelayDirection::CallerToCalleeRtp,
        &[0x80; 4]
    ));

    let rtcp = [0x80, 201, 0, 1, 0, 0, 0, 1];
    assert!(valid_media_packet(
        RelayDirection::CalleeToCallerRtcp,
        &rtcp
    ));
    assert!(!valid_media_packet(
        RelayDirection::CalleeToCallerRtcp,
        &[0x80, 100, 0, 1]
    ));
}

#[test]
fn rebind_needs_packets_in_a_row() {
    let mut monitor = RebindMonitor::new();
    let slot = RemoteEndpointSlot::CallerRtp;
    let believed = Some(at(4_000));
    assert!(!monitor.observe(slot, at(4_900), believed));
    assert!(!monitor.observe(slot, at(4_900), believed));
    assert!(!monitor.observe(slot, at(4_901), believed));
    assert!(!monitor.observe(slot, at(4_900), believed));
    assert!(!monitor.observe(slot, at(4_900), believed));
    assert!(monitor.observe(slot, at(4_900), believed));
    assert!(monitor.observe(RemoteEndpointSlot::CalleeRtcp, at(1), None));
}

#[test]
fn redirect_error_threshold_demotes_and_blocks_repromotion() {
    let (mut bridge, _) = Bridge::allocate(&audio_sdp(30_000, 30_001));
    bridge.prepare_caller_sdp(&audio_sdp(31_000, 31_001), 1);
    bridge.try_promote("call-health", true);
    assert_eq!(bridge.controller.promotions, 1);

    bridge.controller.stats.caller_to_callee_redirect_errors = FAST_PATH_REDIRECT_ERROR_THRESHOLD;
    let generation = bridge.runtime.health_generation().unwrap();
    let verdict = FastPathRuntimeState::health_verdict(&Ok(bridge.controller.stats));
    assert_eq!(verdict, Some(FastPathFallbackReason::RedirectErrors));
    let reply = bridge.controller.demote();
    bridge.runtime.demote_and_block(generation, reply);

    assert_eq!(bridge.controller.demotions, 1);
    bridge.try_promote("call-health", true);
    assert_eq!(bridge.controller.promotions, 1);

    assert_eq!(bridge.runtime.stop(), None);
    let history = bridge.runtime.forwarding_history;
    assert!(history.caller_to_callee.promoted && history.caller_to_callee.demoted);
    assert!(history.callee_to_caller.promoted && history.callee_to_caller.demoted);
}

#[test]
fn healthy_fast_path_stays() {
    let healthy = FastPathStats {
        caller_to_callee_redirect_errors: FAST_PATH_REDIRECT_ERROR_THRESHOLD - 1,
        ..FastPathStats::default()
    };
    assert_eq!(FastPathRuntimeState::health_verdict(&Ok(healthy)), None);
    assert_eq!(
        FastPathRuntimeState::health_verdict(&Err(fast_path_unavailable())),
        Some(FastPathFallbackReason::StatsSnapshotFailed)
    );
}

#[test]
fn rebound_bridge_is_promoted_again() {
    let mut state = FastPathRuntimeState::new();
    let generation = state.begin_promotion("call-1", true, true).unwrap();
    state.note_promotion(generation, true);
    assert_eq!(state.begin_rebind(), RebindStep::Demote(generation));
    assert!(state.note_rebind_demotion(
        MediaFlowDirection::CallerToCallee,
        Ok(FastPathStats::default())
    ));
    let next = state.repromotion(true).unwrap();
    assert!(next > generation);
}

#[test]
fn flow_key_preserves_network_order_bytes() {
    let key = flow_key(2, v4(192, 0, 2, 10, 4_000), v4(198, 51, 100, 20, 5_000));
    assert_eq!(key.local_ip.to_ne_bytes(), [192, 0, 2, 10]);
    assert_eq!(key.remote_ip.to_ne_bytes(), [198, 51, 100, 20]);
    assert_eq!(key.local_port.to_ne_bytes(), 4000_u16.to_be_bytes());
    assert_eq!(key.remote_port.to_ne_bytes(), 5000_u16.to_be_bytes());
}

fn counted_action() -> FlowAction {
    FlowAction {
        egress_ifindex: 2,
        rewritten_src_ip: 0,
        rewritten_dst_ip: 0,
        rewritten_src_port: 0,
        rewritten_dst_port: 0,
        direction: 1,
        generation: 1,
        packets: 3,
        bytes: 240,
        redirect_errors: 1,
    }
}

#[test]
fn flow_stats_keep_rtp_and_rtcp_separate() {
    let mut stats = FastPathStats::default();
    let key = flow_key(2, v4(192, 0, 2, 10, 4_000), v4(198, 51, 100, 20, 5_000));
    let action = counted_action();

    add_flow_stats(
        &mut stats,
        InstalledFlow {
            key,
            media_kind: FastPathMediaKind::Rtp,
            direction: MediaFlowDirection::CallerToCallee,
        },
        action,
    );
    add_flow_stats(
        &mut stats,
        InstalledFlow {
            key,
            media_kind: FastPathMediaKind::Rtcp,
            direction: MediaFlowDirection::CallerToCallee,
        },
        action,
    );

    assert_eq!(stats.caller_to_callee_packets, 3);
    assert_eq!(stats.caller_to_callee_rtcp_packets, 3);
    assert_eq!(stats.caller_to_callee_bytes, 240);
    assert_eq!(stats.caller_to_callee_rtcp_bytes, 240);
    assert_eq!(stats.caller_to_callee_redirect_errors, 1);
    assert_eq!(stats.caller_to_callee_rtcp_redirect_errors, 1);
}

#[test]
fn fast_path_table_refuses_what_does_not_fit() {
    let (mut bridge, _) = Bridge::allocate(&audio_sdp(30_000, 30_001));
    bridge.prepare_caller_sdp(&audio_sdp(31_000, 31_001), 1);
    let spec = FastPathBridgeSpec {
        bridge_id: "call-1".to_string(),
        generation: 1,
        flows: bridge.media.current_flows().unwrap(),
    };
    let mut table = FastPathTable::new(2);
    assert_eq!(table.plan_promotion(&spec).unwrap().len(), 4);
    table.note_promotion(&spec);
    assert_eq!(table.plan_promotion(&spec).unwrap_err().code, "bridge_exists");
    assert_eq!(table.snapshot_flows("call-1", 1).unwrap().len(), 4);
    assert_eq!(
        table.take_bridge("call-1", 2).err().unwrap().code,
        "stale_generation"
    );
    let installed = table.take_bridge("call-1", 1).unwrap().unwrap();
    let stats = total_stats(
        &installed.flows,
        &vec![Some(counted_action()), None, None, Some(counted_action())],
    );
    assert_eq!(stats.caller_to_callee_packets, 3);
    assert_eq!(stats.callee_to_caller_rtcp_packets, 3);
    assert!(table.take_bridge("call-1", 1).unwrap().is_none());
    assert!(removal_result(stats, None).is_ok());
    assert!(removal_result(stats, Some("busy".to_string())).is_err());
}

#[test]
fn interface_of_the_default_route_is_used() {
    let routes = "Iface\tDestination\tGateway\tFlags\n\
                  eth1\t0000A8C0\t00000000\t0001\n\
                  eth0\t00000000\t0100A8C0\t0003\n";
    assert_eq!(default_interface(routes).as_deref(), Some("eth0"));
    assert_eq!(
        fast_path_interface(Some("bond0"), routes).as_deref(),
        Some("bond0")
    );
    assert_eq!(fast_path_interface(None, routes).as_deref(), Some("eth0"));
    assert_eq!(fast_path_interface(None, "Iface\n"), None);
}

#[test]
fn fast_path_is_tried_unless_forbidden() {
    assert!(fast_path_wanted(&None));
    assert!(fast_path_wanted(&Some("auto".to_string())));
    assert!(!fast_path_wanted(&Some("UserSpace".to_string())));
    assert_eq!(fast_path_unavailable().code, "fast_path_unavailable");
}

#[test]
fn fast_path_counts_are_added_to_the_relayed_ones() {
    let mut counters = RelayCounters {
        caller_to_callee_packets: 0,
        caller_to_callee_bytes: 0,
        callee_to_caller_packets: 0,
        callee_to_caller_bytes: 0,
        caller_to_callee_rtcp_packets: 0,
        callee_to_caller_rtcp_packets: 0,
    };
    counters.count_packet(RelayDirection::CallerToCalleeRtp, 172);
    counters.count_packet(RelayDirection::CalleeToCallerRtcp, 60);
    let stats: MediaStatsSnapshot = counters.snapshot(DtmfObservationStats::default());
    assert_eq!(stats.caller_to_callee_packets, 1);
    assert_eq!(stats.caller_to_callee_bytes, 172);
    assert_eq!(stats.callee_to_caller_rtcp_packets, 1);
    let sum = stats.with_fast_path(FastPathStats {
        caller_to_callee_packets: 9,
        caller_to_callee_bytes: 28,
        ..FastPathStats::default()
    });
    assert_eq!(sum.caller_to_callee_packets, 10);
    assert_eq!(sum.caller_to_callee_bytes, 200);
}

#[test]
fn speech_packet_reads_back() {
    let packet = tts_packet(&[1, 2, 3], 8, 160, 7, 0x01020304);
    assert_eq!(&packet[..4], &[0x80, 8, 0, 7]);
    let parsed = parse_rtp(&packet).unwrap();
    assert_eq!(parsed.payload_type, 8);
    assert_eq!(parsed.timestamp, 160);
    assert_eq!(parsed.payload, vec![1, 2, 3]);
}

#[test]
fn packets_go_where_the_route_leads() {
    assert_eq!(route_target(Some(at(1)), at(2)), at(1));
    assert_eq!(route_target(None, at(2)), at(2));
}

#[test]
fn advertised_address_is_never_unspecified() {
    let any = IpAddress::V4(0, 0, 0, 0);
    assert_eq!(configured_address(None), Ok(None));
    assert_eq!(
        configured_address(Some(None)),
        Err(AdvertiseFault::SettingUnreadable)
    );
    assert_eq!(
        configured_address(Some(Some(any))).unwrap_err().text(),
        "VOIPSWITCH_MEDIA_IP cannot be an unspecified address"
    );
    assert_eq!(configured_address(Some(Some(LOOPBACK))), Ok(Some(LOOPBACK)));
    assert_eq!(
        probed_address(IpAddress::V6(0, 0)),
        Err(AdvertiseFault::ProbeUnspecified)
    );
    assert_eq!(probed_address(LOOPBACK), Ok(LOOPBACK));
}

#[test]
fn revoked_lease_makes_room_for_another() {
    let (mut bridge, _) = Bridge::allocate(&dtmf_audio_sdp(4_000, 4_001));
    bridge.prepare_caller_sdp(&dtmf_audio_sdp(5_000, 5_001), 1);
    let first = dtmf_lease("first", "a", "caller-test", DtmfMediaMode::Collect, 1);
    assert_eq!(bridge.acquire(first).unwrap(), 2);
    bridge.capabilities.revoke(
        "first",
        DtmfRelayDirection::CallerToCallee,
        &mut bridge.media.caller_dtmf,
    );
    assert_eq!(bridge.media.caller_dtmf.mode, DtmfMediaMode::Transparent);
    let second = dtmf_lease("second", "b", "caller-test", DtmfMediaMode::Collect, 3);
    assert!(bridge.acquire(second).is_ok());
}

#[test]
fn counts_of_removed_rules_are_kept() {
    let mut state = FastPathRuntimeState::new();
    let stats = FastPathStats {
        caller_to_callee_packets: 3,
        ..FastPathStats::default()
    };
    state.note_removal(Ok(stats));
    state.note_removal(Err(fast_path_unavailable()));
    state.note_removal(Ok(stats));
    assert_eq!(state.accumulated_stats.caller_to_callee_packets, 6);
    assert_eq!(state.accumulated_stats.callee_to_caller_packets, 0);
}
