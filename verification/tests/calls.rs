use voipswitchd::call::action::{
    action_command, action_id, action_request_id, call_action_id, insert_identity,
    reject_action_id, ActionIdentity,
};
use voipswitchd::call::action_body::{carried_description, write_action};
use voipswitchd::call::actor::{
    AttemptRegistrationResult, CapabilityReady, ControlMessage, ControlSource, MediaActionResult,
    SessionActor,
};
use voipswitchd::call::admission::{
    after_analysis, after_inbound_match, begin_admission, create_call, new_call_id, plan_call,
    reject_inbound, CreatedCall, CreationFault, EndpointRegistration, InboundRouteMatch, InboundRouteTarget,
    InboundStep, OfferStep, Registrations, RouteDecision, RouteResult,
};
use voipswitchd::call::ai::{
    build_ai_submission, plan_capture, AudioCodec, CapturePlan, AI_CHANNELS, AI_SAMPLE_RATE,
};
use voipswitchd::call::callee::{CalleeSessionActor, NextStep, PeerMessage};
use voipswitchd::call::cdr::{finalize_call, FinalCallSnapshot};
use voipswitchd::call::config_snapshot::{
    recording_spec_from_snapshot, CallConfigSnapshot, CallNumberSnapshot, CallOutcome, CallRuntime,
    RouteSnapshot,
};
use voipswitchd::call::coordinator::{
    retryable_status, ActionBody, ActionKind, ActionLabel, AnswerRuling, CallEffect, CallError,
    CallTimeouts, CallTimerKind, LaneState, MediaRequest, Outbox, PrepareSdpPurpose,
    TopologyAnswers, TopologyChange,
    ATTEMPT_REGISTRATION_CAPACITY, MEDIA_ACTION_QUEUE_CAPACITY,
};
use voipswitchd::call::dtmf::{
    DigitCollectionMode, DigitCollectionResultCode, DigitCollectionSpec, DigitEvent, DigitSet,
    DtmfEventId,
    DtmfSourceGeneration, DtmfTransport,
};
use voipswitchd::call::event::{
    AckResult, ActionDeliveryFailed, CallActionAck, CallActionAckStatus, CallLegEvent,
    InboundInviteOffered, InboundInviteSource, RouteAnalysisFailure,
};
use voipswitchd::call::model::{
    session_id, CallState, HangupCause, LegState, OutboundCandidate, OutboundTarget, SdpBody,
    SessionRef, TransportAddress,
};
use voipswitchd::call::policy::{
    ai_policy_for_candidate, recording_policy_ids_for_candidate, reg_trunk_id, trunk_display_name,
    trunk_route_target, AiPolicyConfig, AiPolicyDirection, DomainRuntimeConfig, ExtensionConfig,
    RecordingDirection, RecordingPolicy, RecordingTargetRef, RecordingTargetType,
    RegisterAccountConfig, TrunkConfig,
};
use voipswitchd::call::registry::LegEventDeduper;
use voipswitchd::call::timer::TimeoutSettings;
use voipswitchd::dtmf::DtmfDigit;
use voipswitchd::media::MediaStatsSnapshot;

const SECOND: u64 = 1_000_000_000;
const NOW: u64 = 1_000 * SECOND;
const NOW_MS: u64 = 1_784_708_165_809;

fn timeouts() -> CallTimeouts {
    CallTimeouts {
        route: SECOND,
        dial: 2 * SECOND,
        ring: 3 * SECOND,
        cleanup: 4 * SECOND,
        route_budget: 50 * SECOND,
        min_attempt_window: SECOND,
    }
}

fn sdp(text: &str) -> SdpBody {
    SdpBody {
        content_type: "application/sdp".to_string(),
        text: text.to_string(),
    }
}

fn trunk(id: u64, name: &str) -> TrunkConfig {
    TrunkConfig {
        id,
        name: name.to_string(),
        server_host: "192.0.2.1".to_string(),
        server_is_address: true,
        server_port: 5060,
        outbound_proxy_host: None,
        proxy_is_address: false,
        outbound_proxy_port: None,
        transport: "udp".to_string(),
        keep_alive_seconds: 60,
        requested_expires_seconds: 300,
        enabled: true,
    }
}

fn extension(id: u64, number: &str) -> ExtensionConfig {
    ExtensionConfig {
        id,
        number: number.to_string(),
        auth_user: number.to_string(),
        password: "secret".to_string(),
        enabled: true,
    }
}

fn domain() -> DomainRuntimeConfig {
    DomainRuntimeConfig {
        domain_id: "domain-a".to_string(),
        name: "a".to_string(),
        realm: "a.example".to_string(),
        enabled: true,
        version: 7,
        extensions: vec![extension(1, "1001"), extension(2, "1002")],
        peer_trunks: vec![trunk(8, "carrier")],
        reg_trunks: vec![trunk(3, "provider")],
        reg_accounts: vec![RegisterAccountConfig {
            id: 7,
            reg_trunk_id: 3,
            auth_name: "account".to_string(),
            auth_pwd: "secret".to_string(),
            enabled: true,
        }],
        recording_policies: Vec::new(),
        ai_policies: Vec::new(),
    }
}

fn offer(origin: Option<InboundInviteSource>) -> InboundInviteOffered {
    InboundInviteOffered {
        domain_id: "domain-a".to_string(),
        adapter_call_leg_id: "leg-1".to_string(),
        caller_number: "1001".to_string(),
        callee_number: "1002".to_string(),
        origin,
        route_target: None,
        sdp_offer: sdp("offer"),
    }
}

fn registrations() -> Registrations {
    Registrations {
        ready: true,
        items: vec![EndpointRegistration {
            domain_id: "domain-a".to_string(),
            endpoint_id: "2".to_string(),
            registered: true,
            route_target: Some(TransportAddress {
                host: "127.0.0.1".to_string(),
                port: 5090,
            }),
        }],
    }
}

fn trunks_route(trunks: &[&str]) -> Result<RouteDecision, RouteAnalysisFailure> {
    Ok(RouteDecision::Matched(RouteResult::Trunk {
        trunks: trunks.iter().map(|name| name.to_string()).collect(),
        route_id: "route-1".to_string(),
        route_name: "out".to_string(),
        transformed_caller: "+1001".to_string(),
        transformed_callee: "+1002".to_string(),
    }))
}

fn created(trunks: &[&str], domain: &DomainRuntimeConfig) -> CreatedCall {
    let event = offer(None);
    let route = after_analysis("domain-a", domain, &registrations(), trunks_route(trunks)).unwrap();
    let snapshot = plan_call(
        &event,
        domain,
        17,
        None,
        route,
        timeouts(),
        "/tmp/recordings".to_string(),
    )
    .unwrap();
    let refusals = vec![None; snapshot.candidates.len()];
    create_call(&event, snapshot, Some(sdp("callee offer")), refusals, 1, NOW_MS, NOW)
        .ok()
        .unwrap()
}

fn outbox() -> Outbox {
    let lane = LaneState {
        room: 100,
        open: true,
    };
    Outbox::new(lane, lane, lane, TopologyAnswers::all_accepted())
}

fn submitted(out: &Outbox) -> Vec<(ActionKind, ActionLabel)> {
    out.effects
        .iter()
        .filter_map(|effect| match effect {
            CallEffect::Submit(action) => Some((action.kind, action.label)),
            _ => None,
        })
        .collect()
}

fn leg_event(actor: &SessionActor, session: SessionRef, seq: u64, status: Option<u16>) -> CallLegEvent {
    CallLegEvent {
        call_id: Some(actor.plan.call_id.clone()),
        session_id: Some(session_id(&actor.plan.call_id, session)),
        adapter_call_leg_id: "leg-callee".to_string(),
        leg_event_seq: seq,
        status_code: status,
        sdp: None,
        reason: None,
    }
}

fn peer(actor: &mut SessionActor, out: &mut Outbox, frame_type: &str, event: CallLegEvent) -> bool {
    actor.handle_control(
        out,
        ControlMessage::PeerLegEvent {
            frame_type: frame_type.to_string(),
            event,
            payload_types: vec![0, 101],
        },
        ControlSource::Coordinator,
        NOW_MS,
        NOW + SECOND,
    )
}

fn ack(actor: &SessionActor, kind: &str, label: ActionLabel) -> CallActionAck {
    CallActionAck {
        call_id: actor.plan.call_id.clone(),
        session_id: session_id(&actor.plan.call_id, SessionRef::Caller),
        action_kind: kind.to_string(),
        action_id: action_id(label, &actor.plan.call_id),
        generation: actor.core.action_generation,
        status: CallActionAckStatus::Accepted,
        result: AckResult {
            original_status: None,
            message: None,
            adapter_call_leg_id: None,
        },
    }
}

/// A call that was answered and confirmed.
fn connected(domain: &DomainRuntimeConfig) -> (SessionActor, Outbox) {
    let call = created(&["peer:8"], domain);
    let mut actor = call.caller_actor;
    let mut out = outbox();
    actor.start(&mut out, call.callee_offer, NOW);
    let mut answered = leg_event(&actor, SessionRef::CalleeAttempt(1), 1, Some(200));
    answered.sdp = Some(sdp("answer"));
    assert!(peer(&mut actor, &mut out, "OutboundAnswered", answered));
    let prepared = MediaActionResult::SdpPrepared {
        generation: actor.core.media_generation,
        purpose: PrepareSdpPurpose::Answer {
            payload_types: vec![0, 101],
        },
        prepared: Some(sdp("caller answer")),
    };
    assert!(actor.handle_control(
        &mut out,
        ControlMessage::MediaActionResult(prepared),
        ControlSource::Coordinator,
        NOW_MS,
        NOW + SECOND,
    ));
    let answer = ack(&actor, "AnswerInboundInvite", ActionLabel::Answer);
    let (candidate, payload_types) = actor.answering(&answer).unwrap();
    assert_eq!(candidate, 0);
    assert_eq!(payload_types, &vec![0, 101]);
    assert!(actor.handle_control(
        &mut out,
        ControlMessage::CallActionAck(answer),
        ControlSource::Coordinator,
        NOW_MS + 500,
        NOW + SECOND,
    ));
    (actor, out)
}

#[test]
fn call_action_ids_remain_unique_across_process_sequence_restarts() {
    let first = call_action_id("originate", "call-1784708165809-1");
    let after_restart = call_action_id("originate", "call-1784709000000-1");

    assert_ne!(first, after_restart);
    assert_eq!(after_restart, "originate-call-1784709000000-1");
}

#[test]
fn calls_are_named_by_time_and_number() {
    assert_eq!(new_call_id(1_784_708_165_809, 1), "call-1784708165809-1");
    assert_ne!(new_call_id(1, 12), new_call_id(11, 2));
}

#[test]
fn leg_event_deduper_rejects_duplicate_and_stale_sequences() {
    let mut deduper = LegEventDeduper::default();
    assert!(deduper.accept("leg-1", 1));
    assert!(!deduper.accept("leg-1", 1));
    assert!(!deduper.accept("leg-1", 0));
    assert!(deduper.accept("leg-1", 2));
    assert!(deduper.accept("leg-2", 1));
}

#[test]
fn deduper_forgets_the_oldest_leg() {
    let mut deduper = LegEventDeduper::with_capacity(2);
    assert!(deduper.accept("leg-1", 5));
    assert!(deduper.accept("leg-2", 5));
    assert!(deduper.accept("leg-3", 5));
    assert!(deduper.accept("leg-1", 1));
    assert!(!deduper.accept("leg-3", 5));
}

#[test]
fn action_identity_overrides_untrusted_body_fields() {
    let identity = ActionIdentity {
        call_id: "call-a".to_string(),
        session_id: "session-a".to_string(),
        action_kind: "HangupDialog".to_string(),
        action_id: "hangup-a".to_string(),
        generation: 7,
    };
    let mut body = serde_json::Map::new();
    for key in ["call_id", "session_id", "action_id"] {
        body.insert(key.to_string(), serde_json::Value::from("wrong"));
    }
    body.insert("generation".to_string(), serde_json::Value::from(1));
    body.insert("reason".to_string(), serde_json::Value::from("busy"));
    insert_identity(&mut body, &identity);

    assert_eq!(body["call_id"], "call-a");
    assert_eq!(body["session_id"], "session-a");
    assert_eq!(body["action_id"], "hangup-a");
    assert_eq!(body["generation"], 7);
    assert_eq!(body["reason"], "busy");
}

#[test]
fn actions_are_named_and_sent_by_kind() {
    assert_eq!(
        action_id(ActionLabel::Originate { attempt: 2 }, "call-a"),
        "originate-call-a-attempt-2"
    );
    assert_eq!(
        action_command(
            ActionKind::Originate,
            &OutboundTarget::Trunk {
                trunk_ref: "peer:8".to_string()
            }
        ),
        "OriginateTrunk"
    );
    assert_eq!(
        action_request_id("HangupDialog", "hangup-a", 9),
        "call-action-HangupDialog-hangup-a-9"
    );
    assert_eq!(reject_action_id("leg-1"), "reject-leg-1");
}

#[test]
fn attempt_registration_queue_is_bounded() {
    assert_eq!(ATTEMPT_REGISTRATION_CAPACITY, 1024);
    let open = LaneState {
        room: 100,
        open: true,
    };
    let full = LaneState {
        room: 0,
        open: true,
    };
    let mut out = Outbox::new(open, open, full, TopologyAnswers::all_accepted());
    assert_eq!(out.register(2, 1, 2), Err(CallError::RegistrarFull));
    assert_eq!(
        CallError::RegistrarFull.text(),
        "attempt registration queue full"
    );
}

#[test]
fn media_action_queue_is_bounded() {
    let (tx, _rx) = tokio::sync::mpsc::channel::<u8>(MEDIA_ACTION_QUEUE_CAPACITY);
    assert_eq!(tx.max_capacity(), MEDIA_ACTION_QUEUE_CAPACITY);
    assert_eq!(CallError::MediaFull.text(), "media action queue full");
    assert_eq!(CallError::MediaClosed.text(), "media action executor stopped");
}

#[test]
fn retryable_failure_policy_is_explicit() {
    for status in [408, 480, 500, 502, 503, 504] {
        assert!(retryable_status(status), "{status} should retry");
    }
    for status in [401, 403, 404, 407, 410, 484, 486, 600, 603, 604, 606] {
        assert!(!retryable_status(status), "{status} should terminate");
    }
}

#[test]
fn ai_policy_uses_direction_then_priority_and_stable_id() {
    let policy = |id: u64, name: &str| AiPolicyConfig {
        id,
        name: name.to_string(),
        enabled: true,
        targets: vec![RecordingTargetRef {
            target_type: RecordingTargetType::Extension,
            target_id: 1001,
        }],
        direction: AiPolicyDirection::Internal,
        priority: 10,
        ai_profile_id: format!("profile-{id}"),
    };
    let mut policies = vec![policy(2, "second"), policy(1, "first")];
    policies.sort_by_key(|policy| (policy.priority, policy.id));
    let mut domain = domain();
    domain.ai_policies = policies;
    let target = OutboundTarget::Endpoint {
        endpoint_id: "1002".to_string(),
        endpoint_number: "1002".to_string(),
    };
    let selected = ai_policy_for_candidate(&domain, Some(1001), None, &target).unwrap();
    assert_eq!(selected.policy_id, 1);
    assert_eq!(selected.profile_id, "profile-1");
    assert!(ai_policy_for_candidate(&domain, Some(1001), Some("peer:8"), &target).is_none());
}

#[test]
fn recording_follows_the_direction_of_its_target() {
    let mut domain = domain();
    let policy = |id: u64, target_type: RecordingTargetType, target_id: u64, direction| {
        RecordingPolicy {
            id,
            enabled: true,
            direction,
            targets: vec![RecordingTargetRef {
                target_type,
                target_id,
            }],
        }
    };
    domain.recording_policies = vec![
        policy(1, RecordingTargetType::Extension, 5, RecordingDirection::Outbound),
        policy(2, RecordingTargetType::Extension, 5, RecordingDirection::Inbound),
        policy(3, RecordingTargetType::PeerTrunk, 8, RecordingDirection::Both),
        policy(4, RecordingTargetType::RegTrunk, 3, RecordingDirection::Outbound),
        policy(5, RecordingTargetType::RegTrunk, 3, RecordingDirection::Inbound),
    ];
    let peer = OutboundTarget::Trunk {
        trunk_ref: "peer:8".to_string(),
    };
    assert_eq!(
        recording_policy_ids_for_candidate(&domain, Some(5), None, &peer),
        vec![1, 3]
    );
    let called = OutboundTarget::Endpoint {
        endpoint_id: "5".to_string(),
        endpoint_number: "1005".to_string(),
    };
    assert_eq!(
        recording_policy_ids_for_candidate(&domain, None, Some("reg:3/7"), &called),
        vec![2, 5]
    );
    domain.recording_policies[1].enabled = false;
    assert_eq!(
        recording_policy_ids_for_candidate(&domain, None, Some("peer:8"), &called),
        vec![3]
    );
}

#[test]
fn trunks_are_shown_and_reached() {
    let mut domain = domain();
    assert_eq!(
        trunk_display_name(&domain, "peer:8").as_deref(),
        Some("carrier")
    );
    assert_eq!(
        trunk_display_name(&domain, "reg:3/7").as_deref(),
        Some("provider/account")
    );
    assert_eq!(trunk_display_name(&domain, "peer:9"), None);
    assert_eq!(reg_trunk_id("reg:3/7"), Some(3));
    assert_eq!(reg_trunk_id("peer:3"), None);
    domain.peer_trunks[0].outbound_proxy_host = Some("198.51.100.7".to_string());
    assert!(trunk_route_target(&domain, "peer:8").is_none());
    domain.peer_trunks[0].proxy_is_address = true;
    let target = trunk_route_target(&domain, "peer:8").unwrap();
    assert_eq!(target.host, "198.51.100.7");
    assert_eq!(target.port, 5060);
    domain.reg_accounts[0].enabled = false;
    assert!(trunk_route_target(&domain, "reg:3/7").is_none());
    domain.reg_accounts[0].enabled = true;
    assert!(trunk_route_target(&domain, "reg:3/7").is_some());
    domain.reg_trunks[0].server_host = "sip.example.net".to_string();
    domain.reg_trunks[0].server_is_address = false;
    assert!(trunk_route_target(&domain, "reg:3/7").is_none());
    domain.reg_accounts[0].enabled = false;
    assert!(trunk_display_name(&domain, "reg:3/7").is_some());
}

#[test]
fn answered_recording_uses_call_scoped_config_snapshot() {
    let candidate = OutboundCandidate {
        outbound_target: OutboundTarget::Endpoint {
            endpoint_id: "2".to_string(),
            endpoint_number: "1002".to_string(),
        },
        callee_route_target: Some(TransportAddress {
            host: "127.0.0.1".to_string(),
            port: 5090,
        }),
        outbound_trunk_ref: None,
        outbound_trunk_name: None,
        recording_requested: true,
        recording_policy_ids: vec![41],
        ai_policy: None,
    };
    let frozen_recording_dir = "/tmp/voipswitch-recordings-v7".to_string();
    let frozen_timeouts = CallTimeouts {
        route: SECOND,
        dial: 2 * SECOND,
        ring: 3 * SECOND,
        cleanup: 4 * SECOND,
        route_budget: 5 * SECOND,
        min_attempt_window: 600_000_000,
    };
    let none = RouteSnapshot {
        route_id: None,
        route_name: None,
        trunk_ref: None,
        trunk_name: None,
    };
    let snapshot = CallConfigSnapshot::new(
        17,
        7,
        "domain-a".to_string(),
        CallNumberSnapshot {
            original_caller: "1001".to_string(),
            original_callee: "1002".to_string(),
            signaling_caller: "1001".to_string(),
            signaling_callee: "1002".to_string(),
        },
        none,
        RouteSnapshot {
            route_id: Some("route-1".to_string()),
            route_name: Some("local".to_string()),
            trunk_ref: None,
            trunk_name: None,
        },
        vec![candidate],
        frozen_timeouts,
        frozen_recording_dir.clone(),
    )
    .unwrap();
    let call = CallRuntime::new(
        "call-a".to_string(),
        "caller-session".to_string(),
        "callee-session".to_string(),
        "adapter-leg".to_string(),
        snapshot,
        &None,
        100,
    )
    .ok()
    .unwrap();

    let latest_recording_dir = "/tmp/voipswitch-recordings-v8".to_string();
    let latest_dial_timeout = 20 * SECOND;
    let spec = recording_spec_from_snapshot(&call, 200, vec![0, 8]);

    assert_ne!(latest_recording_dir, frozen_recording_dir);
    assert_eq!(spec.recording_dir, frozen_recording_dir);
    assert_eq!(spec.caller_number, "1001");
    assert_eq!(spec.callee_number, "1002");
    assert_eq!(call.config_snapshot.runtime_config_version, 17);
    assert_eq!(call.config_snapshot.domain_config_version, 7);
    assert_eq!(call.config_snapshot.candidates.len(), 1);
    assert_ne!(latest_dial_timeout, frozen_timeouts.dial);
    assert_eq!(call.config_snapshot.timeouts, frozen_timeouts);
    assert_eq!(call.config_snapshot.recording.initial_policy_ids, vec![41]);
}

#[test]
fn snapshot_needs_a_candidate_and_one_audio_stream() {
    let call = created(&["peer:8"], &domain());
    let mut snapshot = call.call.config_snapshot;
    let empty = CallConfigSnapshot::new(
        1,
        1,
        "domain-a".to_string(),
        snapshot.numbers.clone(),
        snapshot.inbound.clone(),
        snapshot.outbound.clone(),
        Vec::new(),
        timeouts(),
        String::new(),
    );
    assert_eq!(
        empty.unwrap_err(),
        "call config snapshot requires at least one candidate"
    );
    snapshot.media_policy.audio_only = false;
    let refused = CallRuntime::new(
        "call-a".to_string(),
        "caller".to_string(),
        "callee".to_string(),
        "leg".to_string(),
        snapshot,
        &Some("extension number is too long".to_string()),
        1,
    );
    assert_eq!(
        refused.err().unwrap(),
        "unsupported call media policy snapshot"
    );
}

#[test]
fn timeouts_can_be_set() {
    let mut settings = TimeoutSettings {
        route: None,
        dial: Some("250".to_string()),
        ring: Some("0".to_string()),
        cleanup: Some("soon".to_string()),
        route_budget: None,
        min_attempt_window: None,
    };
    let chosen = CallTimeouts::from_settings(&settings);
    assert_eq!(chosen.route, 3 * SECOND);
    assert_eq!(chosen.dial, 250_000_000);
    assert_eq!(chosen.ring, 60 * SECOND);
    assert_eq!(chosen.cleanup, 5 * SECOND);
    assert_eq!(chosen.route_budget, 180 * SECOND);
    assert_eq!(chosen.min_attempt_window, SECOND);
    settings.dial = Some(u64::MAX.to_string());
    assert_eq!(CallTimeouts::from_settings(&settings).dial, u64::MAX);
}

#[test]
fn offers_are_refused_before_any_search() {
    let event = offer(None);
    assert!(matches!(
        begin_admission(&event, None, true),
        OfferStep::Reject(404)
    ));
    let mut disabled = domain();
    disabled.enabled = false;
    assert!(matches!(
        begin_admission(&event, Some(&disabled), true),
        OfferStep::Reject(404)
    ));
    assert!(matches!(
        begin_admission(&event, Some(&domain()), false),
        OfferStep::Reject(503)
    ));
    match begin_admission(&event, Some(&domain()), true) {
        OfferStep::Analyze(request) => {
            assert_eq!(request.caller, "1001");
            assert_eq!(request.callee, "1002");
        }
        _ => panic!("numbers are to be analysed"),
    }
    let from_trunk = offer(Some(InboundInviteSource::Trunk {
        trunk_ref: "peer:8".to_string(),
    }));
    assert!(matches!(
        begin_admission(&from_trunk, Some(&domain()), true),
        OfferStep::MatchInbound { trunk_ref } if trunk_ref == "peer:8"
    ));
    let refusal = reject_inbound(&event, 503);
    assert_eq!(refusal.action_id, "reject-leg-1");
    assert_eq!(refusal.status_code, 503);
    assert_eq!(refusal.generation, 1);
}

#[test]
fn trunk_calls_follow_their_match() {
    let event = offer(None);
    let matched = |target| InboundRouteMatch {
        route_id: "in-1".to_string(),
        route_name: "in".to_string(),
        target,
        transformed_caller: "0049".to_string(),
        transformed_callee: "1002".to_string(),
    };
    let step = |matched: Option<&InboundRouteMatch>, registrations: &Registrations| {
        after_inbound_match(&event, &domain(), registrations, matched)
    };
    assert!(matches!(
        step(None, &registrations()),
        InboundStep::Reject(404)
    ));
    assert!(matches!(
        step(Some(&matched(InboundRouteTarget::Reject)), &registrations()),
        InboundStep::Reject(403)
    ));
    assert!(matches!(
        step(Some(&matched(InboundRouteTarget::Auto)), &registrations()),
        InboundStep::Analyze(request) if request.caller == "0049"
    ));
    let direct = matched(InboundRouteTarget::Extension("1002".to_string()));
    match step(Some(&direct), &registrations()) {
        InboundStep::Resolved(route) => {
            assert_eq!(route.signaling_caller_number, "0049");
            assert_eq!(route.candidates.len(), 1);
        }
        _ => panic!("the extension is registered"),
    }
    let mut unready = registrations();
    unready.ready = false;
    assert!(matches!(step(Some(&direct), &unready), InboundStep::Reject(480)));
    let unknown = matched(InboundRouteTarget::Extension("9999".to_string()));
    assert!(matches!(
        step(Some(&unknown), &registrations()),
        InboundStep::Reject(404)
    ));
}

#[test]
fn analysis_decides_on_the_status() {
    let status = |analysis| {
        after_analysis("domain-a", &domain(), &registrations(), analysis)
            .err()
            .unwrap()
    };
    assert_eq!(status(Err(RouteAnalysisFailure::Timeout)), 408);
    assert_eq!(
        status(Err(RouteAnalysisFailure::Worker("lost".to_string()))),
        500
    );
    assert_eq!(status(Ok(RouteDecision::Reject { sip_status: 603 })), 603);
    assert_eq!(status(Ok(RouteDecision::Continue)), 404);
    assert_eq!(
        status(Ok(RouteDecision::Matched(RouteResult::CalleeSet))),
        501
    );
    assert_eq!(
        status(Ok(RouteDecision::Matched(RouteResult::BusinessModule))),
        501
    );
    assert_eq!(status(trunks_route(&[])), 503);
    assert_eq!(
        status(Ok(RouteDecision::Matched(RouteResult::Extension {
            endpoint_id: "1".to_string(),
            endpoint_number: "1001".to_string(),
            transformed_caller: "1002".to_string(),
            transformed_callee: "1001".to_string(),
        }))),
        480
    );
}

#[test]
fn call_begins_with_the_first_candidate() {
    let mut domain = domain();
    domain.recording_policies = vec![RecordingPolicy {
        id: 41,
        enabled: true,
        direction: RecordingDirection::Both,
        targets: vec![RecordingTargetRef {
            target_type: RecordingTargetType::RegTrunk,
            target_id: 3,
        }],
    }];
    let call = created(&["peer:8", "reg:3/7"], &domain);
    assert_eq!(call.call.call_id, "call-1784708165809-1");
    assert_eq!(
        call.call.callee_session_id,
        "session-call-1784708165809-1-callee-attempt-1"
    );
    assert_eq!(call.call.callee_target, "peer:8");
    assert!(!call.call.recording_requested);
    assert_eq!(call.caller_actor.plan.recorded, vec![false, true]);
    let event = offer(None);
    let snapshot = call.call.config_snapshot;
    assert_eq!(snapshot.numbers.signaling_callee, "+1002");
    assert_eq!(snapshot.outbound.trunk_name.as_deref(), Some("carrier"));
    assert_eq!(
        create_call(&event, snapshot, None, vec![None, None], 2, NOW_MS, NOW).err(),
        Some(CreationFault::Refused(488))
    );
}

#[test]
fn call_is_given_up_over_the_number_of_its_first_candidate() {
    let domain = domain();
    let first = created(&["peer:8", "reg:3/7"], &domain).call.config_snapshot;
    let second = created(&["peer:8", "reg:3/7"], &domain).call.config_snapshot;
    let reason = "extension number is too long".to_string();
    assert_eq!(
        create_call(
            &offer(None),
            first,
            Some(sdp("callee offer")),
            vec![Some(reason.clone()), None],
            2,
            NOW_MS,
            NOW,
        )
        .err(),
        Some(CreationFault::Failed(reason.clone()))
    );
    let call = create_call(
        &offer(None),
        second,
        Some(sdp("callee offer")),
        vec![None, Some(reason)],
        2,
        NOW_MS,
        NOW,
    )
    .ok()
    .unwrap();
    assert_eq!(call.caller_actor.core.numbers_accepted, vec![true, false]);

    let mut actor = call.caller_actor;
    let mut out = outbox();
    actor.start(&mut out, call.callee_offer, NOW);
    let failed = leg_event(&actor, SessionRef::CalleeAttempt(1), 1, Some(503));
    assert!(peer(&mut actor, &mut out, "OutboundFailed", failed));
    let generation = actor.core.action_generation;
    let prepared = MediaActionResult::SdpPrepared {
        generation: actor.core.media_generation,
        purpose: PrepareSdpPurpose::CalleeAttemptOffer { attempt_seq: 2 },
        prepared: Some(sdp("second offer")),
    };
    assert_eq!(
        actor.handle_media_action_result(&mut out, prepared, NOW_MS, NOW + SECOND),
        Err(CallError::NumberRefused)
    );
    assert_eq!(actor.core.action_generation, generation + 1);
    assert!(actor.core.pending_attempt_candidate.is_none());
    assert!(actor.core.pending_attempt_registration.is_none());
    assert!(!out
        .effects
        .iter()
        .any(|effect| matches!(effect, CallEffect::RegisterAttempt { .. })));
}

#[test]
fn media_of_a_call_that_was_not_answered_has_no_bridge() {
    let call = created(&["peer:8"], &domain());
    let mut actor = call.caller_actor;
    let mut out = outbox();
    actor.start(&mut out, call.callee_offer, NOW);
    let started = MediaActionResult::AnswerMediaStarted {
        generation: actor.core.media_generation,
        recording_error: Some("disk is full".to_string()),
    };
    assert_eq!(
        actor.handle_media_action_result(&mut out, started, NOW_MS, NOW),
        Err(CallError::BridgeMissing)
    );
    let (mut actor, mut out) = connected(&domain());
    let started = MediaActionResult::AnswerMediaStarted {
        generation: actor.core.media_generation,
        recording_error: None,
    };
    assert_eq!(
        actor.handle_media_action_result(&mut out, started, NOW_MS, NOW),
        Ok(())
    );
}

#[test]
fn finished_call_gives_its_topology_back_before_it_ends() {
    let (mut actor, mut out) = connected(&domain());
    let gone = leg_event(&actor, SessionRef::CalleeAttempt(1), 2, None);
    peer(&mut actor, &mut out, "DialogDisconnected", gone);
    let before = out.effects.len();
    let gone = leg_event(&actor, SessionRef::Caller, 1, None);
    let goes_on = actor.handle_control(
        &mut out,
        ControlMessage::LegEvent {
            frame_type: "DialogDisconnected".to_string(),
            event: gone,
            payload_types: Vec::new(),
        },
        ControlSource::Coordinator,
        NOW_MS,
        NOW + SECOND,
    );
    assert!(goes_on);
    let last = &out.effects[before..];
    let count = last.len();
    assert!(matches!(
        last[count - 2],
        CallEffect::Topology(TopologyChange::Released)
    ));
    assert!(matches!(last[count - 1], CallEffect::Finish));
    assert!(!actor.handle_control(
        &mut out,
        ControlMessage::CallFinalized,
        ControlSource::Coordinator,
        NOW_MS,
        NOW + SECOND,
    ));
}

#[test]
fn capture_needs_policy_service_profile_and_codec() {
    assert_eq!(plan_capture(false, true, true, &[0]), CapturePlan::NotWanted);
    assert_eq!(
        plan_capture(true, false, true, &[0]),
        CapturePlan::ServiceUnavailable
    );
    assert_eq!(
        plan_capture(true, true, false, &[0]),
        CapturePlan::ProfileNotExecutable
    );
    assert_eq!(
        plan_capture(true, true, true, &[18, 101]),
        CapturePlan::CodecUnsupported
    );
    assert_eq!(
        plan_capture(true, true, true, &[18, 8, 0]),
        CapturePlan::Submit {
            payload_type: 8,
            codec: AudioCodec::Pcma
        }
    );
}

#[test]
fn job_names_both_sides_of_the_call() {
    let call = created(&["peer:8"], &domain()).call;
    let (job, tap) = build_ai_submission(&call, "profile-1".to_string(), 8, AudioCodec::Pcma);
    assert_eq!(job.job.job_id, "ai-call-1784708165809-1");
    assert_eq!(job.job.tenant_id, "domain-a");
    assert_eq!(job.job.operation_id, "post-call-v1");
    assert_eq!(job.participants[0].display_number.as_deref(), Some("1001"));
    assert_eq!(job.participants[1].role, "callee");
    assert_eq!(job.streams[0].stream_id, tap.caller.stream_id);
    assert_eq!(tap.callee.participant_id, "callee");
    assert_eq!(tap.callee.sample_rate, AI_SAMPLE_RATE);
    assert_eq!(tap.callee.channels, AI_CHANNELS);
}

#[test]
fn started_call_adopts_and_originates() {
    let call = created(&["peer:8"], &domain());
    let mut actor = call.caller_actor;
    let mut out = outbox();
    actor.start(&mut out, call.callee_offer, NOW);
    assert_eq!(
        submitted(&out),
        vec![
            (ActionKind::AdoptInboundInvite, ActionLabel::Adopt),
            (
                ActionKind::Originate,
                ActionLabel::Originate { attempt: 1 }
            ),
        ]
    );
    assert_eq!(
        actor.core.timers.dial.slot.unwrap().deadline,
        (NOW + 2 * SECOND) as u128
    );
}

#[test]
fn answered_call_is_connected_and_ends() {
    let (mut actor, mut out) = connected(&domain());
    assert_eq!(actor.core.state, CallState::Connected);
    assert_eq!(actor.core.answered_at_ms, Some(NOW_MS + 500));
    assert!(out.effects.iter().any(|effect| matches!(
        effect,
        CallEffect::Media(MediaRequest::StartAnswerMedia {
            recording_from_ms: None,
            allow_fast_path: true,
            ..
        })
    )));
    let event = leg_event(&actor, SessionRef::CalleeAttempt(1), 2, None);
    assert!(peer(&mut actor, &mut out, "DialogDisconnected", event));
    assert_eq!(actor.core.state, CallState::Terminating);
    assert!(submitted(&out).contains(&(ActionKind::HangupDialog, ActionLabel::Hangup)));
}

#[test]
fn captured_call_stays_in_user_space() {
    let call = created(&["peer:8"], &domain());
    let mut actor = call.caller_actor;
    let mut out = outbox();
    actor.start(&mut out, call.callee_offer, NOW);
    let mut answered = leg_event(&actor, SessionRef::CalleeAttempt(1), 1, Some(200));
    answered.sdp = Some(sdp("answer"));
    peer(&mut actor, &mut out, "OutboundAnswered", answered);
    let prepared = MediaActionResult::SdpPrepared {
        generation: actor.core.media_generation,
        purpose: PrepareSdpPurpose::Answer {
            payload_types: vec![0],
        },
        prepared: Some(sdp("caller answer")),
    };
    actor
        .handle_media_action_result(&mut out, prepared, NOW_MS, NOW)
        .unwrap();
    let answer = ack(&actor, "AnswerInboundInvite", ActionLabel::Answer);
    actor.note_ai_capture(true);
    actor
        .handle_action_ack(&mut out, &answer, NOW_MS, NOW)
        .unwrap();
    assert!(out.effects.iter().any(|effect| matches!(
        effect,
        CallEffect::Media(MediaRequest::StartAnswerMedia {
            allow_fast_path: false,
            ..
        })
    )));
    assert!(actor.answering(&answer).is_none());
}

#[test]
fn failed_attempt_is_followed_by_the_next_candidate() {
    let call = created(&["peer:8", "reg:3/7"], &domain());
    let mut runtime = call.call;
    let mut actor = call.caller_actor;
    let mut out = outbox();
    actor.start(&mut out, call.callee_offer, NOW);
    let failed = leg_event(&actor, SessionRef::CalleeAttempt(1), 1, Some(503));
    assert!(peer(&mut actor, &mut out, "OutboundFailed", failed));
    assert!(out.effects.iter().any(|effect| matches!(
        effect,
        CallEffect::Media(MediaRequest::PrepareCalleeOffer {
            attempt_seq: 2,
            candidate: 1,
            ..
        })
    )));
    let prepared = MediaActionResult::SdpPrepared {
        generation: actor.core.media_generation,
        purpose: PrepareSdpPurpose::CalleeAttemptOffer { attempt_seq: 2 },
        prepared: Some(sdp("second offer")),
    };
    actor
        .handle_media_action_result(&mut out, prepared, NOW_MS, NOW + SECOND)
        .unwrap();
    assert!(out.effects.iter().any(|effect| matches!(
        effect,
        CallEffect::RegisterAttempt {
            attempt: 2,
            candidate: 1,
            ..
        }
    )));
    let second = session_id(&actor.plan.call_id, SessionRef::CalleeAttempt(2));
    actor
        .handle_attempt_registration_result(
            &mut out,
            &AttemptRegistrationResult {
                attempt_seq: 2,
                session_id: second.clone(),
                registered: true,
            },
            NOW + SECOND,
        )
        .unwrap();
    assert!(submitted(&out).contains(&(
        ActionKind::Originate,
        ActionLabel::Originate { attempt: 2 }
    )));
    let candidate = runtime.config_snapshot.candidates[1].clone();
    runtime.follow_candidate(&candidate, second);
    assert_eq!(runtime.callee_target, "reg:3/7");
    assert_eq!(
        runtime.outbound_trunk_name.as_deref(),
        Some("provider/account")
    );

    let old = leg_event(&actor, SessionRef::CalleeAttempt(1), 9, Some(180));
    let before = out.effects.len();
    assert!(peer(&mut actor, &mut out, "OutboundProvisional", old));
    assert_eq!(actor.core.state, CallState::Establishing);
    assert!(out.effects[before..]
        .iter()
        .all(|effect| !matches!(effect, CallEffect::Submit(_))));
}

#[test]
fn busy_callee_ends_the_call() {
    let call = created(&["peer:8", "reg:3/7"], &domain());
    let mut actor = call.caller_actor;
    let mut out = outbox();
    actor.start(&mut out, call.callee_offer, NOW);
    let busy = leg_event(&actor, SessionRef::CalleeAttempt(1), 1, Some(486));
    assert!(peer(&mut actor, &mut out, "OutboundFailed", busy));
    assert_eq!(actor.core.hangup_cause, Some(HangupCause::CallRejected));
    assert!(submitted(&out).contains(&(ActionKind::RejectInboundInvite, ActionLabel::Reject)));
}

#[test]
fn dial_timeout_ends_the_call() {
    let call = created(&["peer:8"], &domain());
    let mut actor = call.caller_actor;
    let mut out = outbox();
    actor.start(&mut out, call.callee_offer, NOW);
    let generation = actor.core.timers.dial.slot.unwrap().generation;
    assert!(actor.handle_timer_expiry(
        &mut out,
        CallTimerKind::Dial,
        generation + 1,
        NOW + 2 * SECOND
    ));
    assert_eq!(actor.core.state, CallState::Establishing);
    assert!(actor.handle_timer_expiry(
        &mut out,
        CallTimerKind::Dial,
        generation,
        NOW + 2 * SECOND
    ));
    assert_eq!(actor.core.state, CallState::Terminating);
    assert_eq!(actor.core.last_status, Some(408));
    assert_eq!(
        actor.core.hangup_cause,
        Some(HangupCause::RecoveryOnTimerExpire)
    );
    let actions = submitted(&out);
    assert!(actions.contains(&(ActionKind::CancelOutbound, ActionLabel::DialTimeoutCancel)));
    assert!(actions.contains(&(
        ActionKind::RejectInboundInvite,
        ActionLabel::DialTimeoutReject
    )));
}

#[test]
fn rearmed_timer_discards_the_old_generation() {
    let call = created(&["peer:8"], &domain());
    let mut core = call.caller_actor.core;
    core.start_timer(CallTimerKind::Ring, NOW);
    let old = core.timers.ring.slot.unwrap();
    core.start_timer(CallTimerKind::Ring, NOW + SECOND);
    let new = core.timers.ring.slot.unwrap();
    assert!(new.generation > old.generation);
    assert_eq!(new.deadline, old.deadline + SECOND as u128);
    core.cancel_timer(CallTimerKind::Ring);
    assert!(core.timers.ring.slot.is_none());
}

#[test]
fn full_queue_ends_the_call() {
    let call = created(&["peer:8"], &domain());
    let mut actor = call.caller_actor;
    let none = LaneState {
        room: 0,
        open: true,
    };
    let mut out = Outbox::new(none, none, none, TopologyAnswers::all_accepted());
    actor.start(&mut out, call.callee_offer, NOW);
    assert!(actor.core.is_terminating());
    assert!(submitted(&out).is_empty());
}

fn digit_event(session: &str) -> DigitEvent {
    DigitEvent {
        event_id: DtmfEventId::Rfc4733 {
            media_generation: 1,
            source_session_id: session.to_string(),
            ssrc: 7,
            timestamp: 42,
            event_code: 5,
        },
        domain_id: "domain-a".to_string(),
        call_id: "call-a".to_string(),
        source_session_id: session.to_string(),
        source_media_leg_id: None,
        digit: DtmfDigit::D5,
        transport: DtmfTransport::Rfc4733,
        duration_ms: 100,
        observed_at_ms: 1,
        source_generation: DtmfSourceGeneration::Media(1),
        incomplete_end: false,
    }
}

#[test]
fn digit_is_collected_instead_of_forwarded() {
    let (mut actor, mut out) = connected(&domain());
    let caller = session_id(&actor.plan.call_id, SessionRef::Caller);
    let mut allowed = DigitSet::new();
    allowed.insert(DtmfDigit::D5);
    actor.start_digit_collection(
        &mut out,
        DigitCollectionSpec {
            collector_id: "collector-a".to_string(),
            owner: "operation-a".to_string(),
            source_session_id: caller.clone(),
            mode: DigitCollectionMode::Collect,
            allowed,
            min_digits: 1,
            max_digits: 1,
            terminators: DigitSet::new(),
            first_digit_timeout: 5 * SECOND,
            inter_digit_timeout: 3 * SECOND,
            overall_timeout: 20 * SECOND,
        },
    );
    let generation = actor.core.media_generation;
    actor
        .handle_media_action_result(
            &mut out,
            MediaActionResult::DtmfCapabilityAcquired {
                generation,
                collector_id: "collector-a".to_string(),
                result: Ok(CapabilityReady {
                    lease_id: format!("dtmf-collector-{}-collector-a", actor.plan.call_id),
                    source_session_id: caller.clone(),
                    media_generation: 3,
                }),
            },
            NOW_MS,
            NOW + 2 * SECOND,
        )
        .unwrap();
    let mut digit = digit_event(&caller);
    digit.call_id = actor.plan.call_id.clone();
    let before = submitted(&out).len();
    actor
        .handle_source_digit(&mut out, &digit, NOW + 3 * SECOND)
        .unwrap();
    assert_eq!(submitted(&out).len(), before);
    assert_eq!(actor.dtmf_router.stats().consumed, 1);
    assert_eq!(actor.dtmf_router.stats().forwarded, 0);
}

fn callee() -> CalleeSessionActor {
    let mut actor = CalleeSessionActor::new("call-a".to_string(), "domain-a".to_string(), 1, 1);
    assert_eq!(actor.session_id, "session-call-a-callee-attempt-1");
    actor.session_id = "callee-a".to_string();
    actor
}

fn callee_event(sequence: u64) -> ControlMessage {
    ControlMessage::LegEvent {
        frame_type: "OutboundProvisional".to_string(),
        event: CallLegEvent {
            call_id: Some("call-a".to_string()),
            session_id: Some("callee-a".to_string()),
            adapter_call_leg_id: "leg-a".to_string(),
            leg_event_seq: sequence,
            status_code: Some(180),
            sdp: None,
            reason: None,
        },
        payload_types: Vec::new(),
    }
}

#[test]
fn callee_actor_advances_its_leg_before_forwarding_to_caller() {
    let mut actor = callee();
    let step = actor.handle_control(callee_event(1));
    assert_eq!(actor.state, LegState::WaitForAnswer);
    assert!(matches!(
        step.message,
        Some(PeerMessage::LegEvent { frame_type, .. }) if frame_type == "OutboundProvisional"
    ));
    assert_eq!(
        actor.handle_control(ControlMessage::Shutdown).next,
        NextStep::Stop
    );
}

#[test]
fn callee_actor_drops_duplicate_leg_events() {
    let mut actor = callee();
    assert!(actor.handle_control(callee_event(1)).message.is_some());
    let repeated = actor.handle_control(callee_event(1));
    assert!(repeated.message.is_none());
    assert_eq!(repeated.next, NextStep::GoOn);
}

#[test]
fn callee_actor_arbitrates_and_forwards_digit_once() {
    let mut actor = callee();
    let first = actor.handle_control(ControlMessage::MediaDtmfObserved(digit_event("callee-a")));
    assert!(matches!(
        first.message,
        Some(PeerMessage::Digit(event)) if event.source_session_id == "callee-a"
    ));
    let second = actor.handle_control(ControlMessage::MediaDtmfObserved(digit_event("callee-a")));
    assert!(second.message.is_none());
}

#[test]
fn callee_actor_forwards_rejected_originate_ack_once() {
    let mut actor = callee();
    let rejected = CallActionAck {
        call_id: "call-a".to_string(),
        session_id: "callee-a".to_string(),
        action_kind: "OriginateEndpoint".to_string(),
        action_id: "originate-call-a".to_string(),
        generation: 1,
        status: CallActionAckStatus::Rejected,
        result: AckResult {
            original_status: None,
            message: Some("endpoint_unregistered".to_string()),
            adapter_call_leg_id: None,
        },
    };
    let step = actor.handle_control(ControlMessage::CallActionAck(rejected.clone()));
    match step.message {
        Some(PeerMessage::ActionFailed(ActionDeliveryFailed { identity, reason })) => {
            assert_eq!(identity.action_id, "originate-call-a");
            assert_eq!(reason, "endpoint_unregistered");
        }
        _ => panic!("the failure is to be reported"),
    }
    assert!(actor.handle_action_ack(&rejected).message.is_none());
}

#[test]
fn record_of_a_finished_call_adds_up() {
    let (actor, _out) = connected(&domain());
    let call = created(&["peer:8"], &domain()).call;
    let facts = call.facts(CallOutcome {
        answered_at_ms: actor.core.answered_at_ms,
        last_status: Some(200),
        hangup_cause: None,
        recording_start_error: None,
    });
    let stats = MediaStatsSnapshot {
        caller_to_callee_packets: 10,
        caller_to_callee_bytes: 1_720,
        ..MediaStatsSnapshot::default()
    };
    let command = finalize_call(
        &FinalCallSnapshot::from_facts(facts),
        &stats,
        None,
        None,
        NOW_MS + 2_500,
        true,
    );
    let record = command.call_cdr;
    assert_eq!(record.duration_ms, 2_500);
    assert_eq!(record.billable_ms, 2_000);
    assert!(record.answered);
    assert_eq!(record.hangup_cause, "normal_clearing");
    assert_eq!(record.caller_to_callee_packets, 10);
    assert_eq!(record.outbound_trunk_ref.as_deref(), Some("peer:8"));
    assert_eq!(command.leg_cdrs.len(), 2);
    assert_eq!(command.leg_cdrs[1].endpoint_ref.as_deref(), Some("peer:8"));
    assert_eq!(command.trace_call_id, record.call_id);
}

#[test]
fn action_bodies_carry_the_status() {
    let call = created(&["peer:8"], &domain());
    let mut actor = call.caller_actor;
    let mut out = outbox();
    actor.start(&mut out, call.callee_offer, NOW);
    let busy = leg_event(&actor, SessionRef::CalleeAttempt(1), 1, Some(486));
    peer(&mut actor, &mut out, "OutboundFailed", busy);
    assert!(out.effects.iter().any(|effect| matches!(
        effect,
        CallEffect::Submit(action) if matches!(action.body, ActionBody::Status(486))
    )));
}

#[test]
fn hangup_during_the_answer_waits_for_its_confirmation() {
    let call = created(&["peer:8"], &domain());
    let mut actor = call.caller_actor;
    let mut out = outbox();
    actor.start(&mut out, call.callee_offer, NOW);
    let callee = SessionRef::CalleeAttempt(1);
    let mut answered = leg_event(&actor, callee, 1, Some(200));
    answered.sdp = Some(sdp("answer"));
    peer(&mut actor, &mut out, "OutboundAnswered", answered);
    assert!(actor.core.answer_in_progress);
    let gone = leg_event(&actor, callee, 2, Some(487));
    peer(&mut actor, &mut out, "DialogDisconnected", gone);
    assert!(!actor.core.callee_terminated);
    let deferred = actor.core.deferred_callee_disconnect.unwrap();
    assert_eq!(deferred.attempt_seq, 1);
    assert_eq!(deferred.status_code, Some(487));
    let generation = actor.core.media_generation;
    actor.handle_control(
        &mut out,
        ControlMessage::MediaActionResult(MediaActionResult::SdpPrepared {
            generation,
            purpose: PrepareSdpPurpose::Answer { payload_types: vec![8] },
            prepared: Some(sdp("rewritten")),
        }),
        ControlSource::Coordinator,
        NOW_MS,
        NOW,
    );
    let confirmation = ack(&actor, "AnswerInboundInvite", ActionLabel::Answer);
    actor.handle_control(
        &mut out,
        ControlMessage::CallActionAck(confirmation),
        ControlSource::Coordinator,
        NOW_MS,
        NOW,
    );
    assert!(actor.core.callee_terminated);
    assert_eq!(actor.core.last_status, Some(487));
    assert_eq!(actor.core.state, CallState::Terminating);
    assert_eq!(
        submitted(&out).last().unwrap(),
        &(ActionKind::HangupDialog, ActionLabel::Hangup)
    );
}

#[test]
fn new_owner_knows_what_its_leg_has_taken() {
    let (mut actor, mut out) = connected(&domain());
    let mut leg = CalleeSessionActor::new(
        actor.plan.call_id.clone(),
        actor.plan.domain_id.clone(),
        1,
        actor.core.action_generation,
    );
    let known = leg_event(&actor, SessionRef::CalleeAttempt(1), 7, None);
    assert!(leg.accept_leg_event(&known));
    actor.take_over(leg);
    assert_eq!(actor.plan.owner, SessionRef::CalleeAttempt(1));
    assert!(!actor.accept_leg_event(&known));
    assert_eq!(actor.core.state, CallState::Connected);
    assert!(!actor.leave(&mut out));
    assert!(actor.core.finalization_started);
    assert_eq!(actor.core.hangup_cause, Some(HangupCause::InternalError));
    let (mut caller, mut other) = connected(&domain());
    assert!(caller.leave(&mut other));
}

#[test]
fn sessions_sum_themselves_up() {
    let (mut actor, mut out) = connected(&domain());
    let caller = session_id(&actor.plan.call_id, SessionRef::Caller);
    let mut allowed = DigitSet::new();
    allowed.insert(DtmfDigit::D5);
    actor.start_digit_collection(
        &mut out,
        DigitCollectionSpec {
            collector_id: "menu".to_string(),
            owner: "ivr".to_string(),
            source_session_id: caller.clone(),
            mode: DigitCollectionMode::Collect,
            allowed,
            min_digits: 1,
            max_digits: 4,
            terminators: DigitSet::new(),
            first_digit_timeout: SECOND,
            inter_digit_timeout: SECOND,
            overall_timeout: 5 * SECOND,
        },
    );
    let summary = actor.summary();
    assert_eq!(summary.session_id, caller);
    assert_eq!(summary.state, CallState::Connected);
    assert_eq!(summary.source.accepted, 0);
    assert_eq!(summary.router.forwarded, 0);
    assert_eq!(summary.collectors.len(), 1);
    assert_eq!(summary.collectors[0].collector_id, "menu");
    assert_eq!(summary.collectors[0].mode, "collect");
    assert_eq!(summary.collectors[0].phase, "acquiring");
    let leg = callee();
    assert_eq!(leg.summary().session_id, "callee-a");
    assert_eq!(leg.summary().state, LegState::Dialing);
    let (reason, outcome) = leg.refuse_collection("menu".to_string());
    assert_eq!(reason, "collector_requires_call_coordinator");
    assert_eq!(outcome.code, DigitCollectionResultCode::Failed);
    assert_eq!(outcome.reason.unwrap(), reason);
}

#[test]
fn commands_say_what_their_action_is() {
    let call = created(&["peer:8"], &domain());
    let runtime = call.call;
    let mut actor = call.caller_actor;
    let mut out = outbox();
    actor.start(&mut out, call.callee_offer, NOW);
    let actions: Vec<_> = out
        .effects
        .iter()
        .filter_map(|effect| match effect {
            CallEffect::Submit(action) => Some(action),
            _ => None,
        })
        .collect();
    let mut adopt = serde_json::Map::new();
    let identity = write_action(&mut adopt, &runtime, actions[0]);
    assert_eq!(identity.action_kind, "AdoptInboundInvite");
    assert_eq!(adopt["domain_id"], "domain-a");
    assert_eq!(adopt["adapter_call_leg_id"], "leg-1");
    assert_eq!(adopt["action_id"], format!("adopt-{}", runtime.call_id));
    assert_eq!(adopt["generation"], 1);
    assert_eq!(adopt.len(), 6);
    assert!(carried_description(actions[0]).is_none());
    let mut originate = serde_json::Map::new();
    originate.insert("session_id".to_string(), serde_json::Value::from("wrong"));
    let identity = write_action(&mut originate, &runtime, actions[1]);
    assert_eq!(identity.action_kind, "OriginateTrunk");
    assert_eq!(identity.session_id, runtime.callee_session_id);
    assert_eq!(originate["session_id"], runtime.callee_session_id.as_str());
    assert_eq!(originate["trunk_ref"], "peer:8");
    assert_eq!(originate["caller_display_name"], serde_json::Value::Null);
    assert_eq!(
        originate["sip_metadata"],
        serde_json::Value::Object(serde_json::Map::new())
    );
    let (field, description) = carried_description(actions[1]).unwrap();
    assert_eq!(field, "sdp_offer");
    assert_eq!(description.text, "callee offer");
    let view = runtime.active_view(&actor.core);
    assert_eq!(view.state, CallState::Establishing);
    assert_eq!(view.caller_number, "1001");
    assert_eq!(view.callee_number, "1002");
    assert_eq!(view.answered_at_ms, None);
}

fn refusing(topology: TopologyAnswers) -> Outbox {
    Outbox {
        topology,
        ..outbox()
    }
}

#[test]
fn refused_failure_leaves_the_attempt_as_it_was() {
    let call = created(&["peer:8", "reg:3/7"], &domain());
    let mut actor = call.caller_actor;
    let mut out = outbox();
    actor.start(&mut out, call.callee_offer, NOW);
    let generation = actor.core.media_generation;
    let dial = actor.core.timers.dial;
    let mut out = refusing(TopologyAnswers {
        attempt_failed: false,
        ..TopologyAnswers::all_accepted()
    });
    assert_eq!(
        actor.core.begin_next_attempt(&mut out, 503, NOW),
        Err(CallError::TopologyRefused)
    );
    assert_eq!(actor.core.last_status, None);
    assert_eq!(actor.core.media_generation, generation);
    assert_eq!(actor.core.timers.dial, dial);
    assert_eq!(actor.core.next_candidate, 2);
    assert!(actor.core.pending_attempt_candidate.is_none());
    assert!(out.effects.is_empty());

    let failed = leg_event(&actor, SessionRef::CalleeAttempt(1), 1, Some(503));
    actor.core.next_candidate = 1;
    assert!(peer(&mut actor, &mut out, "OutboundFailed", failed));
    assert!(actor.core.finalization_started);
    assert_eq!(actor.core.last_status, None);
    assert_eq!(actor.core.hangup_cause, Some(HangupCause::InternalError));
}

#[test]
fn refused_answer_is_not_recorded_as_one() {
    let rulings = [
        (AnswerRuling::AttemptRefused, None),
        (AnswerRuling::BridgeRefused, Some(NOW_MS)),
    ];
    for (answered, at_ms) in rulings {
        let call = created(&["peer:8"], &domain());
        let mut actor = call.caller_actor;
        let mut out = outbox();
        actor.start(&mut out, call.callee_offer, NOW);
        let mut event = leg_event(&actor, SessionRef::CalleeAttempt(1), 1, Some(200));
        event.sdp = Some(sdp("answer"));
        peer(&mut actor, &mut out, "OutboundAnswered", event);
        let prepared = MediaActionResult::SdpPrepared {
            generation: actor.core.media_generation,
            purpose: PrepareSdpPurpose::Answer {
                payload_types: vec![0],
            },
            prepared: Some(sdp("caller answer")),
        };
        actor
            .handle_media_action_result(&mut out, prepared, NOW_MS, NOW)
            .unwrap();
        let status = actor.core.last_status;
        let answer = ack(&actor, "AnswerInboundInvite", ActionLabel::Answer);
        let mut out = refusing(TopologyAnswers {
            answered,
            ..TopologyAnswers::all_accepted()
        });
        assert_eq!(
            actor.handle_action_ack(&mut out, &answer, NOW_MS, NOW),
            Err(CallError::TopologyRefused)
        );
        assert_eq!(actor.core.answered_at_ms, at_ms);
        assert_eq!(actor.core.last_status, status);
        assert!(actor.core.answer_in_progress);
        assert!(!actor.core.has_bridge);
        assert!(out.effects.is_empty());
    }
}

#[test]
fn refused_registration_and_bridge_stop_the_step() {
    let (mut actor, _) = connected(&domain());
    let mut out = refusing(TopologyAnswers {
        bridge_active: false,
        ..TopologyAnswers::all_accepted()
    });
    let started = MediaActionResult::AnswerMediaStarted {
        generation: actor.core.media_generation,
        recording_error: Some("disk is full".to_string()),
    };
    assert_eq!(
        actor.handle_media_action_result(&mut out, started, NOW_MS, NOW),
        Err(CallError::TopologyRefused)
    );
    assert_eq!(
        actor.core.recording_start_error.as_deref(),
        Some("disk is full")
    );
    assert!(out.effects.is_empty());

    let call = created(&["peer:8", "reg:3/7"], &domain());
    let mut actor = call.caller_actor;
    let mut out = outbox();
    actor.start(&mut out, call.callee_offer, NOW);
    let failed = leg_event(&actor, SessionRef::CalleeAttempt(1), 1, Some(503));
    peer(&mut actor, &mut out, "OutboundFailed", failed);
    let prepared = MediaActionResult::SdpPrepared {
        generation: actor.core.media_generation,
        purpose: PrepareSdpPurpose::CalleeAttemptOffer { attempt_seq: 2 },
        prepared: Some(sdp("second offer")),
    };
    actor
        .handle_media_action_result(&mut out, prepared, NOW_MS, NOW)
        .unwrap();
    let mut out = refusing(TopologyAnswers {
        attempt_registered: false,
        ..TopologyAnswers::all_accepted()
    });
    let second = session_id(&actor.plan.call_id, SessionRef::CalleeAttempt(2));
    let registered = AttemptRegistrationResult {
        attempt_seq: 2,
        session_id: second,
        registered: true,
    };
    assert_eq!(
        actor.handle_attempt_registration_result(&mut out, &registered, NOW),
        Err(CallError::TopologyRefused)
    );
    assert_eq!(actor.core.current_attempt_seq, 1);
    assert_eq!(actor.core.last_status, Some(503));
    assert!(actor.core.pending_attempt_registration.is_none());
    assert!(out.effects.is_empty());
}
