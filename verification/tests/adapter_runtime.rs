use voipswitchd::adapter::{
    address_digit, address_info_result, address_leg_event, answer_hello, attempt_result_lost,
    frame_kind, handle_attempt_registration, take_action_ack, unreadable_frame, Addressee,
    AttemptRegistration, FrameKind, HelloReply, InviteAdmission, InviteDecision, MirrorState,
    RuntimeEnvelope, CALL_ADMISSION_CAPACITY, RUNTIME_INBOUND_QUEUE_CAPACITY,
};
use voipswitchd::adapter_writer::{
    AdapterRuntimeWriter, QueueRefusal, WriteOutcome, ADAPTER_ACTION_QUEUE_CAPACITY,
    ADAPTER_WRITE_TIMEOUT_MS,
};
use voipswitchd::call::event::{AckResult, CallActionAck, CallActionAckStatus, CallLegEvent};
use voipswitchd::call::mailbox::CallCoordinatorHandle;
use voipswitchd::call::policy::{
    DomainRuntimeConfig, ExtensionConfig, RegisterAccountConfig, TrunkConfig,
};
use voipswitchd::call::session::SessionManager;
use voipswitchd::keyed::KeyedMap;
use voipswitchd::runtime_view::{
    build_sip_runtime_view, hash_bytes, view_request_id, ApplyRuntimeViewAck,
    ApplyRuntimeViewStatus, RuntimeConfig, RuntimeViewMode, ViewFault,
};

fn trunk(id: u64, name: &str, host: &str) -> TrunkConfig {
    TrunkConfig {
        id,
        name: name.to_string(),
        server_host: host.to_string(),
        server_is_address: true,
        server_port: 5060,
        outbound_proxy_host: None,
        proxy_is_address: false,
        outbound_proxy_port: None,
        transport: "udp".to_string(),
        keep_alive_seconds: 60,
        requested_expires_seconds: 300,
        enabled: true,
    }
}

fn runtime_config(endpoint_password: &str, account_password: &str) -> RuntimeConfig {
    let mut config = RuntimeConfig {
        version: 42,
        instance_id: "test".to_string(),
        sip_port: 5060,
        log_level: "info".to_string(),
        call_trace_enabled: false,
        domains: KeyedMap::new(),
    };
    config.put_domain(DomainRuntimeConfig {
        domain_id: "domain-a".to_string(),
        name: "Domain A".to_string(),
        realm: "example.com".to_string(),
        enabled: true,
        version: 1,
        extensions: vec![ExtensionConfig {
            id: 1,
            number: "1001".to_string(),
            auth_user: "1001".to_string(),
            password: endpoint_password.to_string(),
            enabled: true,
        }],
        peer_trunks: vec![trunk(1, "peer", "peer.example.com")],
        reg_trunks: vec![trunk(2, "reg", "reg.example.com")],
        reg_accounts: vec![RegisterAccountConfig {
            id: 3,
            reg_trunk_id: 2,
            auth_name: "account".to_string(),
            auth_pwd: account_password.to_string(),
            enabled: true,
        }],
        recording_policies: Vec::new(),
        ai_policies: Vec::new(),
    });
    config
}

#[test]
fn runtime_view_uses_flat_full_wire_shape() {
    let view = build_sip_runtime_view(&runtime_config("endpoint-secret", "account-secret"), 9);

    assert_eq!(view.view_revision, 42);
    assert_eq!(view.mode, RuntimeViewMode::Full);
    assert_eq!(view.domains.len(), 1);
    assert_eq!(view.endpoints.len(), 1);
    assert_eq!(view.peer_trunks.len(), 1);
    assert_eq!(view.reg_trunks.len(), 1);
    assert_eq!(view.reg_accounts.len(), 1);
    assert!(view.policy.reject_new_invite_when_overloaded);
}

#[test]
fn secret_changes_are_covered_by_object_hashes() {
    let original = build_sip_runtime_view(&runtime_config("endpoint-secret", "account-secret"), 1);
    let changed = build_sip_runtime_view(
        &runtime_config("new-endpoint-secret", "new-account-secret"),
        1,
    );

    assert_ne!(
        original.endpoints[0].config_hash,
        changed.endpoints[0].config_hash
    );
    assert_ne!(
        original.reg_accounts[0].config_hash,
        changed.reg_accounts[0].config_hash
    );
    assert_eq!(
        original.peer_trunks[0].config_hash,
        changed.peer_trunks[0].config_hash
    );
}

#[test]
fn hashes_are_taken_of_the_written_values() {
    assert_eq!(hash_bytes(b""), 0xcbf2_9ce4_8422_2325);
    assert_eq!(hash_bytes(b"a"), 0xaf63_dc4c_8601_ec8c);
    let view = build_sip_runtime_view(&runtime_config("p\"w", "account-secret"), 1);
    assert_eq!(
        view.domains[0].config_hash,
        hash_bytes(br#"["example.com",[]]"#)
    );
    assert_eq!(
        view.endpoints[0].config_hash,
        hash_bytes(br#"["1001","1001","p\"w"]"#)
    );
    assert_eq!(
        view.peer_trunks[0].config_hash,
        hash_bytes(br#"["peer.example.com",5060,null,null,"udp",60,true]"#)
    );
    assert_eq!(
        view.reg_trunks[0].config_hash,
        hash_bytes(br#"["reg.example.com",5060,null,null,"udp",60,300,true]"#)
    );
    assert_eq!(
        view.reg_accounts[0].config_hash,
        hash_bytes(br#"[2,"account","account-secret",true]"#)
    );
    let tuple = ("1001".to_string(), "1001".to_string(), "p\"w".to_string());
    assert_eq!(
        view.endpoints[0].config_hash,
        hash_bytes(&serde_json::to_vec(&tuple).unwrap())
    );
}

#[test]
fn only_what_is_used_is_shown() {
    let mut config = runtime_config("a", "b");
    let domain = config.domains.get_mut("domain-a").unwrap();
    domain.extensions[0].enabled = false;
    domain.peer_trunks[0].enabled = false;
    let view = build_sip_runtime_view(&config, 1);
    assert!(view.endpoints.is_empty());
    assert_eq!(view.peer_trunks.len(), 1);
    assert!(!view.peer_trunks[0].enabled);
    config.domains.get_mut("domain-a").unwrap().enabled = false;
    let view = build_sip_runtime_view(&config, 1);
    assert!(view.domains.is_empty());
    assert!(view.peer_trunks.is_empty());
    assert_eq!(view_request_id(42, 7), "runtime-view-42-7");
}

#[test]
fn answer_to_a_view_is_judged() {
    let ack = |view_revision: u64, status: ApplyRuntimeViewStatus| ApplyRuntimeViewAck {
        view_revision,
        status,
        applied_at_ms: 1,
        errors: Vec::new(),
    };
    assert_eq!(ack(4, ApplyRuntimeViewStatus::Accepted).judge(4), Ok(()));
    assert_eq!(ack(3, ApplyRuntimeViewStatus::Stale).judge(4), Ok(()));
    assert_eq!(ack(4, ApplyRuntimeViewStatus::Partial).judge(4), Ok(()));
    assert_eq!(
        ack(4, ApplyRuntimeViewStatus::Rejected).judge(4),
        Err(ViewFault::Rejected(4))
    );
    assert_eq!(
        ack(5, ApplyRuntimeViewStatus::Accepted)
            .judge(4)
            .unwrap_err()
            .text(),
        "adapter acked unsent runtime revision 5"
    );
}

#[test]
fn action_queue_capacity_is_sized_for_runtime_bursts() {
    assert_eq!(ADAPTER_ACTION_QUEUE_CAPACITY, 50_000);
    assert_eq!(RUNTIME_INBOUND_QUEUE_CAPACITY, 50_000);
    assert_eq!(ADAPTER_WRITE_TIMEOUT_MS, 5_000);
}

#[test]
fn action_queue_is_bounded() {
    let writer = AdapterRuntimeWriter::new(3);
    assert_eq!(writer.capacity, 3);
}

#[test]
fn writes_runtime_frames_in_enqueue_order() {
    let mut writer = AdapterRuntimeWriter::new(2);
    writer.try_send(1).unwrap();
    writer.try_send(2).unwrap();
    for ticket in [1, 2] {
        assert_eq!(writer.next(), Some(ticket));
        let told = writer.after_write(ticket, WriteOutcome::Written);
        assert_eq!(told.len(), 1);
        assert_eq!(told[0].ticket, ticket);
        assert!(told[0].fault.is_none());
    }
    assert_eq!(writer.next(), None);
}

#[test]
fn reports_closed_runtime_connection() {
    let mut writer = AdapterRuntimeWriter::new(1);
    writer.try_send(1).unwrap();
    let ticket = writer.next().unwrap();
    let told = writer.after_write(ticket, WriteOutcome::Failed);
    assert!(told[0]
        .fault
        .as_deref()
        .unwrap()
        .contains("write adapter runtime frame"));
    assert_eq!(
        writer.try_send(2).unwrap_err().text(),
        "adapter runtime writer stopped"
    );
}

#[test]
fn enforces_runtime_write_deadline() {
    let mut writer = AdapterRuntimeWriter::new(1);
    writer.try_send(1).unwrap();
    let ticket = writer.next().unwrap();
    let told = writer.after_write(
        ticket,
        WriteOutcome::TimedOut {
            allowed: "10ms".to_string(),
        },
    );
    assert_eq!(
        told[0].fault.as_deref(),
        Some("adapter runtime write timed out after 10ms")
    );
    assert!(writer.stopped);
}

#[test]
fn frames_behind_a_lost_one_are_lost() {
    let mut writer = AdapterRuntimeWriter::new(5);
    for ticket in 1..=3 {
        writer.try_send(ticket).unwrap();
    }
    let first = writer.next().unwrap();
    let told = writer.after_write(first, WriteOutcome::Failed);
    assert_eq!(
        told.iter().map(|done| done.ticket).collect::<Vec<_>>(),
        vec![1, 2, 3]
    );
    assert!(told.iter().all(|done| done.fault.is_some()));
}

#[test]
fn try_send_reports_full_without_waiting() {
    let mut writer = AdapterRuntimeWriter::new(1);
    writer.try_send(1).expect("first request fits");

    let error = writer
        .try_send(2)
        .expect_err("second request must observe capacity");
    assert_eq!(error, QueueRefusal::Full);
    assert!(error.text().contains("queue full"));
}

#[test]
fn adapter_has_to_introduce_itself() {
    match answer_hello("Ping", "core-1", 5) {
        HelloReply::Refused { code, message } => {
            assert_eq!(code, "expected_adapter_hello");
            assert_eq!(message, "first frame must be AdapterHello");
        }
        HelloReply::Accepted(_) => panic!("no introduction"),
    }
    match answer_hello("AdapterHello", "core-1", 5) {
        HelloReply::Accepted(hello) => {
            assert_eq!(hello.core_session_id, "core-1-5");
            assert_eq!(hello.protocol_version, 1);
            assert_eq!(hello.heartbeat_interval_ms, 5000);
            assert_eq!(hello.write_timeout_ms, 100);
        }
        HelloReply::Refused { .. } => panic!("introduced"),
    }
}

#[test]
fn envelope_has_the_protocol_version() {
    let envelope = RuntimeEnvelope::new(
        "event",
        "First",
        Some("one".to_string()),
        serde_json::Value::Null,
        77,
    );
    assert_eq!(envelope.version, 1);
    assert_eq!(envelope.kind, "event");
    assert_eq!(envelope.frame_type, "First");
    assert_eq!(envelope.domain_id, None);
    assert_eq!(envelope.timestamp_ms, 77);
    assert!(envelope.body.is_null());
}

#[test]
fn frames_are_told_apart() {
    assert_eq!(frame_kind("InboundInviteOffered"), FrameKind::InviteOffered);
    assert_eq!(frame_kind("DialogDisconnected"), FrameKind::LegEvent);
    assert_eq!(frame_kind("CallActionAck"), FrameKind::CallActionAck);
    assert_eq!(frame_kind("SipTraceObserved"), FrameKind::SipTraceObserved);
    assert_eq!(frame_kind("Unknown"), FrameKind::Other);
    assert_eq!(
        unreadable_frame("AdapterReady").as_deref(),
        Some("decode AdapterReady")
    );
    assert_eq!(
        unreadable_frame("OutboundFailed").as_deref(),
        Some("decode OutboundFailed")
    );
    assert_eq!(unreadable_frame("SipDtmfReceived"), None);
    assert_eq!(unreadable_frame("CallActionAck"), None);
}

#[test]
fn mirror_is_complete_after_the_snapshot() {
    let mut mirror = MirrorState {
        registrations_ready: true,
        trunks_ready: false,
    };
    mirror.take_frame(FrameKind::AdapterReady);
    assert!(!mirror.registrations_ready);
    assert!(mirror.trunks_ready);
    mirror.take_frame(FrameKind::RegistrationSnapshotEnd);
    assert!(mirror.registrations_ready);
    assert!(!mirror.adapter_left(1));
    assert!(mirror.registrations_ready);
    assert!(mirror.adapter_left(0));
    assert!(!mirror.trunks_ready);
}

#[test]
fn offers_are_taken_up_once_and_not_too_many() {
    let mut admission = InviteAdmission::new();
    assert_eq!(admission.offer("leg-0"), InviteDecision::TakeUp);
    assert_eq!(admission.offer("leg-0"), InviteDecision::Duplicate);
    for index in 1..CALL_ADMISSION_CAPACITY {
        assert_eq!(
            admission.offer(&format!("leg-{index}")),
            InviteDecision::TakeUp
        );
    }
    assert_eq!(admission.offer("late"), InviteDecision::Overloaded);
    assert_eq!(admission.offer("leg-0"), InviteDecision::Duplicate);
    admission.release_permit();
    assert_eq!(admission.offer("late"), InviteDecision::TakeUp);
    admission.finished("leg-0");
    admission.release_permit();
    assert_eq!(admission.offer("leg-0"), InviteDecision::TakeUp);
}

fn manager() -> SessionManager<u32> {
    let mut manager = SessionManager::new();
    manager.register_caller("caller", "call-a", "leg-a", 1, CallCoordinatorHandle::new_pair("call-a"));
    manager.register_callee("callee-1", "call-a", 2);
    manager
}

fn leg_event(session: Option<&str>, leg: &str) -> CallLegEvent {
    CallLegEvent {
        call_id: None,
        session_id: session.map(str::to_string),
        adapter_call_leg_id: leg.to_string(),
        leg_event_seq: 1,
        status_code: None,
        sdp: None,
        reason: None,
    }
}

fn action_ack(session: &str, kind: &str, leg: Option<&str>) -> CallActionAck {
    CallActionAck {
        call_id: "call-a".to_string(),
        session_id: session.to_string(),
        action_kind: kind.to_string(),
        action_id: "action".to_string(),
        generation: 1,
        status: CallActionAckStatus::Accepted,
        result: AckResult {
            original_status: None,
            message: None,
            adapter_call_leg_id: leg.map(str::to_string),
        },
    }
}

#[test]
fn frames_find_their_session() {
    let mut manager = manager();
    assert!(matches!(
        address_leg_event(&manager, &leg_event(None, "leg-a")),
        Addressee::Session(session) if session == "caller"
    ));
    assert!(matches!(
        address_leg_event(&manager, &leg_event(Some("gone"), "leg-a")),
        Addressee::Nobody
    ));
    assert!(matches!(
        take_action_ack(
            &mut manager,
            &action_ack("callee-1", "OriginateTrunk", Some("leg-b"))
        ),
        Addressee::Session(session) if session == "callee-1"
    ));
    assert!(matches!(
        address_leg_event(&manager, &leg_event(None, "leg-b")),
        Addressee::Session(session) if session == "callee-1"
    ));
    assert!(matches!(
        take_action_ack(&mut manager, &action_ack("caller", "HangupDialog", None)),
        Addressee::Coordinator(call) if call == "call-a"
    ));
    assert!(matches!(
        address_digit(&manager, "callee-1"),
        Addressee::Session(_)
    ));
    assert!(matches!(
        address_info_result(&manager, "call-x"),
        Addressee::Nobody
    ));
}

fn registration(generation: u64) -> AttemptRegistration<u32> {
    AttemptRegistration {
        call_id: "call-a".to_string(),
        coordinator_session_id: "caller".to_string(),
        coordinator_generation: generation,
        previous_session_id: "callee-1".to_string(),
        attempt_seq: 2,
        session_id: "callee-2".to_string(),
        handle: 3,
    }
}

#[test]
fn owner_replaces_the_session_of_an_attempt() {
    let mut manager = manager();
    let done = handle_attempt_registration(&mut manager, registration(1));
    assert_eq!(done.previous, Some(2));
    assert!(done.result.unwrap().registered);
    assert_eq!(manager.lookup_by_session("callee-2"), Some(&3));
    assert!(manager.lookup_by_session("callee-1").is_none());
    assert_eq!(attempt_result_lost(&mut manager, "callee-2"), Some(3));
    assert!(manager.lookup_by_session("callee-2").is_none());
}

#[test]
fn former_owner_registers_nothing() {
    let mut manager = manager();
    let done = handle_attempt_registration(&mut manager, registration(9));
    assert_eq!(done.previous, None);
    assert!(!done.result.unwrap().registered);
    assert!(manager.lookup_by_session("callee-1").is_some());
    manager.destroy_call("call-a");
    assert!(handle_attempt_registration(&mut manager, registration(1))
        .result
        .is_none());
}

#[test]
fn acknowledgement_reads_what_stands_beside_its_status() {
    let body: serde_json::Value = serde_json::from_str(
        "{\"original_status\":\"accepted\",\"message\":7,\"data\":{\"adapter_call_leg_id\":\"leg-9\"}}",
    )
    .expect("result of an action");
    let result = AckResult::read(&body);
    assert_eq!(result.original_status.as_deref(), Some("accepted"));
    assert_eq!(result.message, None);
    assert_eq!(result.adapter_call_leg_id.as_deref(), Some("leg-9"));
    let mut ack = action_ack("caller", "OriginateEndpoint", None);
    ack.status = CallActionAckStatus::Duplicate;
    ack.result = result;
    assert!(ack.accepted());
    assert_eq!(ack.adapter_call_leg_id(), Some("leg-9"));

    let result = AckResult::read(&serde_json::Value::Null);
    assert_eq!(result.original_status, None);
    assert_eq!(result.adapter_call_leg_id, None);
    ack.result = result;
    assert!(!ack.accepted());
    assert_eq!(ack.adapter_call_leg_id(), None);
}

#[test]
fn attempt_of_a_closed_coordinator_is_not_registered() {
    let mut manager = manager();
    manager.coordinator_mailbox("call-a").unwrap().control.close();
    let done = handle_attempt_registration(
        &mut manager,
        AttemptRegistration {
            call_id: "call-a".to_string(),
            coordinator_session_id: "caller".to_string(),
            coordinator_generation: 1,
            previous_session_id: "callee-attempt-1".to_string(),
            attempt_seq: 2,
            session_id: "callee-attempt-2".to_string(),
            handle: 9,
        },
    );
    assert!(done.previous.is_none());
    assert!(done.result.is_none());
    assert!(manager.lookup_by_session("callee-attempt-2").is_none());
    assert!(matches!(
        address_info_result(&manager, "call-a"),
        Addressee::Nobody
    ));
}

#[test]
fn domains_are_shown_in_the_order_of_their_ids() {
    let mut config = runtime_config("a", "b");
    for (id, realm) in [("domain-c", "c"), ("domain-b", "old"), ("domain-b", "new")] {
        config.put_domain(DomainRuntimeConfig {
            domain_id: id.to_string(),
            name: id.to_string(),
            realm: realm.to_string(),
            enabled: true,
            version: 1,
            extensions: Vec::new(),
            peer_trunks: Vec::new(),
            reg_trunks: Vec::new(),
            reg_accounts: Vec::new(),
            recording_policies: Vec::new(),
            ai_policies: Vec::new(),
        });
    }
    let view = build_sip_runtime_view(&config, 1);
    let shown: Vec<(&str, &str)> = view
        .domains
        .iter()
        .map(|domain| (domain.domain_id.as_str(), domain.realm.as_str()))
        .collect();
    assert_eq!(
        shown,
        vec![
            ("domain-a", "example.com"),
            ("domain-b", "new"),
            ("domain-c", "c")
        ]
    );
}
