use voipswitchd::call::dtmf::{
    DigitCollectionOutcome, DigitCollectionResultCode, DigitSet, DtmfEventId, DtmfSourceGeneration,
    DtmfTransport,
};
use voipswitchd::call::dtmf_dispatch::{
    cancel_dtmf_operation, note_cancel, note_ready, note_result, start_dtmf_operation,
};
use voipswitchd::call::dtmf_operation::{
    all_digits, digit_char, format_digits, parse_digit_set, result_code, DtmfOperationError,
    DtmfOperationMode, DtmfOperationService, DtmfOperationSource, DtmfOperationSpec,
    DtmfOperationStatus, DtmfRuntimeOperation, DTMF_OPERATION_HISTORY_CAPACITY,
    DTMF_OPERATION_QUEUE_CAPACITY,
};
use voipswitchd::call::event::SipDtmfReceived;
use voipswitchd::call::mailbox::{CallCoordinatorHandle, EventMessage};
use voipswitchd::call::session::{SessionManager, COORDINATOR_EVENT_MAILBOX_CAPACITY};
use voipswitchd::dtmf::DtmfDigit;

const SECOND: u64 = 1_000_000_000;

fn spec() -> DtmfOperationSpec {
    DtmfOperationSpec {
        call_id: "call-a".to_string(),
        source: DtmfOperationSource::Caller,
        mode: DtmfOperationMode::Collect,
        allowed: all_digits(),
        min_digits: 1,
        max_digits: 1,
        terminators: DigitSet::new(),
        first_digit_timeout: SECOND,
        inter_digit_timeout: SECOND,
        overall_timeout: 2 * SECOND,
    }
}

#[test]
fn service_requires_runtime_and_retains_only_bounded_history() {
    let mut service = DtmfOperationService::new();
    assert!(service
        .start(spec(), 1)
        .unwrap_err()
        .text()
        .contains("ADAPTER_UNAVAILABLE"));
    let generation = service.attach_runtime();
    let mut first = None;
    for index in 0..=DTMF_OPERATION_HISTORY_CAPACITY {
        let mut spec = spec();
        spec.call_id = format!("call-{index}");
        let operation = service.start(spec, 2).unwrap();
        first.get_or_insert(operation.operation_id);
        service.queue.take(generation).unwrap();
    }
    assert!(service.get(first.as_deref().unwrap()).is_none());
}

#[test]
fn result_is_available_only_from_exact_operation_view() {
    let mut service = DtmfOperationService::new();
    let generation = service.attach_runtime();
    let operation = service.start(spec(), 1).unwrap();
    service.queue.take(generation).unwrap();
    service.mark_acquiring(&operation.operation_id, 2);
    service.mark_ready(&operation.operation_id, 4, 3);
    service.complete(
        &operation.operation_id,
        DigitCollectionOutcome {
            collector_id: operation.operation_id.clone(),
            code: DigitCollectionResultCode::Completed,
            digits: vec![DtmfDigit::D5],
            reason: None,
        },
        4,
    );
    let view = service.get(&operation.operation_id).unwrap();
    assert_eq!(view.status, DtmfOperationStatus::Completed);
    assert_eq!(view.media_generation, Some(4));
    assert_eq!(view.digits.as_deref(), Some("5"));
    assert_eq!(view.digit_count, 1);
}

#[test]
fn digit_set_parser_is_strict() {
    assert_eq!(parse_digit_set("5#A").unwrap().len(), 3);
    assert!(parse_digit_set("x").is_err());
}

#[test]
fn finished_operation_takes_no_change() {
    let mut service = DtmfOperationService::new();
    let generation = service.attach_runtime();
    let operation = service.start(spec(), 1).unwrap();
    service.queue.take(generation).unwrap();
    service.fail(&operation.operation_id, "gone".to_string(), 2);
    service.mark_ready(&operation.operation_id, 9, 3);
    let view = service.get(&operation.operation_id).unwrap();
    assert_eq!(view.status, DtmfOperationStatus::Failed);
    assert_eq!(view.reason.as_deref(), Some("gone"));
    assert_eq!(view.media_generation, None);
    assert_eq!(view.updated_at_ms, 2);
    assert_eq!(
        service.cancel(&operation.operation_id, 4).unwrap_err(),
        DtmfOperationError::AlreadyComplete
    );
    assert_eq!(
        service.cancel("unknown", 4).unwrap_err(),
        DtmfOperationError::NotFound
    );
}

#[test]
fn operation_queue_is_bounded_and_cancels_are_queued() {
    let mut service = DtmfOperationService::new();
    let generation = service.attach_runtime();
    let first = service.start(spec(), 1).unwrap();
    for _ in 1..DTMF_OPERATION_QUEUE_CAPACITY {
        service.start(spec(), 1).unwrap();
    }
    assert_eq!(
        service.start(spec(), 1).unwrap_err(),
        DtmfOperationError::QueueFull
    );
    assert!(matches!(
        service.queue.take(generation),
        Some(DtmfRuntimeOperation::Start { .. })
    ));
    let cancelled = service.cancel(&first.operation_id, 2).unwrap();
    assert_eq!(cancelled.status, DtmfOperationStatus::Cancelling);
}

#[test]
fn digits_are_written_as_letters() {
    assert_eq!(digit_char(DtmfDigit::Star), '*');
    assert_eq!(digit_char(DtmfDigit::Pound), '#');
    assert_eq!(
        format_digits(&vec![DtmfDigit::D0, DtmfDigit::B, DtmfDigit::Pound]),
        "0B#"
    );
    assert_eq!(
        result_code(DigitCollectionResultCode::Completed),
        "completed"
    );
}

fn sip_info_event(content_mode: DtmfTransport) -> SipDtmfReceived {
    SipDtmfReceived {
        domain_id: "domain-a".to_string(),
        call_id: "call-a".to_string(),
        session_id: "session-a".to_string(),
        adapter_call_leg_id: "17".to_string(),
        leg_event_seq: 9,
        dialog_generation: 17,
        cseq: 42,
        digit: DtmfDigit::D5,
        duration_ms: 180,
        content_mode,
        observed_at_ms: 123,
    }
}

#[test]
fn sip_info_maps_to_consistent_digit_identity() {
    let event = sip_info_event(DtmfTransport::SipInfoRelay)
        .into_digit_event()
        .expect("supported SIP INFO mode");

    assert!(event.identity_is_consistent());
    assert_eq!(event.domain_id.as_str(), "domain-a");
    assert_eq!(event.call_id.as_str(), "call-a");
    assert_eq!(event.source_session_id.as_str(), "session-a");
    assert_eq!(event.source_generation, DtmfSourceGeneration::Dialog(17));
    assert_eq!(event.duration_ms, 180);
    assert!(matches!(
        event.event_id,
        DtmfEventId::SipInfo {
            dialog_generation: 17,
            cseq: 42,
            ..
        }
    ));
}

#[test]
fn non_info_transport_is_not_accepted_as_sip_info() {
    assert!(sip_info_event(DtmfTransport::Rfc4733)
        .into_digit_event()
        .is_none());
}

fn manager() -> SessionManager<u32> {
    let mut manager = SessionManager::new();
    manager.register_caller("caller", "call-a", "leg-a", 1, CallCoordinatorHandle::new_pair("call-a"));
    manager
}

/// A service with one operation that waits to be started.
fn pending(service: &mut DtmfOperationService, spec: DtmfOperationSpec) -> String {
    service.attach_runtime();
    service.start(spec, 1).expect("start operation").operation_id
}

fn failure(service: &DtmfOperationService, operation_id: &str) -> Option<String> {
    let operation = service.get(operation_id).expect("operation");
    assert_eq!(operation.status, DtmfOperationStatus::Failed);
    operation.reason
}

#[test]
fn started_operation_waits_with_the_coordinator() {
    let mut manager = manager();
    let mut service = DtmfOperationService::new();
    let id = pending(&mut service, spec());
    assert!(start_dtmf_operation(&mut manager, &mut service, &id, spec(), 2));
    assert_eq!(service.get(&id).unwrap().status, DtmfOperationStatus::Acquiring);
    let coordinator = manager.coordinator_mailbox("call-a").expect("coordinator");
    match coordinator.event.take() {
        Some(EventMessage::StartDigitCollection { spec }) => {
            assert_eq!(spec.collector_id, id);
            assert_eq!(spec.owner, id);
            assert_eq!(spec.source_session_id, "caller");
            assert_eq!(spec.max_digits, 1);
            assert_eq!(spec.overall_timeout, 2 * SECOND);
        }
        _ => panic!("unexpected event"),
    }
    assert!(cancel_dtmf_operation(&mut manager, &mut service, &id, "call-a", 3));
    let coordinator = manager.coordinator_mailbox("call-a").expect("coordinator");
    match coordinator.event.take() {
        Some(EventMessage::CancelDigitCollection { collector_id }) => {
            assert_eq!(collector_id, id);
        }
        _ => panic!("unexpected event"),
    }
    assert!(note_ready(&mut service, &id, Some(Ok(7)), 4).is_none());
    assert_eq!(service.get(&id).unwrap().media_generation, Some(7));
    note_cancel(&mut service, &id, Some(Ok(())), 5);
    assert_eq!(service.get(&id).unwrap().status, DtmfOperationStatus::Ready);
    note_result(&mut service, &id, None, None, 6);
    assert_eq!(
        failure(&service, &id).as_deref(),
        Some("digit_collection_result_channel_closed")
    );
}

#[test]
fn operation_that_cannot_start_says_why() {
    let mut service = DtmfOperationService::new();
    let mut none: SessionManager<u32> = SessionManager::new();
    let id = pending(&mut service, spec());
    assert!(!start_dtmf_operation(&mut none, &mut service, &id, spec(), 2));
    assert_eq!(failure(&service, &id).as_deref(), Some("call_not_found"));

    let mut callee = spec();
    callee.source = DtmfOperationSource::Callee;
    let id = pending(&mut service, spec());
    assert!(!start_dtmf_operation(&mut manager(), &mut service, &id, callee, 2));
    assert_eq!(
        failure(&service, &id).as_deref(),
        Some("current_callee_not_found")
    );

    let mut closed = manager();
    closed.coordinator_mailbox("call-a").unwrap().control.close();
    let id = pending(&mut service, spec());
    assert!(!start_dtmf_operation(&mut closed, &mut service, &id, spec(), 2));
    assert_eq!(
        failure(&service, &id).as_deref(),
        Some("call_coordinator_not_found")
    );
    let id = pending(&mut service, spec());
    assert!(!cancel_dtmf_operation(&mut closed, &mut service, &id, "call-a", 2));
    assert_eq!(
        failure(&service, &id).as_deref(),
        Some("call_coordinator_not_found")
    );
    let id = pending(&mut service, spec());
    assert!(!cancel_dtmf_operation(&mut closed, &mut service, &id, "call-b", 2));
    assert_eq!(failure(&service, &id).as_deref(), Some("call_not_found"));

    let mut full = manager();
    for _ in 0..COORDINATOR_EVENT_MAILBOX_CAPACITY {
        let events = &mut full.coordinator_mailbox("call-a").unwrap().event;
        events.submit(EventMessage::QuerySessionSummary).unwrap();
    }
    let id = pending(&mut service, spec());
    assert!(!start_dtmf_operation(&mut full, &mut service, &id, spec(), 2));
    assert_eq!(
        failure(&service, &id).as_deref(),
        Some("call_coordinator_event_mailbox_full")
    );

    let id = pending(&mut service, spec());
    let error = note_ready(&mut service, &id, None, 2);
    assert_eq!(error.as_deref(), Some("digit_collection_ready_channel_closed"));
    note_result(&mut service, &id, None, error, 3);
    assert_eq!(
        failure(&service, &id).as_deref(),
        Some("digit_collection_ready_channel_closed")
    );
    let id = pending(&mut service, spec());
    note_cancel(&mut service, &id, None, 2);
    assert_eq!(
        failure(&service, &id).as_deref(),
        Some("digit_collection_cancel_channel_closed")
    );
}

#[test]
fn full_history_forgets_only_the_oldest() {
    let mut service = DtmfOperationService::new();
    assert_eq!(
        service.start(spec(), 1).unwrap_err().text(),
        "ADAPTER_UNAVAILABLE: adapter runtime is not connected"
    );
    let generation = service.attach_runtime();
    let mut ids: Vec<String> = Vec::new();
    for _ in 0..DTMF_OPERATION_HISTORY_CAPACITY {
        ids.push(service.start(spec(), 2).unwrap().operation_id);
        service.queue.take(generation).unwrap();
    }
    assert!(ids.iter().all(|id| service.get(id).is_some()));
    let newest = service.start(spec(), 3).unwrap();
    assert_eq!(newest.status, DtmfOperationStatus::Pending);
    assert!(service.get(&ids[0]).is_none());
    assert!(ids[1..].iter().all(|id| service.get(id).is_some()));
    assert!(service.get(&newest.operation_id).is_some());

    for _ in 1..DTMF_OPERATION_QUEUE_CAPACITY {
        ids.push(service.start(spec(), 4).unwrap().operation_id);
    }
    let oldest = service.order[0].clone();
    assert_eq!(
        service.start(spec(), 5).unwrap_err().text(),
        "RESOURCE_EXHAUSTED: DTMF operation queue is full"
    );
    assert_eq!(service.order[0], oldest);
    assert_eq!(service.order.len(), DTMF_OPERATION_HISTORY_CAPACITY);
}
