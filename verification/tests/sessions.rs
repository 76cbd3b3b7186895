use voipswitchd::call::actor::ControlMessage;
use voipswitchd::call::dtmf::{DigitCollectionMode, DigitCollectionSpec, DigitSet};
use voipswitchd::call::handoff::{
    begin_coordinator_handoff, commit_ready_handoff, finish_coordinator_handoff,
    may_prepare_handoff, CoordinatorHandoffService, HandoffFailure, HandoffRefusal,
    HandoffRequestError, HandoffSource, HandoffTarget, HANDOFF_REQUEST_CAPACITY,
};
use voipswitchd::call::mailbox::{
    CallCoordinatorHandle, CriticalControlDispatcher, Delivery, DispatchResult, EventMessage,
    SessionHandle,
};
use voipswitchd::call::session::{
    submit_error_code, CoordinatorHandoffError, CoordinatorHandoffToken, CoordinatorRegistration,
    Mailbox, SessionManager, SubmitError, CONTROL_MAILBOX_CAPACITY,
    COORDINATOR_CONTROL_MAILBOX_CAPACITY, COORDINATOR_EVENT_MAILBOX_CAPACITY,
    CRITICAL_DISPATCHER_CAPACITY, EVENT_MAILBOX_CAPACITY,
};
use voipswitchd::dtmf::DtmfDigit;

type Manager = SessionManager<u32>;

fn with_call() -> Manager {
    let mut manager = Manager::new();
    manager.register_caller("caller", "call-a", "leg-a", 1, CallCoordinatorHandle::new_pair("call-a"));
    manager.register_callee("callee", "call-a", 2);
    manager
}

#[test]
fn destroy_call_removes_all_session_and_leg_indexes() {
    let mut manager = with_call();

    manager.destroy_call("call-a");

    assert!(manager.lookup_by_session("caller").is_none());
    assert!(manager.lookup_by_session("callee").is_none());
    assert!(manager.lookup_by_adapter_leg("leg-a").is_none());
}

#[test]
fn destroyed_call_leaves_the_others() {
    let mut manager = with_call();
    manager.register_caller("other", "call-b", "leg-b", 3, CallCoordinatorHandle::new_pair("call-b"));

    manager.destroy_call("call-a");

    assert_eq!(manager.lookup_by_session("other"), Some(&3));
    assert_eq!(manager.lookup_by_adapter_leg("leg-b"), Some("other"));
    assert_eq!(manager.coordinator_session("call-b"), Some("other"));
    assert_eq!(manager.coordinator_session("call-a"), None);
}

#[test]
fn replacing_callee_attempt_preserves_caller_coordinator() {
    let mut manager = Manager::new();
    manager.register_caller("caller", "call-a", "leg-a", 1, CallCoordinatorHandle::new_pair("call-a"));
    manager.register_callee("callee-attempt-1", "call-a", 2);

    let removed = manager.unregister_session("callee-attempt-1");
    manager.register_callee("callee-attempt-2", "call-a", 3);

    assert!(removed.is_some());
    assert!(manager.lookup_by_session("callee-attempt-1").is_none());
    assert!(manager.lookup_by_session("callee-attempt-2").is_some());
    assert!(manager.lookup_by_session("caller").is_some());
    assert_eq!(manager.coordinator_session("call-a"), Some("caller"));
    assert_eq!(manager.caller_session("call-a"), Some("caller"));
    let identity = manager.coordinator_identity("call-a").unwrap();
    assert_eq!(identity.session_id, "caller");
    assert_eq!(identity.generation, 1);
    assert!(manager.coordinator_handle("call-a").is_some());
    assert_eq!(manager.lookup_by_adapter_leg("leg-a"), Some("caller"));
}

#[test]
fn adapter_leg_binding_follows_current_callee_attempt() {
    let mut manager = Manager::new();
    manager.register_callee("callee-attempt-1", "call-a", 2);

    assert!(manager.bind_adapter_leg("callee-attempt-1", "leg-a"));
    assert_eq!(
        manager.lookup_by_adapter_leg("leg-a"),
        Some("callee-attempt-1")
    );

    assert!(manager.bind_adapter_leg("callee-attempt-1", "leg-b"));
    assert!(manager.lookup_by_adapter_leg("leg-a").is_none());
    assert_eq!(
        manager.lookup_by_adapter_leg("leg-b"),
        Some("callee-attempt-1")
    );

    manager.unregister_session("callee-attempt-1");
    assert!(manager.lookup_by_adapter_leg("leg-b").is_none());
    assert!(!manager.bind_adapter_leg("callee-attempt-1", "leg-c"));
}

#[test]
fn coordinator_handoff_commits_only_after_prepare() {
    let mut manager = with_call();

    assert!(manager.coordinator_handle("call-a").is_some());
    manager
        .coordinator_mailbox("call-a")
        .expect("coordinator handle")
        .control
        .submit(ControlMessage::Shutdown)
        .expect("enqueue before prepare");
    let token = manager
        .prepare_coordinator_handoff("call-a", "caller", 1, "callee")
        .expect("prepare handoff");
    assert_eq!(manager.coordinator_session("call-a"), Some("caller"));
    assert_eq!(token.target_generation, 2);

    let identity = manager.commit_coordinator_handoff(&token).expect("commit");
    assert_eq!(identity.session_id, "callee");
    assert_eq!(identity.generation, 2);
    assert_eq!(manager.coordinator_session("call-a"), Some("callee"));
    assert!(manager.coordinator_handle("call-a").is_some());
    let mailbox = manager
        .coordinator_mailbox("call-a")
        .expect("coordinator handle after commit");
    mailbox
        .control
        .submit(ControlMessage::CallFinalized)
        .expect("enqueue after commit");
    assert!(matches!(
        mailbox.control.take(),
        Some(ControlMessage::Shutdown)
    ));
    assert!(matches!(
        mailbox.control.take(),
        Some(ControlMessage::CallFinalized)
    ));
}

#[test]
fn coordinator_handoff_rejects_stale_owner_and_concurrent_prepare() {
    let mut manager = with_call();

    assert_eq!(
        manager
            .prepare_coordinator_handoff("call-a", "caller", 2, "callee")
            .unwrap_err(),
        CoordinatorHandoffError::StaleOwner
    );
    let token = manager
        .prepare_coordinator_handoff("call-a", "caller", 1, "callee")
        .expect("prepare handoff");
    assert_eq!(
        manager
            .prepare_coordinator_handoff("call-a", "caller", 1, "callee")
            .unwrap_err(),
        CoordinatorHandoffError::HandoffInProgress
    );
    manager
        .abort_coordinator_handoff(&token)
        .expect("abort handoff");
    assert_eq!(manager.coordinator_session("call-a"), Some("caller"));
    manager
        .prepare_coordinator_handoff("call-a", "caller", 1, "callee")
        .expect("prepare after rollback");
}

#[test]
fn handoff_needs_another_session_of_the_same_call() {
    let mut manager = with_call();
    manager.register_callee("stranger", "call-b", 4);
    for target in ["caller", "stranger", "nobody"] {
        assert_eq!(
            manager
                .prepare_coordinator_handoff("call-a", "caller", 1, target)
                .unwrap_err(),
            CoordinatorHandoffError::InvalidTarget
        );
    }
    assert_eq!(
        manager
            .prepare_coordinator_handoff("call-c", "caller", 1, "callee")
            .unwrap_err(),
        CoordinatorHandoffError::CallNotFound
    );
}

#[test]
fn committed_handoff_rolls_back_only_from_matching_target_generation() {
    let mut manager = with_call();
    let token = manager
        .prepare_coordinator_handoff("call-a", "caller", 1, "callee")
        .expect("prepare handoff");
    manager
        .commit_coordinator_handoff(&token)
        .expect("commit handoff");

    let stale = CoordinatorHandoffToken {
        target_generation: token.target_generation.saturating_add(1),
        ..token.clone()
    };
    assert_eq!(
        manager
            .rollback_committed_coordinator_handoff(&stale)
            .unwrap_err(),
        CoordinatorHandoffError::StaleOwner
    );
    assert_eq!(manager.coordinator_session("call-a"), Some("callee"));
    let identity = manager
        .rollback_committed_coordinator_handoff(&token)
        .expect("roll back");
    assert_eq!(identity.session_id, "caller");
    assert_eq!(identity.generation, 1);
    assert_eq!(manager.coordinator_session("call-a"), Some("caller"));
}

#[test]
fn committed_handoff_cannot_restore_a_destroyed_source() {
    let mut manager = with_call();
    let token = manager
        .prepare_coordinator_handoff("call-a", "caller", 1, "callee")
        .expect("prepare handoff");
    manager
        .commit_coordinator_handoff(&token)
        .expect("commit handoff");
    manager.unregister_session("caller");

    assert_eq!(
        manager
            .rollback_committed_coordinator_handoff(&token)
            .unwrap_err(),
        CoordinatorHandoffError::InvalidTarget
    );
    assert_eq!(manager.coordinator_session("call-a"), Some("callee"));
}

#[test]
fn coordinator_handoff_cannot_commit_after_target_disappears() {
    let mut manager = with_call();
    let token = manager
        .prepare_coordinator_handoff("call-a", "caller", 1, "callee")
        .expect("prepare handoff");

    manager.unregister_session("callee");
    assert_eq!(
        manager.commit_coordinator_handoff(&token).unwrap_err(),
        CoordinatorHandoffError::TokenMismatch
    );
    assert_eq!(manager.coordinator_session("call-a"), Some("caller"));
}

#[test]
fn coordinator_handoff_rejects_generation_overflow() {
    let mut manager = with_call();
    let at = manager.call_coordinators.find("call-a").unwrap();
    manager.call_coordinators.set_at(
        at,
        CoordinatorRegistration {
            session_id: "caller".to_string(),
            generation: u64::MAX,
            handle: CallCoordinatorHandle::new_pair("call-a"),
        },
    );

    assert_eq!(
        manager
            .prepare_coordinator_handoff("call-a", "caller", u64::MAX, "callee")
            .unwrap_err(),
        CoordinatorHandoffError::GenerationExhausted
    );
    assert_eq!(manager.coordinator_session("call-a"), Some("caller"));
}

#[test]
fn dispatcher_capacity_is_sized_for_runtime_bursts() {
    assert_eq!(CRITICAL_DISPATCHER_CAPACITY, 50_000);
}

#[test]
fn refused_events_are_reported_by_code() {
    assert_eq!(
        submit_error_code(Mailbox::Session, SubmitError::Full),
        "session_event_mailbox_full"
    );
    assert_eq!(
        submit_error_code(Mailbox::Session, SubmitError::Closed),
        "session_gone"
    );
    assert_eq!(
        submit_error_code(Mailbox::Coordinator, SubmitError::Full),
        "call_coordinator_event_mailbox_full"
    );
    assert_eq!(
        submit_error_code(Mailbox::Coordinator, SubmitError::Closed),
        "call_coordinator_gone"
    );
}

#[test]
fn service_is_bounded_and_detaches_by_generation() {
    let mut service = CoordinatorHandoffService::new();
    assert!(service
        .request_owner_exit_handoff("call-a".to_string(), "callee-a".to_string())
        .is_err());
    let generation = service.attach_runtime();
    for sequence in 0..HANDOFF_REQUEST_CAPACITY {
        service
            .request_owner_exit_handoff("call-a".to_string(), format!("callee-{sequence}"))
            .expect("queue request");
    }
    assert_eq!(
        service
            .request_owner_exit_handoff("call-a".to_string(), "overflow".to_string())
            .expect_err("bounded queue must reject overflow")
            .text(),
        "RESOURCE_EXHAUSTED: coordinator handoff queue is full"
    );
    service.detach_runtime(generation.saturating_add(1));
    assert_eq!(
        service
            .request_owner_exit_handoff("call-b".to_string(), "callee-b".to_string())
            .expect_err("old generation must remain attached")
            .text(),
        "RESOURCE_EXHAUSTED: coordinator handoff queue is full"
    );
    service.detach_runtime(generation);
    assert_eq!(
        service.request_owner_exit_handoff("call-c".to_string(), "callee-c".to_string()),
        Err(HandoffRequestError::Unconnected)
    );
}

fn source() -> HandoffSource {
    HandoffSource {
        call_id: "call-a".to_string(),
        owned_session_id: "caller".to_string(),
        coordinator_session_id: "caller".to_string(),
        coordinator_generation: 1,
        handle_call_id: "call-a".to_string(),
    }
}

fn target() -> HandoffTarget {
    HandoffTarget {
        call_id: "call-a".to_string(),
        session_id: "callee".to_string(),
        terminal: false,
        handle_call_id: "call-a".to_string(),
    }
}

#[test]
fn finished_handoff_moves_the_call() {
    let mut manager = with_call();
    let token = begin_coordinator_handoff(&mut manager, 1, "call-a", "callee").expect("begin");
    assert!(may_prepare_handoff(
        &source(),
        &token,
        &vec!["callee".to_string()]
    ));
    commit_ready_handoff(&mut manager, &token, Ok(source()), Ok(target())).expect("commit");
    finish_coordinator_handoff(&mut manager, &token, Ok(2)).expect("finish");
    assert_eq!(manager.coordinator_session("call-a"), Some("callee"));
}

#[test]
fn failed_handoff_changes_nothing() {
    let mut manager = with_call();
    let token = begin_coordinator_handoff(&mut manager, 1, "call-a", "callee").expect("begin");
    let mut gone = target();
    gone.terminal = true;
    assert!(commit_ready_handoff(&mut manager, &token, Ok(source()), Ok(gone)).is_err());
    assert_eq!(manager.coordinator_session("call-a"), Some("caller"));

    let token = begin_coordinator_handoff(&mut manager, 1, "call-a", "callee").expect("again");
    commit_ready_handoff(&mut manager, &token, Ok(source()), Ok(target())).expect("commit");
    assert!(matches!(
        finish_coordinator_handoff(&mut manager, &token, Err("refused".to_string())),
        Err(HandoffFailure::Refused(_))
    ));
    assert_eq!(manager.coordinator_session("call-a"), Some("caller"));
}

#[test]
fn handoff_needs_a_permit() {
    let mut manager = with_call();
    assert_eq!(
        begin_coordinator_handoff(&mut manager, 0, "call-a", "callee").unwrap_err(),
        HandoffRefusal::CapacityExhausted
    );
    assert_eq!(
        begin_coordinator_handoff(&mut manager, 1, "call-x", "callee").unwrap_err(),
        HandoffRefusal::CallNotFound
    );
}

fn collection_spec() -> DigitCollectionSpec {
    let mut allowed = DigitSet::new();
    allowed.insert(DtmfDigit::D5);
    let mut terminators = DigitSet::new();
    terminators.insert(DtmfDigit::Pound);
    DigitCollectionSpec {
        collector_id: "collector-a".to_string(),
        owner: "operation-a".to_string(),
        source_session_id: "caller-a".to_string(),
        mode: DigitCollectionMode::Collect,
        allowed,
        min_digits: 1,
        max_digits: 4,
        terminators,
        first_digit_timeout: 5_000_000_000,
        inter_digit_timeout: 3_000_000_000,
        overall_timeout: 20_000_000_000,
    }
}

#[test]
fn session_mailboxes_have_documented_bounds() {
    let mut handle = SessionHandle::new_pair();
    for _ in 0..CONTROL_MAILBOX_CAPACITY {
        handle
            .control
            .submit(ControlMessage::Shutdown)
            .expect("control mailbox capacity");
    }
    assert!(matches!(
        handle.control.submit(ControlMessage::Shutdown),
        Err(SubmitError::Full)
    ));

    for _ in 0..EVENT_MAILBOX_CAPACITY {
        handle
            .try_post_event(EventMessage::QuerySessionSummary)
            .expect("event mailbox capacity");
    }
    assert!(matches!(
        handle.try_post_event(EventMessage::QuerySessionSummary),
        Err(SubmitError::Full)
    ));
}

#[test]
fn coordinator_mailbox_is_stable_and_bounded() {
    let mut handle = CallCoordinatorHandle::new_pair("call-a");
    assert_eq!(handle.call_id(), "call-a");
    for _ in 0..COORDINATOR_CONTROL_MAILBOX_CAPACITY {
        handle
            .control
            .submit(ControlMessage::Shutdown)
            .expect("coordinator control mailbox capacity");
    }
    assert!(matches!(
        handle.control.submit(ControlMessage::CallFinalized),
        Err(SubmitError::Full)
    ));
    for _ in 0..COORDINATOR_CONTROL_MAILBOX_CAPACITY {
        assert!(matches!(
            handle.control.take(),
            Some(ControlMessage::Shutdown)
        ));
    }
    assert!(handle.control.take().is_none());
    assert!(!handle.is_closed());
    handle.event.close();
    assert!(handle.is_closed());
}

#[test]
fn session_handle_queues_digit_collections() {
    let mut handle = SessionHandle::new_pair();
    handle
        .start_digit_collection(collection_spec())
        .expect("submit digit collection");
    handle
        .cancel_digit_collection("collector-a".to_string())
        .expect("submit cancellation");
    match handle.event.take() {
        Some(EventMessage::StartDigitCollection { spec }) => {
            assert_eq!(spec.collector_id, "collector-a");
        }
        _ => panic!("unexpected session event"),
    }
    match handle.event.take() {
        Some(EventMessage::CancelDigitCollection { collector_id }) => {
            assert_eq!(collector_id, "collector-a");
        }
        _ => panic!("unexpected session event"),
    }
    handle.event.close();
    assert_eq!(
        handle.start_digit_collection(collection_spec()),
        Err("session_gone".to_string())
    );
    let mut coordinator = CallCoordinatorHandle::new_pair("call-a");
    for _ in 0..COORDINATOR_EVENT_MAILBOX_CAPACITY {
        coordinator
            .cancel_digit_collection("collector-a".to_string())
            .expect("event mailbox capacity");
    }
    assert_eq!(
        coordinator.cancel_digit_collection("collector-a".to_string()),
        Err("call_coordinator_event_mailbox_full".to_string())
    );
}

#[test]
fn dispatcher_preserves_order_when_actor_mailbox_is_full() {
    let mut handle = SessionHandle::new_pair();
    for _ in 0..CONTROL_MAILBOX_CAPACITY {
        handle
            .control
            .submit(ControlMessage::Shutdown)
            .expect("fill actor control mailbox");
    }
    let mut dispatcher = CriticalControlDispatcher::new();
    assert!(matches!(
        dispatcher.dispatch("session-a", false, ControlMessage::CallFinalized),
        DispatchResult::Queued
    ));
    assert!(matches!(
        dispatcher.dispatch("session-a", false, ControlMessage::Shutdown),
        DispatchResult::Queued
    ));
    assert_eq!(dispatcher.next_target(), Some("session-a".to_string()));
    assert_eq!(dispatcher.deliver(&mut handle.control), Delivery::Waiting);

    for _ in 0..CONTROL_MAILBOX_CAPACITY {
        handle.control.take().expect("filled control message");
    }
    assert_eq!(dispatcher.deliver(&mut handle.control), Delivery::Delivered);
    assert_eq!(dispatcher.deliver(&mut handle.control), Delivery::Delivered);
    assert_eq!(dispatcher.deliver(&mut handle.control), Delivery::Nothing);
    assert!(matches!(
        handle.control.take().expect("first dispatched control"),
        ControlMessage::CallFinalized
    ));
    assert!(matches!(
        handle.control.take().expect("second dispatched control"),
        ControlMessage::Shutdown
    ));
}

#[test]
fn dispatcher_reports_destroyed_actor_as_gone() {
    let mut handle = SessionHandle::new_pair();
    handle.control.close();
    let mut dispatcher = CriticalControlDispatcher::new();
    let result = dispatcher.dispatch(
        "session-a",
        handle.control.is_closed(),
        ControlMessage::Shutdown,
    );
    assert!(matches!(result, DispatchResult::Gone));
    dispatcher.dispatch("session-a", false, ControlMessage::Shutdown);
    assert_eq!(dispatcher.deliver(&mut handle.control), Delivery::Dropped);
    assert_eq!(dispatcher.next_target(), None);
}

#[test]
fn closed_coordinator_is_not_reached() {
    let mut manager = with_call();
    assert_eq!(manager.coordinator_handle("call-a").map(|handle| handle.call_id()), Some("call-a"));
    manager
        .coordinator_mailbox("call-a")
        .expect("coordinator")
        .event
        .close();
    assert!(manager.coordinator_handle("call-a").is_none());
    assert_eq!(manager.coordinator_session("call-a"), Some("caller"));
    assert!(manager.coordinator_mailbox("call-b").is_none());
    let refusal = begin_coordinator_handoff(&mut manager, 1, "call-a", "callee").unwrap_err();
    assert_eq!(refusal, HandoffRefusal::SourceUnavailable);
    assert_eq!(refusal.text(), "coordinator_handoff_source_unavailable");
}
