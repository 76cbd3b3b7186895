use voipswitchd::call::actor::lease_request;
use voipswitchd::call::dtmf::{
    apply_digit_to_collectors, next_digit_collector_deadline,
    validate_digit_collector_registration, DigitCollectionMode, DigitCollectionResultCode,
    DigitCollectionSpec, DigitCollectorCancel, DigitCollectorDeadline, DigitCollectorInput,
    DigitCollectorPhase, DigitCollectorState, DigitEvent, DigitSet, DtmfDisposition, DtmfEventId,
    DtmfIgnoreReason, DtmfRouter, DtmfSourceDecision, DtmfSourceGeneration, DtmfSourcePolicy,
    DtmfSourceState, DtmfTransport, RegistrationError, DTMF_COLLECTOR_CAPACITY,
    SOURCE_EVENT_DEDUP_CAPACITY,
};
use voipswitchd::dtmf::{DtmfDigit, DtmfMediaMode};

const SECOND: u64 = 1_000_000_000;

fn event(session_id: &str, generation: u64, timestamp: u32) -> DigitEvent {
    DigitEvent {
        event_id: DtmfEventId::Rfc4733 {
            media_generation: generation,
            source_session_id: session_id.to_string(),
            ssrc: 7,
            timestamp,
            event_code: 5,
        },
        domain_id: "domain-a".to_string(),
        call_id: "call-a".to_string(),
        source_session_id: session_id.to_string(),
        source_media_leg_id: None,
        digit: DtmfDigit::D5,
        transport: DtmfTransport::Rfc4733,
        duration_ms: 100,
        observed_at_ms: 1,
        source_generation: DtmfSourceGeneration::Media(generation),
        incomplete_end: false,
    }
}

fn digits(list: &[DtmfDigit]) -> DigitSet {
    let mut set = DigitSet::new();
    for digit in list {
        set.insert(*digit);
    }
    set
}

fn collection_spec(mode: DigitCollectionMode) -> DigitCollectionSpec {
    DigitCollectionSpec {
        collector_id: "collector-a".to_string(),
        owner: "operation-a".to_string(),
        source_session_id: "caller".to_string(),
        mode,
        allowed: digits(&[DtmfDigit::D5]),
        min_digits: 1,
        max_digits: 2,
        terminators: digits(&[DtmfDigit::Pound]),
        first_digit_timeout: 5 * SECOND,
        inter_digit_timeout: 3 * SECOND,
        overall_timeout: 20 * SECOND,
    }
}

fn collector_for(
    mode: DigitCollectionMode,
    collector_id: &str,
    source_session_id: &str,
) -> DigitCollectorState {
    let mut spec = collection_spec(mode);
    spec.collector_id = collector_id.to_string();
    spec.owner = format!("operation-{collector_id}");
    spec.source_session_id = source_session_id.to_string();
    DigitCollectorState::new(spec)
}

fn collector(mode: DigitCollectionMode) -> DigitCollectorState {
    collector_for(mode, "collector-a", "caller")
}

#[test]
fn source_state_deduplicates_and_advances_generation() {
    let mut state = DtmfSourceState::default();
    let first = event("caller", 1, 10);
    assert_eq!(state.accept(&first), DtmfSourceDecision::Accepted);
    assert_eq!(state.accept(&first), DtmfSourceDecision::Duplicate);
    assert_eq!(
        state.accept(&event("caller", 0, 20)),
        DtmfSourceDecision::StaleGeneration
    );
    assert_eq!(
        state.accept(&event("caller", 2, 10)),
        DtmfSourceDecision::Accepted
    );
    assert_eq!(state.stats().accepted, 2);
    assert_eq!(state.stats().duplicate, 1);
    assert_eq!(state.stats().stale_generation, 1);
}

#[test]
fn explicit_source_policy_rejects_other_transport() {
    let mut state = DtmfSourceState::with_policy(DtmfSourcePolicy::SipInfoOnly);
    assert_eq!(
        state.accept(&event("caller", 1, 10)),
        DtmfSourceDecision::Conflict
    );
    assert_eq!(state.stats().conflict, 1);
}

#[test]
fn source_forgets_the_oldest_event_first() {
    let mut state = DtmfSourceState::default();
    for timestamp in 0..=SOURCE_EVENT_DEDUP_CAPACITY as u32 {
        assert_eq!(
            state.accept(&event("caller", 1, timestamp)),
            DtmfSourceDecision::Accepted
        );
    }
    assert_eq!(
        state.accept(&event("caller", 1, 1)),
        DtmfSourceDecision::Duplicate
    );
    assert_eq!(
        state.accept(&event("caller", 1, 0)),
        DtmfSourceDecision::Accepted
    );
}

#[test]
fn inconsistent_event_is_a_conflict() {
    let mut state = DtmfSourceState::default();
    let mut wrong = event("caller", 1, 10);
    wrong.source_generation = DtmfSourceGeneration::Media(2);
    assert!(!wrong.identity_is_consistent());
    assert_eq!(state.accept(&wrong), DtmfSourceDecision::Conflict);
}

#[test]
fn router_uses_current_bridge_edge_and_rejects_old_attempt() {
    let mut router = DtmfRouter::default();
    assert_eq!(
        router.route(&event("caller", 1, 10), "caller", Some("callee-2"), true),
        DtmfDisposition::Forward {
            peer_session_id: "callee-2".to_string()
        }
    );
    assert_eq!(
        router.route(&event("callee-2", 1, 11), "caller", Some("callee-2"), true),
        DtmfDisposition::Forward {
            peer_session_id: "caller".to_string()
        }
    );
    assert_eq!(
        router.route(&event("callee-1", 1, 12), "caller", Some("callee-2"), true),
        DtmfDisposition::Ignore {
            reason: DtmfIgnoreReason::StaleSourceSession
        }
    );
    assert_eq!(router.stats().forwarded, 2);
    assert_eq!(router.stats().ignored, 1);

    assert_eq!(
        router.route(&event("caller", 1, 13), "caller", Some("callee-2"), false),
        DtmfDisposition::Ignore {
            reason: DtmfIgnoreReason::CallTerminating
        }
    );
}

#[test]
fn collection_spec_rejects_invalid_ranges_and_timeouts() {
    let mut spec = collection_spec(DigitCollectionMode::Collect);
    assert_eq!(spec.validate(), Ok(()));

    spec.max_digits = 0;
    assert_eq!(
        spec.validate().unwrap_err().text(),
        "invalid_digit_count_range"
    );
    spec.max_digits = 2;
    spec.allowed.clear();
    assert_eq!(
        spec.validate().unwrap_err().text(),
        "empty_allowed_digit_set"
    );
    spec.allowed.insert(DtmfDigit::D5);
    spec.overall_timeout = 0;
    assert_eq!(
        spec.validate().unwrap_err().text(),
        "invalid_digit_collection_timeout"
    );
}

#[test]
fn collection_timers_start_only_after_ready_and_choose_nearest_deadline() {
    let mut collector = collector(DigitCollectionMode::Collect);
    assert_eq!(collector.phase, DigitCollectorPhase::Acquiring);
    assert!(collector.next_deadline().is_none());

    let ready_at = 1_000 * SECOND;
    collector.activate(ready_at);
    assert_eq!(collector.phase, DigitCollectorPhase::Active);
    assert_eq!(
        collector.next_deadline(),
        Some((
            (ready_at + 5 * SECOND) as u128,
            DigitCollectorDeadline::FirstDigit
        ))
    );

    let digit_at = ready_at + SECOND;
    assert_eq!(
        collector.apply_digit(&event("caller", 1, 10), digit_at),
        DigitCollectorInput::Continue { consume: true }
    );
    assert_eq!(
        collector.next_deadline(),
        Some((
            (digit_at + 3 * SECOND) as u128,
            DigitCollectorDeadline::InterDigit
        ))
    );
}

#[test]
fn observe_forwards_while_collect_consumes_matching_source() {
    let now = 7 * SECOND;
    let input = event("caller", 1, 10);
    let mut observe = collector(DigitCollectionMode::Observe);
    observe.activate(now);
    assert_eq!(
        observe.apply_digit(&input, now),
        DigitCollectorInput::Continue { consume: false }
    );

    let mut collect = collector(DigitCollectionMode::Collect);
    collect.activate(now);
    assert_eq!(
        collect.apply_digit(&input, now),
        DigitCollectorInput::Continue { consume: true }
    );
    assert_eq!(
        collect.apply_digit(&event("stale", 1, 11), now),
        DigitCollectorInput::Ignored
    );
}

#[test]
fn multiple_observers_receive_the_same_digit_without_consuming_it() {
    let now = 7 * SECOND;
    let mut collectors = Vec::new();
    for collector_id in ["observe-a", "observe-b"] {
        let mut collector = collector_for(DigitCollectionMode::Observe, collector_id, "caller");
        collector.spec.max_digits = 1;
        collector.activate(now);
        collectors.push(collector);
    }

    let batch = apply_digit_to_collectors(&mut collectors, &event("caller", 1, 10), now);
    assert!(!batch.consume);
    assert_eq!(batch.completed.len(), 2);
    assert!(batch
        .completed
        .iter()
        .all(|finished| finished.code == DigitCollectionResultCode::Completed));
}

#[test]
fn collect_and_observe_share_events_but_collect_suppresses_forwarding() {
    let now = 7 * SECOND;
    let mut collectors = Vec::new();
    for (collector_id, mode) in [
        ("collect", DigitCollectionMode::Collect),
        ("observe", DigitCollectionMode::Observe),
    ] {
        let mut collector = collector_for(mode, collector_id, "caller");
        collector.spec.max_digits = 1;
        collector.activate(now);
        collectors.push(collector);
    }

    let batch = apply_digit_to_collectors(&mut collectors, &event("caller", 1, 10), now);
    assert!(batch.consume);
    assert_eq!(batch.completed.len(), 2);
}

#[test]
fn collector_registry_allows_shared_observe_and_one_collect_per_source() {
    let collectors = vec![collector_for(
        DigitCollectionMode::Collect,
        "collect-a",
        "caller",
    )];

    let same_source_collect = collector_for(DigitCollectionMode::Collect, "collect-b", "caller");
    assert_eq!(
        validate_digit_collector_registration(&collectors, &same_source_collect.spec)
            .unwrap_err()
            .text(),
        "dtmf_collector_conflict"
    );
    let same_source_observe = collector_for(DigitCollectionMode::Observe, "observe-a", "caller");
    assert_eq!(
        validate_digit_collector_registration(&collectors, &same_source_observe.spec),
        Ok(())
    );
    let other_source_collect = collector_for(DigitCollectionMode::Collect, "collect-c", "callee");
    assert_eq!(
        validate_digit_collector_registration(&collectors, &other_source_collect.spec),
        Ok(())
    );
    let same_name = collector_for(DigitCollectionMode::Observe, "collect-a", "callee");
    assert_eq!(
        validate_digit_collector_registration(&collectors, &same_name.spec),
        Err(RegistrationError::IdConflict)
    );
}

#[test]
fn collector_registry_is_bounded_and_timer_selects_nearest_deadline() {
    let now = 7 * SECOND;
    let mut collectors = Vec::new();
    for index in 0..DTMF_COLLECTOR_CAPACITY {
        let collector_id = format!("observe-{index:02}");
        let mut collector = collector_for(DigitCollectionMode::Observe, &collector_id, "caller");
        collector.spec.first_digit_timeout = (5 + index as u64) * SECOND;
        collector.activate(now);
        collectors.push(collector);
    }
    let overflow = collector_for(DigitCollectionMode::Observe, "overflow", "callee");
    assert_eq!(
        validate_digit_collector_registration(&collectors, &overflow.spec)
            .unwrap_err()
            .text(),
        "dtmf_collector_overloaded"
    );
    let (deadline, collector_id, kind) =
        next_digit_collector_deadline(&collectors).expect("nearest deadline");
    assert_eq!(collector_id.as_str(), "observe-00");
    assert_eq!(kind, DigitCollectorDeadline::FirstDigit);
    assert_eq!(deadline, (now + 5 * SECOND) as u128);
}

#[test]
fn collection_finishes_on_max_digits_or_terminator() {
    let now = 7 * SECOND;
    let mut max_digits = collector(DigitCollectionMode::Collect);
    max_digits.activate(now);
    assert!(matches!(
        max_digits.apply_digit(&event("caller", 1, 10), now),
        DigitCollectorInput::Continue { consume: true }
    ));
    assert_eq!(
        max_digits.apply_digit(&event("caller", 1, 11), now),
        DigitCollectorInput::Finish {
            consume: true,
            code: DigitCollectionResultCode::Completed,
            reason: None,
        }
    );

    let mut terminated = collector(DigitCollectionMode::Observe);
    terminated.activate(now);
    terminated.digits.push(DtmfDigit::D5);
    let mut terminator = event("caller", 1, 12);
    terminator.digit = DtmfDigit::Pound;
    assert_eq!(
        terminated.apply_digit(&terminator, now),
        DigitCollectorInput::Finish {
            consume: false,
            code: DigitCollectionResultCode::Completed,
            reason: None,
        }
    );

    let mut too_short = collector(DigitCollectionMode::Collect);
    too_short.activate(now);
    assert_eq!(
        too_short.apply_digit(&terminator, now),
        DigitCollectorInput::Finish {
            consume: true,
            code: DigitCollectionResultCode::Failed,
            reason: Some("digit_collection_too_short".to_string()),
        }
    );
}

#[test]
fn collector_timeout_and_cancel_states_are_explicit() {
    assert_eq!(
        DigitCollectorDeadline::FirstDigit.result_code(),
        DigitCollectionResultCode::FirstDigitTimeout
    );
    assert_eq!(
        DigitCollectorDeadline::InterDigit.result_code(),
        DigitCollectionResultCode::InterDigitTimeout
    );
    assert_eq!(
        DigitCollectorDeadline::Overall.result_code(),
        DigitCollectionResultCode::OverallTimeout
    );

    let mut collector = collector(DigitCollectionMode::Collect);
    assert_eq!(
        collector.request_cancel(),
        DigitCollectorCancel::AwaitAcquire
    );
    assert!(collector.cancel_requested);
    collector.phase = DigitCollectorPhase::Active;
    assert_eq!(collector.request_cancel(), DigitCollectorCancel::Finish);
    collector.phase = DigitCollectorPhase::Releasing;
    assert_eq!(
        collector.request_cancel(),
        DigitCollectorCancel::AlreadyReleasing
    );
}

#[test]
fn collector_asks_for_the_capability_of_its_mode() {
    let watching = lease_request("call-a", &collection_spec(DigitCollectionMode::Observe), 4);
    assert_eq!(watching.lease_id, "dtmf-collector-call-a-collector-a");
    assert_eq!(watching.owner, "operation-a");
    assert_eq!(watching.source_session_id, "caller");
    assert_eq!(watching.mode, DtmfMediaMode::Observe);
    assert_eq!(watching.requested_generation, 4);
    let collecting = lease_request("call-a", &collection_spec(DigitCollectionMode::Collect), 5);
    assert_eq!(collecting.mode, DtmfMediaMode::Collect);
}
