//! From a requested operation to a collection of digits in a call, and back from
//! what became of the collection to the operation.

use crate::call::dtmf::{DigitCollectionOutcome, DigitCollectionSpec};
use crate::call::dtmf_operation::{
    DtmfOperationService, DtmfOperationSource, DtmfOperationSpec, OperationChange,
};
use crate::call::mailbox::EventMessage;
use crate::call::session::{members, submit_code, Mailbox, ManagerState, SessionManager, SubmitError};
use crate::text::opt_text;
use vstd::prelude::*;

verus! {

/// The sessions that digits can be collected from: the caller's, or any that does
/// not own the call.
pub open spec fn possible_source<H>(
    s: ManagerState<H>,
    spec: DtmfOperationSpec,
    session: Seq<char>,
) -> bool {
    match spec.source {
        DtmfOperationSource::Caller => s.originators.contains_key(spec.call_id@)
            && s.originators[spec.call_id@] == session,
        DtmfOperationSource::Callee => members(s.session_calls, spec.call_id@).contains(session)
            && s.owners[spec.call_id@].session != session,
    }
}

/// Why no collection can begin, where nothing stands in the way `None`.
pub open spec fn start_refusal<H>(s: ManagerState<H>, spec: DtmfOperationSpec) -> Option<Seq<char>> {
    if !s.owners.contains_key(spec.call_id@) {
        Some("call_not_found"@)
    } else if exists|session: Seq<char>| #[trigger] possible_source(s, spec, session) {
        if s.reachable(spec.call_id@) {
            None
        } else {
            Some("call_coordinator_not_found"@)
        }
    } else if spec.source is Caller {
        Some("caller_session_not_found"@)
    } else {
        Some("current_callee_not_found"@)
    }
}

/// The collection that an operation asks for.
pub open spec fn collection_for(
    collection: DigitCollectionSpec,
    operation: Seq<char>,
    spec: DtmfOperationSpec,
) -> bool {
    &&& collection.collector_id@ == operation
    &&& collection.owner@ == operation
    &&& collection.mode == spec.mode.as_collection()
    &&& collection.allowed == spec.allowed
    &&& collection.min_digits == spec.min_digits
    &&& collection.max_digits == spec.max_digits
    &&& collection.terminators == spec.terminators
    &&& collection.first_digit_timeout == spec.first_digit_timeout
    &&& collection.inter_digit_timeout == spec.inter_digit_timeout
    &&& collection.overall_timeout == spec.overall_timeout
}

/// Turns an operation into the collection to be started, or fails it.
pub fn begin_dtmf_operation<H>(
    manager: &SessionManager<H>,
    service: &mut DtmfOperationService,
    operation_id: &str,
    spec: DtmfOperationSpec,
    now: u64,
) -> (collection: Option<DigitCollectionSpec>)
    requires
        manager.wf(),
        old(service).wf(),
    ensures
        final(service).wf(),
        match start_refusal(manager@, spec) {
            Some(reason) => collection is None && final(service)@ == old(service)@.updated(
                operation_id@,
                OperationChange::Failed { reason },
                now,
            ),
            None => collection is Some && final(service)@ == old(service)@.updated(
                operation_id@,
                OperationChange::Acquiring,
                now,
            ) && collection_for(collection->Some_0, operation_id@, spec) && possible_source(
                manager@,
                spec,
                collection->Some_0.source_session_id@,
            ),
        },
{
    if manager.coordinator_identity(spec.call_id.as_str()).is_none() {
        service.fail(operation_id, "call_not_found".to_owned(), now);
        return None;
    }
    let source_session_id: String = match spec.source {
        DtmfOperationSource::Caller => match manager.caller_session(spec.call_id.as_str()) {
            Some(session) => {
                assert(possible_source(manager@, spec, session@));
                session.to_owned()
            },
            None => {
                service.fail(operation_id, "caller_session_not_found".to_owned(), now);
                return None;
            },
        },
        DtmfOperationSource::Callee => match manager.peer_session(spec.call_id.as_str()) {
            Some(session) => {
                assert(possible_source(manager@, spec, session@));
                session
            },
            None => {
                service.fail(operation_id, "current_callee_not_found".to_owned(), now);
                return None;
            },
        },
    };
    if manager.coordinator_handle(spec.call_id.as_str()).is_none() {
        service.fail(operation_id, "call_coordinator_not_found".to_owned(), now);
        return None;
    }
    service.mark_acquiring(operation_id, now);
    Some(
        DigitCollectionSpec {
            collector_id: operation_id.to_owned(),
            owner: operation_id.to_owned(),
            source_session_id,
            mode: spec.mode.collection_mode(),
            allowed: spec.allowed,
            min_digits: spec.min_digits,
            max_digits: spec.max_digits,
            terminators: spec.terminators,
            first_digit_timeout: spec.first_digit_timeout,
            inter_digit_timeout: spec.inter_digit_timeout,
            overall_timeout: spec.overall_timeout,
        },
    )
}

/// Whether the coordinator of a call was sent an event, and nothing else changed. An
/// event that it has no room for is not taken.
pub open spec fn event_sent<H>(
    s: ManagerState<H>,
    t: ManagerState<H>,
    call: Seq<char>,
    message: EventMessage,
) -> bool {
    let before = s.coordinators[call];
    let after = t.coordinators[call];
    &&& after.event@ == before.event@.submitted(message).0
    &&& after.control == before.control
    &&& after.call_id == before.call_id
    &&& t == (ManagerState::<H> { coordinators: s.coordinators.insert(call, after), ..s })
}

/// What the coordinator of a call answers to an event.
pub open spec fn event_answer<H>(s: ManagerState<H>, call: Seq<char>, message: EventMessage) -> Result<
    (),
    SubmitError,
> {
    s.coordinators[call].event@.submitted(message).1
}

/// Starts the collection that an operation asks for: it waits with the coordinator of
/// the call. Where that cannot be, the operation fails.
pub fn start_dtmf_operation<H>(
    manager: &mut SessionManager<H>,
    service: &mut DtmfOperationService,
    operation_id: &str,
    spec: DtmfOperationSpec,
    now: u64,
) -> (started: bool)
    requires
        old(manager).wf(),
        old(service).wf(),
    ensures
        final(manager).wf(),
        final(service).wf(),
        match start_refusal(old(manager)@, spec) {
            Some(reason) => !started && final(manager)@ == old(manager)@ && final(service)@ == old(
                service,
            )@.updated(operation_id@, OperationChange::Failed { reason }, now),
            None => exists|collection: DigitCollectionSpec| #[trigger]
                collection_for(collection, operation_id@, spec) && possible_source(
                    old(manager)@,
                    spec,
                    collection.source_session_id@,
                ) && ({
                    let message = EventMessage::StartDigitCollection { spec: collection };
                    let acquiring = old(service)@.updated(
                        operation_id@,
                        OperationChange::Acquiring,
                        now,
                    );
                    event_sent(old(manager)@, final(manager)@, spec.call_id@, message) && match event_answer(
                        old(manager)@,
                        spec.call_id@,
                        message,
                    ) {
                        Ok(()) => started && final(service)@ == acquiring,
                        Err(error) => !started && final(service)@ == acquiring.updated(
                            operation_id@,
                            OperationChange::Failed {
                                reason: submit_code(Mailbox::Coordinator, error),
                            },
                            now,
                        ),
                    }
                }),
        },
{
    let call_id = spec.call_id.clone();
    let ghost asked = spec;
    let collection = match begin_dtmf_operation(manager, service, operation_id, spec, now) {
        Some(collection) => collection,
        None => return false,
    };
    assert(collection_for(collection, operation_id@, asked));
    match manager.coordinator_mailbox(call_id.as_str()) {
        Some(handle) => match handle.start_digit_collection(collection) {
            Ok(()) => true,
            Err(code) => {
                service.fail(operation_id, code, now);
                false
            },
        },
        None => false,
    }
}

/// What the readiness of a collection says of the error to be given later. `None`
/// stands for an answer that never came.
pub open spec fn ready_error(ready: Option<Result<u64, Seq<char>>>) -> Option<Seq<char>> {
    match ready {
        Some(Ok(_)) => None,
        Some(Err(error)) => Some(error),
        None => Some("digit_collection_ready_channel_closed"@),
    }
}

/// Notes that digits are being taken, or keeps the reason why not.
pub fn note_ready(
    service: &mut DtmfOperationService,
    operation_id: &str,
    ready: Option<Result<u64, String>>,
    now: u64,
) -> (error: Option<String>)
    requires
        old(service).wf(),
    ensures
        final(service).wf(),
        match ready {
            Some(Ok(media_generation)) => error is None && final(service)@ == old(service)@.updated(
                operation_id@,
                OperationChange::Ready { media_generation },
                now,
            ),
            Some(Err(reason)) => error == Some(reason) && final(service)@ == old(service)@,
            None => opt_text(error) == ready_error(None) && final(service)@ == old(service)@,
        },
{
    match ready {
        Some(Ok(media_generation)) => {
            service.mark_ready(operation_id, media_generation, now);
            None
        },
        Some(Err(reason)) => Some(reason),
        None => Some("digit_collection_ready_channel_closed".to_owned()),
    }
}

/// Notes how a collection ended. Where it gave no outcome, the operation fails for
/// the reason kept before.
pub fn note_result(
    service: &mut DtmfOperationService,
    operation_id: &str,
    outcome: Option<DigitCollectionOutcome>,
    error: Option<String>,
    now: u64,
)
    requires
        old(service).wf(),
    ensures
        final(service).wf(),
        final(service)@ == old(service)@.updated(
            operation_id@,
            match (outcome, error) {
                (Some(outcome), _) => OperationChange::Ended { outcome: outcome@ },
                (None, Some(reason)) => OperationChange::Failed { reason: reason@ },
                (None, None) => OperationChange::Failed {
                    reason: "digit_collection_result_channel_closed"@,
                },
            },
            now,
        ),
{
    match outcome {
        Some(outcome) => service.complete(operation_id, outcome, now),
        None => match error {
            Some(reason) => service.fail(operation_id, reason, now),
            None => service.fail(
                operation_id,
                "digit_collection_result_channel_closed".to_owned(),
                now,
            ),
        },
    }
}

/// Why no collection of a call can be cancelled, where nothing stands in the way
/// `None`.
pub open spec fn cancel_refusal<H>(s: ManagerState<H>, call: Seq<char>) -> Option<Seq<char>> {
    if !s.owners.contains_key(call) {
        Some("call_not_found"@)
    } else if !s.reachable(call) {
        Some("call_coordinator_not_found"@)
    } else {
        None
    }
}

/// Asks the coordinator of a call to cancel the collection of an operation. Where that
/// cannot be, the operation fails.
pub fn cancel_dtmf_operation<H>(
    manager: &mut SessionManager<H>,
    service: &mut DtmfOperationService,
    operation_id: &str,
    call_id: &str,
    now: u64,
) -> (asked: bool)
    requires
        old(manager).wf(),
        old(service).wf(),
    ensures
        final(manager).wf(),
        final(service).wf(),
        match cancel_refusal(old(manager)@, call_id@) {
            Some(reason) => !asked && final(manager)@ == old(manager)@ && final(service)@ == old(
                service,
            )@.updated(operation_id@, OperationChange::Failed { reason }, now),
            None => exists|collector_id: String|
                #[trigger] collector_id@ == operation_id@ && ({
                    let message = EventMessage::CancelDigitCollection { collector_id };
                    event_sent(old(manager)@, final(manager)@, call_id@, message) && match event_answer(
                        old(manager)@,
                        call_id@,
                        message,
                    ) {
                        Ok(()) => asked && final(service)@ == old(service)@,
                        Err(error) => !asked && final(service)@ == old(service)@.updated(
                            operation_id@,
                            OperationChange::Failed {
                                reason: submit_code(Mailbox::Coordinator, error),
                            },
                            now,
                        ),
                    }
                }),
        },
{
    if manager.coordinator_identity(call_id).is_none() {
        service.fail(operation_id, "call_not_found".to_owned(), now);
        return false;
    }
    if manager.coordinator_handle(call_id).is_none() {
        service.fail(operation_id, "call_coordinator_not_found".to_owned(), now);
        return false;
    }
    let collector_id = operation_id.to_owned();
    assert(collector_id@ == operation_id@);
    match manager.coordinator_mailbox(call_id) {
        Some(handle) => match handle.cancel_digit_collection(collector_id) {
            Ok(()) => true,
            Err(code) => {
                service.fail(operation_id, code, now);
                false
            },
        },
        None => false,
    }
}

/// Notes what became of a cancellation. `None` stands for an answer that never
/// came.
pub fn note_cancel(
    service: &mut DtmfOperationService,
    operation_id: &str,
    reply: Option<Result<(), String>>,
    now: u64,
)
    requires
        old(service).wf(),
    ensures
        final(service).wf(),
        final(service)@ == (match reply {
            Some(Ok(())) => old(service)@,
            Some(Err(reason)) => old(service)@.updated(
                operation_id@,
                OperationChange::Failed { reason: reason@ },
                now,
            ),
            None => old(service)@.updated(
                operation_id@,
                OperationChange::Failed { reason: "digit_collection_cancel_channel_closed"@ },
                now,
            ),
        }),
{
    match reply {
        Some(Ok(())) => {},
        Some(Err(reason)) => service.fail(operation_id, reason, now),
        None => service.fail(
            operation_id,
            "digit_collection_cancel_channel_closed".to_owned(),
            now,
        ),
    }
}

} // verus!
