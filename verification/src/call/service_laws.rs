//! What holds of the services around calls: the digit operations that others ask
//! for, and the writer that brings the records of calls to their database.

use crate::call::cdr_writer::{
    delay_before, in_bytes, status_after, status_of, unknown_status, worker_step, CdrSpoolLimits,
    DomainSpoolStatus, WorkerAction, WorkerEvent, WorkerPhase,
};
use crate::call::dtmf::{DigitCollectionMode, DigitCollectionResultCode, DigitCollectionSpec, Outcome};
use crate::call::dtmf_dispatch::{
    cancel_refusal, collection_for, event_answer, event_sent, possible_source, ready_error,
    start_refusal,
};
use crate::call::dtmf_operation::{
    digit_named, digits_named, ended_status, letter, letters, operation_name, refusal, result_name,
    DtmfOperationError, DtmfOperationMode, DtmfOperationSource, DtmfOperationSpec,
    DtmfOperationStatus, Operation, OperationChange, OperationRequest, ServiceState,
};
use crate::call::mailbox::EventMessage;
use crate::call::runtime_queue::QueueError;
use crate::call::session::ManagerState;
use crate::dtmf::DtmfDigit;
use crate::text::decimal;
use vstd::prelude::*;

verus! {

// ---------------------------------------------------------------------------
// Operations.

/// An operation goes from waiting over acquiring to ready, and ends as completed,
/// cancelled or failed; what is over stays so.
pub proof fn lemma_which_states_are_final()
    ensures
        DtmfOperationStatus::Completed.terminal(),
        DtmfOperationStatus::Cancelled.terminal(),
        DtmfOperationStatus::Failed.terminal(),
        !DtmfOperationStatus::Pending.terminal(),
        !DtmfOperationStatus::Acquiring.terminal(),
        !DtmfOperationStatus::Ready.terminal(),
        !DtmfOperationStatus::Cancelling.terminal(),
{
}

/// What each report makes of an operation that is not over: what it says is noted,
/// with the time, and what it does not speak of stays.
pub proof fn lemma_reports_are_noted(
    operation: Operation,
    outcome: Outcome,
    reason: Seq<char>,
    media_generation: u64,
    now: u64,
)
    requires
        !operation.status.terminal(),
    ensures
        ({
            let acquiring = operation.changed(OperationChange::Acquiring, now);
            let ready = operation.changed(OperationChange::Ready { media_generation }, now);
            let ended = operation.changed(OperationChange::Ended { outcome }, now);
            let failed = operation.changed(OperationChange::Failed { reason }, now);
            &&& acquiring.status == DtmfOperationStatus::Acquiring && acquiring.updated_at_ms == now
            &&& acquiring.media_generation == operation.media_generation
            &&& ready.status == DtmfOperationStatus::Ready && ready.media_generation == Some(
                media_generation,
            ) && ready.reason is None && ready.updated_at_ms == now
            &&& failed.status == DtmfOperationStatus::Failed && failed.reason == Some(reason)
                && failed.updated_at_ms == now && failed.digits == operation.digits
            &&& ended.digit_count == outcome.digits.len()
            &&& ended.digits matches Some(text) && text.len() == outcome.digits.len()
            &&& ended.reason == outcome.reason && ended.updated_at_ms == now
            &&& outcome.code == DigitCollectionResultCode::Completed ==> ended.status
                == DtmfOperationStatus::Completed && ended.result_code == Some("completed"@)
            &&& outcome.code == DigitCollectionResultCode::FirstDigitTimeout ==> ended.status
                == DtmfOperationStatus::Completed && ended.result_code == Some(
                "first_digit_timeout"@,
            )
            &&& outcome.code == DigitCollectionResultCode::InterDigitTimeout ==> ended.status
                == DtmfOperationStatus::Completed && ended.result_code == Some(
                "inter_digit_timeout"@,
            )
            &&& outcome.code == DigitCollectionResultCode::OverallTimeout ==> ended.status
                == DtmfOperationStatus::Completed && ended.result_code == Some("overall_timeout"@)
            &&& outcome.code == DigitCollectionResultCode::Cancelled ==> ended.status
                == DtmfOperationStatus::Cancelled && ended.result_code == Some("cancelled"@)
            &&& outcome.code == DigitCollectionResultCode::Failed ==> ended.status
                == DtmfOperationStatus::Failed && ended.result_code == Some("failed"@)
            &&& acquiring.operation_id == operation.operation_id && ready.operation_id
                == operation.operation_id && ended.operation_id == operation.operation_id
                && failed.operation_id == operation.operation_id
            &&& acquiring.created_at_ms == operation.created_at_ms && ready.created_at_ms
                == operation.created_at_ms && ended.created_at_ms == operation.created_at_ms
                && failed.created_at_ms == operation.created_at_ms
            &&& acquiring.call_id == operation.call_id && ready.call_id == operation.call_id
                && ended.call_id == operation.call_id && failed.call_id == operation.call_id
        }),
{
}

/// The digits of an operation are written in the order in which they were gathered.
pub proof fn lemma_gathered_digits_are_written_in_order(
    operation: Operation,
    outcome: Outcome,
    now: u64,
    i: int,
)
    requires
        !operation.status.terminal(),
        0 <= i < outcome.digits.len(),
    ensures
        operation.changed(OperationChange::Ended { outcome }, now).digits matches Some(text)
            && text[i] == letter(outcome.digits[i]),
        letters(outcome.digits)[i] == letter(outcome.digits[i]),
{
}

/// How each digit is written.
pub proof fn lemma_letters_of_digits()
    ensures
        letter(DtmfDigit::D0) == '0',
        letter(DtmfDigit::D1) == '1',
        letter(DtmfDigit::D2) == '2',
        letter(DtmfDigit::D3) == '3',
        letter(DtmfDigit::D4) == '4',
        letter(DtmfDigit::D5) == '5',
        letter(DtmfDigit::D6) == '6',
        letter(DtmfDigit::D7) == '7',
        letter(DtmfDigit::D8) == '8',
        letter(DtmfDigit::D9) == '9',
        letter(DtmfDigit::Star) == '*',
        letter(DtmfDigit::Pound) == '#',
        letter(DtmfDigit::A) == 'A',
        letter(DtmfDigit::B) == 'B',
        letter(DtmfDigit::C) == 'C',
        letter(DtmfDigit::D) == 'D',
        letter(DtmfDigit::Flash) == 'F',
{
}

/// A text names the digits whose letters stand in it, small letters being the same,
/// and no others.
pub proof fn lemma_which_digits_a_text_names(text: Seq<char>, digit: DtmfDigit, i: int)
    ensures
        0 <= i < text.len() && text[i] == letter(digit) ==> digits_named(text).contains(digit),
        digits_named(Seq::<char>::empty()) == Set::<DtmfDigit>::empty(),
        digit_named('a') == Some(DtmfDigit::A),
        digit_named('b') == Some(DtmfDigit::B),
        digit_named('c') == Some(DtmfDigit::C),
        digit_named('d') == Some(DtmfDigit::D),
        digit_named('f') == Some(DtmfDigit::Flash),
        digit_named('E') is None && digit_named(' ') is None && digit_named(',') is None,
{
    crate::call::dtmf_operation::lemma_letter_names_its_digit(digit);
    assert(digits_named(Seq::<char>::empty()) =~= Set::<DtmfDigit>::empty());
    if 0 <= i < text.len() && text[i] == letter(digit) {
        assert(digit_named(text[i]) == Some(digit));
    }
}

/// An operation that is asked for gets the next number, is handed to the runtime with
/// all that it asks, and waits.
pub proof fn lemma_operation_is_handed_on(s: ServiceState, spec: DtmfOperationSpec, now: u64)
    requires
        s.has_room(),
        s.sequence < u64::MAX,
    ensures
        ({
            let (t, answer) = s.started(spec, now);
            let before = s.queue.runtime->Some_0.queue;
            &&& answer matches Ok(operation) && operation.operation_id == "dtmf-op-"@ + decimal(
                now as nat,
            ) + "-"@ + decimal((s.sequence + 1) as nat) && operation.call_id == spec.call_id@
                && operation.source == spec.source && operation.mode == spec.mode
                && operation.status == DtmfOperationStatus::Pending && operation.created_at_ms
                == now && operation.updated_at_ms == now && operation.digits is None
                && operation.digit_count == 0 && operation.result_code is None && operation.reason
                is None && operation.media_generation is None
            &&& t.sequence == s.sequence + 1
            &&& t.queue.runtime matches Some(after) && after.queue == before.push(
                OperationRequest::Start { operation_id: answer->Ok_0.operation_id, spec },
            )
        }),
{
}

/// An operation that is cancelled is handed to the runtime for its call and waits for
/// that; one that is unknown or over, or that the runtime does not take, is not.
pub proof fn lemma_cancellation_is_handed_on(s: ServiceState, id: Seq<char>, now: u64)
    ensures
        ({
            let (t, answer) = s.cancelled(id, now);
            let known = s.operations.contains_key(id);
            &&& s.queue.runtime is None ==> answer == Err::<Operation, _>(
                DtmfOperationError::Unconnected,
            ) && t == s
            &&& s.queue.runtime is Some && !known ==> answer == Err::<Operation, _>(
                DtmfOperationError::NotFound,
            ) && t == s
            &&& s.queue.runtime is Some && known && s.operations[id].status.terminal() ==> answer
                == Err::<Operation, _>(DtmfOperationError::AlreadyComplete) && t == s
            &&& s.has_room() && known && !s.operations[id].status.terminal() ==> {
                &&& answer matches Ok(operation) && operation.status
                    == DtmfOperationStatus::Cancelling && operation.updated_at_ms == now
                    && operation.operation_id == s.operations[id].operation_id
                &&& t.operations[id].status == DtmfOperationStatus::Cancelling
                &&& t.queue.runtime matches Some(after) && after.queue
                    == s.queue.runtime->Some_0.queue.push(
                    OperationRequest::Cancel {
                        operation_id: id,
                        call_id: s.operations[id].call_id,
                    },
                )
            }
            &&& !s.has_room() && s.queue.runtime is Some && known
                && !s.operations[id].status.terminal() ==> t.operations == s.operations && answer
                is Err
        }),
{
}

/// A report is noted for the operation that it names, and for no other.
pub proof fn lemma_report_is_for_one_operation(
    s: ServiceState,
    id: Seq<char>,
    other: Seq<char>,
    change: OperationChange,
    now: u64,
)
    requires
        other != id,
    ensures
        s.operations.contains_key(id) ==> s.updated(id, change, now).operations[id]
            == s.operations[id].changed(change, now),
        s.updated(id, change, now).operations.contains_key(other) == s.operations.contains_key(
            other,
        ),
        s.operations.contains_key(other) ==> s.updated(id, change, now).operations[other]
            == s.operations[other],
        !s.operations.contains_key(id) ==> s.updated(id, change, now) == s,
        s.updated(id, change, now).order == s.order,
{
}

/// When the runtime leaves, every operation that is not over fails for that reason,
/// and those that are over stay.
pub proof fn lemma_departed_runtime_fails_operations(
    s: ServiceState,
    id: Seq<char>,
    generation: u64,
    now: u64,
)
    requires
        s.operations.contains_key(id),
    ensures
        ({
            let t = s.detached(generation, now);
            &&& t.operations.contains_key(id)
            &&& !s.operations[id].status.terminal() ==> t.operations[id].status
                == DtmfOperationStatus::Failed && t.operations[id].reason == Some(
                "adapter_runtime_disconnected"@,
            ) && t.operations[id].updated_at_ms == now
            &&& s.operations[id].status.terminal() ==> t.operations[id] == s.operations[id]
            &&& s.queue.runtime matches Some(runtime) ==> (runtime.generation == generation
                ==> t.queue.runtime is None)
        }),
{
}

/// The words for what may stand in the way of an operation, and for how it ended.
pub proof fn lemma_words_for_operations(code: DigitCollectionResultCode)
    ensures
        DtmfOperationError::Unconnected.code()
            == "ADAPTER_UNAVAILABLE: adapter runtime is not connected"@,
        DtmfOperationError::QueueFull.code() == "RESOURCE_EXHAUSTED: DTMF operation queue is full"@,
        DtmfOperationError::QueueClosed.code()
            == "ADAPTER_UNAVAILABLE: adapter runtime operation queue is closed"@,
        DtmfOperationError::NotFound.code() == "RESOURCE_NOT_FOUND: DTMF operation not found"@,
        DtmfOperationError::AlreadyComplete.code()
            == "FAILED_PRECONDITION: DTMF operation is already complete"@,
        DtmfOperationError::UnsupportedDigit.code() == "INVALID_ARGUMENT: unsupported DTMF digit"@,
        refusal(QueueError::Unconnected) == DtmfOperationError::Unconnected,
        refusal(QueueError::Full) == DtmfOperationError::QueueFull,
        refusal(QueueError::Closed) == DtmfOperationError::QueueClosed,
        result_name(DigitCollectionResultCode::Completed) == "completed"@,
        ended_status(DigitCollectionResultCode::Cancelled) == DtmfOperationStatus::Cancelled,
        ended_status(DigitCollectionResultCode::Failed) == DtmfOperationStatus::Failed,
        code != DigitCollectionResultCode::Cancelled && code != DigitCollectionResultCode::Failed
            ==> ended_status(code) == DtmfOperationStatus::Completed,
        DtmfOperationMode::Observe.as_collection() == DigitCollectionMode::Observe,
        DtmfOperationMode::Collect.as_collection() == DigitCollectionMode::Collect,
{
}

/// An operation is named after its time and its number.
pub proof fn lemma_operations_are_named(now: u64, sequence: u64)
    ensures
        operation_name(now, sequence) == "dtmf-op-"@ + decimal(now as nat) + "-"@ + decimal(
            sequence as nat,
        ),
{
}

// ---------------------------------------------------------------------------
// From operations to collections.

/// Digits of the caller come from the session that began the call, digits of the
/// callee from a session of the call that does not own it.
pub proof fn lemma_sources_of_digits<H>(
    s: ManagerState<H>,
    spec: DtmfOperationSpec,
    session: Seq<char>,
)
    ensures
        spec.source == DtmfOperationSource::Caller ==> (possible_source(s, spec, session) <==> (
        s.originators.contains_key(spec.call_id@) && s.originators[spec.call_id@] == session)),
        spec.source == DtmfOperationSource::Callee ==> (possible_source(s, spec, session) <==> (
        s.session_calls.contains_key(session) && s.session_calls[session] == spec.call_id@
            && s.owners[spec.call_id@].session != session)),
{
}

/// Why no collection begins, the first thing that stands in the way; where a source is
/// there and the coordinator can be reached, nothing does.
pub proof fn lemma_why_no_collection_begins<H>(
    s: ManagerState<H>,
    spec: DtmfOperationSpec,
    session: Seq<char>,
)
    ensures
        !s.owners.contains_key(spec.call_id@) ==> start_refusal(s, spec) == Some("call_not_found"@),
        s.owners.contains_key(spec.call_id@) && possible_source(s, spec, session) ==> (
        start_refusal(s, spec) is None <==> s.coordinators.contains_key(spec.call_id@)
            && s.coordinators[spec.call_id@].open()),
        s.owners.contains_key(spec.call_id@) && possible_source(s, spec, session)
            && !s.coordinators.contains_key(spec.call_id@) ==> start_refusal(s, spec) == Some(
            "call_coordinator_not_found"@,
        ),
        s.owners.contains_key(spec.call_id@) && spec.source == DtmfOperationSource::Caller
            && !s.originators.contains_key(spec.call_id@) ==> start_refusal(s, spec) == Some(
            "caller_session_not_found"@,
        ),
        s.owners.contains_key(spec.call_id@) && spec.source == DtmfOperationSource::Callee && (
        forall|other: Seq<char>| !#[trigger] possible_source(s, spec, other)) ==> start_refusal(
            s,
            spec,
        ) == Some("current_callee_not_found"@),
{
    if s.owners.contains_key(spec.call_id@) && spec.source == DtmfOperationSource::Caller
        && !s.originators.contains_key(spec.call_id@) {
        assert forall|other: Seq<char>| !#[trigger] possible_source(s, spec, other) by {}
    }
}

/// Why nothing is cancelled.
pub proof fn lemma_why_nothing_is_cancelled<H>(s: ManagerState<H>, call: Seq<char>)
    ensures
        !s.owners.contains_key(call) ==> cancel_refusal(s, call) == Some("call_not_found"@),
        s.owners.contains_key(call) && !(s.coordinators.contains_key(call)
            && s.coordinators[call].open()) ==> cancel_refusal(s, call) == Some(
            "call_coordinator_not_found"@,
        ),
        s.owners.contains_key(call) && s.coordinators.contains_key(call)
            && s.coordinators[call].open() ==> cancel_refusal(s, call) is None,
{
}

/// The collection of an operation has its name and all that it asks for.
pub proof fn lemma_collection_is_what_was_asked_for(
    collection: DigitCollectionSpec,
    operation: Seq<char>,
    spec: DtmfOperationSpec,
)
    requires
        collection_for(collection, operation, spec),
    ensures
        collection.collector_id@ == operation && collection.owner@ == operation,
        spec.mode == DtmfOperationMode::Collect <==> collection.mode == DigitCollectionMode::Collect,
        collection.allowed == spec.allowed && collection.terminators == spec.terminators,
        collection.min_digits == spec.min_digits && collection.max_digits == spec.max_digits,
        collection.first_digit_timeout == spec.first_digit_timeout,
        collection.inter_digit_timeout == spec.inter_digit_timeout,
        collection.overall_timeout == spec.overall_timeout,
{
}

/// An event goes to the coordinator of its call and to no other mailbox.
pub proof fn lemma_event_goes_to_its_coordinator<H>(
    s: ManagerState<H>,
    t: ManagerState<H>,
    call: Seq<char>,
    other: Seq<char>,
    message: EventMessage,
)
    requires
        event_sent(s, t, call, message),
        s.coordinators.contains_key(call),
        other != call,
    ensures
        event_answer(s, call, message) is Ok ==> t.coordinators[call].event@.waiting
            == s.coordinators[call].event@.waiting.push(message),
        event_answer(s, call, message) is Err ==> t.coordinators[call].event@
            == s.coordinators[call].event@,
        t.coordinators[call].control == s.coordinators[call].control,
        t.coordinators[call].call_id == s.coordinators[call].call_id,
        t.coordinators.contains_key(other) == s.coordinators.contains_key(other),
        s.coordinators.contains_key(other) ==> t.coordinators[other] == s.coordinators[other],
        t.sessions == s.sessions && t.owners == s.owners && t.legs == s.legs && t.pending
            == s.pending && t.originators == s.originators && t.session_calls == s.session_calls,
{
}

/// A collection that is ready has no error yet; one that is not has its own, and one
/// that never answered a word for that.
pub proof fn lemma_error_of_an_unready_collection(generation: u64, error: Seq<char>)
    ensures
        ready_error(Some(Ok(generation))) is None,
        ready_error(Some(Err(error))) == Some(error),
        ready_error(None) == Some("digit_collection_ready_channel_closed"@),
{
}

// ---------------------------------------------------------------------------
// The writer of records.

/// A limit of so many mebibytes.
pub proof fn lemma_limits_in_bytes(mebibytes: u64)
    ensures
        mebibytes <= 17_592_186_044_415 ==> in_bytes(mebibytes) == mebibytes * 1_048_576,
        mebibytes > 17_592_186_044_415 ==> in_bytes(mebibytes) == u64::MAX,
{
}

/// A domain that takes calls refuses them from the upper limit on; one that refuses
/// them takes them again below the lower limit; a warning stands from its own limit on.
pub proof fn lemma_when_calls_are_refused(
    limits: CdrSpoolLimits,
    status: DomainSpoolStatus,
    backlog: u64,
)
    ensures
        ({
            let after = status_after(limits, status, backlog);
            &&& after.backlog_bytes == backlog
            &&& !status.rejecting_new_calls ==> (after.rejecting_new_calls <==> backlog
                >= in_bytes(limits.reject_mb))
            &&& status.rejecting_new_calls ==> (after.rejecting_new_calls <==> backlog >= in_bytes(
                limits.resume_mb,
            ))
            &&& after.warning_active <==> backlog >= in_bytes(limits.warning_mb)
        }),
{
}

/// A domain that nothing is known of has nothing waiting and takes calls.
pub proof fn lemma_unknown_domain_takes_calls(
    domains: Map<Seq<char>, DomainSpoolStatus>,
    domain: Seq<char>,
)
    ensures
        !unknown_status().rejecting_new_calls && !unknown_status().warning_active
            && unknown_status().backlog_bytes == 0,
        !domains.contains_key(domain) ==> status_of(domains, domain) == unknown_status(),
        domains.contains_key(domain) ==> status_of(domains, domain) == domains[domain],
{
}

/// The waits between attempts: a fifth of a second, then twice as long each time, up
/// to ten seconds.
pub proof fn lemma_waits_between_attempts(attempt: u32)
    ensures
        delay_before(0) == 200,
        delay_before(1) == 400,
        delay_before(2) == 800,
        delay_before(3) == 1600,
        delay_before(4) == 3200,
        delay_before(5) == 6400,
        attempt >= 6 ==> delay_before(attempt) == 10_000,
{
    reveal_with_fuel(crate::call::cdr_writer::doubled, 8);
}

/// The worker writes the entries in order: it loads when it is woken, writes an entry
/// that is to be written, and moves the checkpoint behind one that was written or put
/// aside; when all are done it loads again, and where something fails it rests.
pub proof fn lemma_worker_takes_its_steps(entries: Seq<bool>, next: usize)
    requires
        entries.len() <= usize::MAX,
        next < entries.len(),
    ensures
        worker_step(WorkerPhase::Waiting, entries, WorkerEvent::Woken) == (
            WorkerPhase::Loading,
            WorkerAction::Load,
        ),
        worker_step(WorkerPhase::Loading, Seq::empty(), WorkerEvent::Loaded(true)) == (
            WorkerPhase::Waiting,
            WorkerAction::Wait,
        ),
        entries[0] ==> worker_step(WorkerPhase::Loading, entries, WorkerEvent::Loaded(true)) == (
            WorkerPhase::Persisting { next: 0 },
            WorkerAction::Persist(0),
        ),
        !entries[0] ==> worker_step(WorkerPhase::Loading, entries, WorkerEvent::Loaded(true)) == (
            WorkerPhase::Acknowledging { next: 0 },
            WorkerAction::Acknowledge(0),
        ),
        worker_step(WorkerPhase::Persisting { next }, entries, WorkerEvent::Persisted(true)) == (
            WorkerPhase::Acknowledging { next },
            WorkerAction::Acknowledge(next),
        ),
        next + 1 < entries.len() && entries[next + 1] ==> worker_step(
            WorkerPhase::Acknowledging { next },
            entries,
            WorkerEvent::Acknowledged(true),
        ) == (
            WorkerPhase::Persisting { next: (next + 1) as usize },
            WorkerAction::Persist((next + 1) as usize),
        ),
        next + 1 < entries.len() && !entries[next + 1] ==> worker_step(
            WorkerPhase::Acknowledging { next },
            entries,
            WorkerEvent::Acknowledged(true),
        ) == (
            WorkerPhase::Acknowledging { next: (next + 1) as usize },
            WorkerAction::Acknowledge((next + 1) as usize),
        ),
        next + 1 == entries.len() && entries.len() < usize::MAX ==> worker_step(
            WorkerPhase::Acknowledging { next },
            entries,
            WorkerEvent::Acknowledged(true),
        ) == (WorkerPhase::Loading, WorkerAction::Load),
{
}

/// Whatever fails, the worker rests for ten seconds and then loads again: nothing that
/// was not written is left behind.
pub proof fn lemma_worker_rests_after_a_failure(entries: Seq<bool>, next: usize)
    ensures
        worker_step(WorkerPhase::Loading, entries, WorkerEvent::Loaded(false)) == (
            WorkerPhase::Resting,
            WorkerAction::Rest(10_000),
        ),
        worker_step(WorkerPhase::Persisting { next }, entries, WorkerEvent::Persisted(false)) == (
            WorkerPhase::Resting,
            WorkerAction::Rest(10_000),
        ),
        worker_step(WorkerPhase::Acknowledging { next }, entries, WorkerEvent::Acknowledged(false))
            == (WorkerPhase::Resting, WorkerAction::Rest(10_000)),
        worker_step(WorkerPhase::Resting, entries, WorkerEvent::Rested) == (
            WorkerPhase::Loading,
            WorkerAction::Load,
        ),
{
}

} // verus!
