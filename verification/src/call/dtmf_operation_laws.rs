//! What the service of digit operations remembers: every operation that it accepted, until
//! the history is full and the oldest makes room.

use crate::call::dtmf_operation::{
    lemma_history_stays_bounded, operation_name, DtmfOperationError, DtmfOperationSpec,
    DtmfOperationStatus, OperationChange, ServiceState, DTMF_OPERATION_HISTORY_CAPACITY,
};
use crate::text::lemma_two_numbers_read_back;
use vstd::prelude::*;

verus! {

impl ServiceState {
    /// Whether the operations are those of the history, each named by a number that was
    /// given out, no two alike.
    pub open spec fn orderly(self) -> bool {
        &&& self.bounded()
        &&& forall|i: int|
            0 <= i < self.order.len() ==> self.operations.contains_key(#[trigger] self.order[i])
                && numbered(self.order[i], self.sequence)
        &&& forall|i: int, j: int|
            0 <= i < j < self.order.len() ==> #[trigger] self.order[i] != #[trigger] self.order[j]
    }

    /// Whether the runtime is there and takes another request.
    pub open spec fn has_room(self) -> bool {
        self.queue.runtime matches Some(runtime) && runtime.open && runtime.queue.len()
            < self.queue.capacity
    }
}

/// Whether an operation was named under one of the first numbers.
pub open spec fn numbered(id: Seq<char>, last: u64) -> bool {
    exists|at: u64, n: u64| n <= last && id == #[trigger] operation_name(at, n)
}

proof fn lemma_new_name_is_new(id: Seq<char>, last: u64, now: u64)
    requires
        numbered(id, last),
        last < u64::MAX,
    ensures
        id != operation_name(now, (last + 1) as u64),
{
    let (at, n) = choose|at: u64, n: u64| n <= last && id == #[trigger] operation_name(at, n);
    if id == operation_name(now, (last + 1) as u64) {
        lemma_two_numbers_read_back(
            "dtmf-op-"@,
            at as nat,
            n as nat,
            now as nat,
            (last + 1) as nat,
        );
    }
}

/// The history stays in order, whatever is asked or reported, as long as there are numbers
/// left.
pub proof fn lemma_history_stays_in_order(
    s: ServiceState,
    spec: DtmfOperationSpec,
    id: Seq<char>,
    change: OperationChange,
    generation: u64,
    now: u64,
)
    requires
        s.orderly(),
        s.sequence < u64::MAX,
    ensures
        s.started(spec, now).0.orderly(),
        s.cancelled(id, now).0.orderly(),
        s.updated(id, change, now).orderly(),
        s.detached(generation, now).orderly(),
{
    lemma_history_stays_bounded(s, spec, id, change, generation, now);
    let t = s.started(spec, now).0;
    let name = s.fresh(spec, now).operation_id;
    assert forall|i: int| 0 <= i < s.order.len() implies numbered(
        #[trigger] s.order[i],
        t.sequence,
    ) && s.order[i] != name by {
        let (at, n) = choose|at: u64, n: u64|
            n <= s.sequence && s.order[i] == #[trigger] operation_name(at, n);
        assert(numbered(operation_name(at, n), t.sequence));
        lemma_new_name_is_new(s.order[i], s.sequence, now);
    }
    assert(numbered(name, s.next_sequence()));
    if s.started(spec, now).1 is Ok {
        let shift: int = if s.order.len() == DTMF_OPERATION_HISTORY_CAPACITY {
            1
        } else {
            0
        };
        let full = s.order.push(name);
        assert forall|i: int| 0 <= i < t.order.len() implies #[trigger] t.order[i] == full[i
            + shift] && t.operations.contains_key(t.order[i]) && numbered(
            t.order[i],
            t.sequence,
        ) by {
            if i + shift < s.order.len() {
                assert(full[i + shift] == s.order[i + shift]);
                assert(s.operations.contains_key(s.order[i + shift]));
                if shift == 1 {
                    assert(s.order[0] != s.order[i + shift]);
                }
            }
        }
        assert forall|i: int, j: int| 0 <= i < j < t.order.len() implies #[trigger] t.order[i]
            != #[trigger] t.order[j] by {
            assert(t.order[i] == s.order[i + shift]);
            if j + shift < s.order.len() {
                assert(t.order[j] == s.order[j + shift]);
            }
        }
    }
}

/// An operation that is accepted waits to be taken up and is found under its name. Where the
/// history was full, the oldest operation is forgotten; all others stay as they were.
pub proof fn lemma_new_operation_takes_the_place_of_the_oldest(
    s: ServiceState,
    spec: DtmfOperationSpec,
    now: u64,
)
    requires
        s.orderly(),
        s.sequence < u64::MAX,
        s.has_room(),
    ensures
        s.started(spec, now).1 matches Ok(operation) && {
            let t = s.started(spec, now).0;
            let full = s.order.len() == DTMF_OPERATION_HISTORY_CAPACITY;
            &&& operation.status == DtmfOperationStatus::Pending
            &&& t.operations.contains_key(operation.operation_id)
            &&& t.operations[operation.operation_id] == operation
            &&& full ==> !t.operations.contains_key(s.order[0])
            &&& forall|i: int|
                (if full {
                    1int
                } else {
                    0int
                }) <= i < s.order.len() ==> t.operations.contains_key(#[trigger] s.order[i])
                    && t.operations[s.order[i]] == s.operations[s.order[i]]
        },
{
    let t = s.started(spec, now).0;
    let name = s.fresh(spec, now).operation_id;
    let full = s.order.push(name);
    assert forall|i: int| 0 <= i < s.order.len() implies #[trigger] s.order[i] != name && full[i]
        == s.order[i] && s.operations.contains_key(s.order[i]) && (i > 0 ==> s.order[i]
        != s.order[0]) by {
        lemma_new_name_is_new(s.order[i], s.sequence, now);
    }
    assert(s.order.len() > 0 ==> full[0] == s.order[0]);
}

/// Without a runtime, or where its queue is full, nothing is started and nothing recorded.
pub proof fn lemma_refused_operation_is_not_recorded(
    s: ServiceState,
    spec: DtmfOperationSpec,
    now: u64,
)
    requires
        !s.has_room(),
    ensures
        ({
            let (t, result) = s.started(spec, now);
            &&& t.operations == s.operations
            &&& t.order == s.order
            &&& result matches Err(error) && match s.queue.runtime {
                None => error == DtmfOperationError::Unconnected,
                Some(runtime) => error == if runtime.open {
                    DtmfOperationError::QueueFull
                } else {
                    DtmfOperationError::QueueClosed
                },
            }
        }),
{
}

} // verus!
