//! The collectors of a call at work: they ask for the media capability they need,
//! take digits, end by themselves or are ended, and give the capability back.

use crate::call::coordinator::{
    bumped, CallEffect, CallError, MediaRequest, Outbox, OutboxState,
};
use crate::call::dtmf::{
    all_applied, apply_digit_to_collectors, collectors_of, collectors_wf, copy_digits, finished_by, finished_of,
    fresh, has_collector, nearest, next_digit_collector_deadline, registration,
    validate_digit_collector_registration, Collector, DigitCollectionOutcome,
    DigitCollectionResultCode, DigitCollectionSpec, DigitCollectorCancel, DigitCollectorDeadline,
    DigitCollectorPhase, DigitCollectorState, DigitEvent, Finished, Outcome,
};
use crate::dtmf::DtmfDigit;
use crate::keyed::{
    comes_before, lemma_text_before_irreflexive, lemma_text_before_total,
    lemma_text_before_transitive, text_before,
};
use crate::text::{join2, opt_text, same_text};
use vstd::prelude::*;

verus! {

/// What the one who asked for a collection is told.
pub enum CollectorReply {
    /// Digits are taken from now on, in the given media generation, or why not.
    Ready { collector_id: String, result: Result<u64, String> },
    Outcome(DigitCollectionOutcome),
}

pub enum Reply {
    Ready(Seq<char>, Result<u64, Seq<char>>),
    Outcome(Outcome),
}

impl CollectorReply {
    pub open spec fn view(&self) -> Reply {
        match self {
            CollectorReply::Ready { collector_id, result } => Reply::Ready(
                collector_id@,
                match result {
                    Ok(generation) => Ok(*generation),
                    Err(reason) => Err(reason@),
                },
            ),
            CollectorReply::Outcome(outcome) => Reply::Outcome(outcome@),
        }
    }
}

pub open spec fn replies_of(list: Seq<CollectorReply>) -> Seq<Reply> {
    Seq::new(list.len(), |i: int| list[i]@)
}

/// The deadline that is waited for.
pub struct CollectorTimer {
    pub generation: u64,
    pub at: u128,
    pub collector_id: String,
    pub deadline: DigitCollectorDeadline,
}

pub struct PendingDeadline {
    pub generation: u64,
    pub at: u128,
    pub collector_id: Seq<char>,
    pub deadline: DigitCollectorDeadline,
}

impl CollectorTimer {
    pub open spec fn view(&self) -> PendingDeadline {
        PendingDeadline {
            generation: self.generation,
            at: self.at,
            collector_id: self.collector_id@,
            deadline: self.deadline,
        }
    }
}

pub struct CollectionState {
    pub collectors: Seq<Collector>,
    pub timer_generation: u64,
    pub timer: Option<PendingDeadline>,
    pub replies: Seq<Reply>,
}

/// The position of a collector.
pub open spec fn index_of(list: Seq<Collector>, id: Seq<char>) -> Option<int>
    decreases list.len(),
{
    if list.len() == 0 {
        None
    } else {
        match index_of(list.drop_last(), id) {
            Some(i) => Some(i),
            None => if list.last().id() == id {
                Some(list.len() - 1)
            } else {
                None
            },
        }
    }
}

/// The index is that of the first collector with the name, where there is one.
pub proof fn lemma_index(list: Seq<Collector>, id: Seq<char>)
    ensures
        match index_of(list, id) {
            Some(i) => 0 <= i < list.len() && list[i].id() == id && forall|k: int|
                0 <= k < i ==> (#[trigger] list[k]).id() != id,
            None => forall|k: int| 0 <= k < list.len() ==> (#[trigger] list[k]).id() != id,
        },
    decreases list.len(),
{
    if list.len() > 0 {
        let front = list.drop_last();
        lemma_index(front, id);
        if index_of(front, id) is None {
            assert forall|k: int| 0 <= k < list.len() - 1 implies (#[trigger] list[k]).id() != id by {
                assert(front[k] == list[k]);
            }
        } else {
            let i = index_of(front, id)->Some_0;
            assert forall|k: int| 0 <= k < i implies (#[trigger] list[k]).id() != id by {
                assert(front[k] == list[k]);
            }
        }
    }
}

/// Where a collector of this name goes.
pub open spec fn place_of(list: Seq<Collector>, id: Seq<char>) -> int
    decreases list.len(),
{
    if list.len() == 0 || text_before(list.last().id(), id) {
        list.len() as int
    } else {
        place_of(list.drop_last(), id)
    }
}

/// Before its place stand the names that come first, behind it the others.
pub proof fn lemma_place(list: Seq<Collector>, id: Seq<char>)
    requires
        forall|i: int, j: int|
            0 <= i < j < list.len() ==> text_before(
                (#[trigger] list[i]).id(),
                (#[trigger] list[j]).id(),
            ),
    ensures
        0 <= place_of(list, id) <= list.len(),
        forall|k: int| 0 <= k < place_of(list, id) ==> text_before((#[trigger] list[k]).id(), id),
        forall|k: int|
            place_of(list, id) <= k < list.len() ==> !text_before((#[trigger] list[k]).id(), id),
    decreases list.len(),
{
    if list.len() > 0 {
        let front = list.drop_last();
        if text_before(list.last().id(), id) {
            assert forall|k: int| 0 <= k < list.len() implies text_before(
                (#[trigger] list[k]).id(),
                id,
            ) by {
                if k < list.len() - 1 {
                    lemma_text_before_transitive(list[k].id(), list.last().id(), id);
                }
            }
        } else {
            assert forall|i: int, j: int| 0 <= i < j < front.len() implies text_before(
                (#[trigger] front[i]).id(),
                (#[trigger] front[j]).id(),
            ) by {
                assert(front[i] == list[i] && front[j] == list[j]);
            }
            lemma_place(front, id);
            assert forall|k: int| 0 <= k < place_of(list, id) implies text_before(
                (#[trigger] list[k]).id(),
                id,
            ) by {
                assert(front[k] == list[k]);
            }
            assert forall|k: int| place_of(list, id) <= k < list.len() implies !text_before(
                (#[trigger] list[k]).id(),
                id,
            ) by {
                if k < front.len() {
                    assert(front[k] == list[k]);
                }
            }
        }
    }
}

/// A collector that may join keeps the list in order.
pub proof fn lemma_joined_keeps_order(list: Seq<Collector>, spec: DigitCollectionSpec)
    requires
        collectors_wf(list),
        registration(list, spec) is Ok,
    ensures
        collectors_wf(list.insert(place_of(list, spec.collector_id@), fresh(spec))),
{
    let id = spec.collector_id@;
    let at = place_of(list, id);
    lemma_place(list, id);
    let joined = list.insert(at, fresh(spec));
    assert forall|k: int| at <= k < list.len() implies text_before(id, (#[trigger] list[k]).id()) by {
        lemma_text_before_total(list[k].id(), id);
        if list[k].id() == id {
            assert(has_collector(list, id));
        }
    }
    assert forall|i: int, j: int| 0 <= i < j < joined.len() implies text_before(
        (#[trigger] joined[i]).id(),
        (#[trigger] joined[j]).id(),
    ) by {
        let oi = if i < at { i } else { i - 1 };
        let oj = if j < at { j } else { j - 1 };
        if i == at {
            assert(text_before(id, list[oj].id()));
        } else if j == at {
            assert(text_before(list[oi].id(), id));
        } else {
            assert(text_before(list[oi].id(), list[oj].id()));
        }
    }
    assert forall|i: int, j: int| 0 <= i < j < joined.len() implies !((
    #[trigger] joined[i]).spec.mode == crate::call::dtmf::DigitCollectionMode::Collect && (
    #[trigger] joined[j]).spec.mode == crate::call::dtmf::DigitCollectionMode::Collect
        && joined[i].spec.source_session_id@ == joined[j].spec.source_session_id@) by {
        let oi = if i < at { i } else { i - 1 };
        let oj = if j < at { j } else { j - 1 };
        if i == at {
            assert(joined[j] == list[oj]);
        } else if j == at {
            assert(joined[i] == list[oi]);
        } else {
            assert(joined[i] == list[oi] && joined[j] == list[oj]);
        }
    }
}

proof fn lemma_removed_keeps_order(list: Seq<Collector>, at: int)
    requires
        collectors_wf(list),
        0 <= at < list.len(),
    ensures
        collectors_wf(list.remove(at)),
{
    let left = list.remove(at);
    assert forall|i: int, j: int| 0 <= i < j < left.len() implies text_before(
        (#[trigger] left[i]).id(),
        (#[trigger] left[j]).id(),
    ) by {
        let oi = if i < at { i } else { i + 1 };
        let oj = if j < at { j } else { j + 1 };
        assert(text_before(list[oi].id(), list[oj].id()));
    }
    assert forall|i: int, j: int| 0 <= i < j < left.len() implies !((#[trigger] left[i]).spec.mode
        == crate::call::dtmf::DigitCollectionMode::Collect && (#[trigger] left[j]).spec.mode
        == crate::call::dtmf::DigitCollectionMode::Collect && left[i].spec.source_session_id@
        == left[j].spec.source_session_id@) by {
        let oi = if i < at { i } else { i + 1 };
        let oj = if j < at { j } else { j + 1 };
        assert(left[i] == list[oi] && left[j] == list[oj]);
    }
}

/// Collectors that differ in nothing but what they have gathered stay in order.
proof fn lemma_same_specs_keep_order(list: Seq<Collector>, other: Seq<Collector>)
    requires
        collectors_wf(list),
        other.len() == list.len(),
        forall|i: int| 0 <= i < list.len() ==> (#[trigger] other[i]).spec == list[i].spec,
    ensures
        collectors_wf(other),
{
    assert forall|i: int, j: int| 0 <= i < j < other.len() implies text_before(
        (#[trigger] other[i]).id(),
        (#[trigger] other[j]).id(),
    ) by {
        assert(text_before(list[i].id(), list[j].id()));
    }
    assert forall|i: int, j: int| 0 <= i < j < other.len() implies !((#[trigger] other[i]).spec.mode
        == crate::call::dtmf::DigitCollectionMode::Collect && (#[trigger] other[j]).spec.mode
        == crate::call::dtmf::DigitCollectionMode::Collect && other[i].spec.source_session_id@
        == other[j].spec.source_session_id@) by {
        assert(other[i].spec == list[i].spec && other[j].spec == list[j].spec);
    }
}

impl CollectionState {
    pub open spec fn wf(self) -> bool {
        collectors_wf(self.collectors)
    }

    pub open spec fn with_reply(self, reply: Reply) -> Self {
        CollectionState { replies: self.replies.push(reply), ..self }
    }

    pub open spec fn told_ready(self, c: Collector, result: Result<u64, Seq<char>>) -> Self {
        if c.ready_pending {
            self.with_reply(Reply::Ready(c.id(), result))
        } else {
            self
        }
    }

    pub open spec fn told_outcome(
        self,
        c: Collector,
        code: DigitCollectionResultCode,
        reason: Option<Seq<char>>,
    ) -> Self {
        if c.result_pending {
            self.with_reply(
                Reply::Outcome(
                    Outcome { collector_id: c.id(), code, digits: c.digits, reason },
                ),
            )
        } else {
            self
        }
    }

    /// The nearest deadline is waited for; an expiry of an earlier one comes too
    /// late.
    pub open spec fn scheduled(self) -> Self {
        CollectionState {
            timer_generation: bumped(self.timer_generation),
            timer: match nearest(self.collectors) {
                Some((at, collector_id, deadline)) => Some(
                    PendingDeadline {
                        generation: bumped(self.timer_generation),
                        at,
                        collector_id,
                        deadline,
                    },
                ),
                None => None,
            },
            ..self
        }
    }

    /// A collection that never began.
    #[verifier::opaque]
    pub open spec fn start_failed(self, o: OutboxState, id: Seq<char>, reason: Seq<char>) -> (
        Self,
        OutboxState,
    ) {
        match index_of(self.collectors, id) {
            None => (self, o),
            Some(i) => {
                let c = self.collectors[i];
                let code = if c.cancel_requested {
                    DigitCollectionResultCode::Cancelled
                } else {
                    DigitCollectionResultCode::Failed
                };
                (
                    CollectionState {
                        collectors: self.collectors.remove(i),
                        ..self
                    }.told_ready(c, Err(reason)).told_outcome(c, code, Some(reason)).scheduled(),
                    o.with(CallEffect::PublishView),
                )
            },
        }
    }

    /// The capability of a collector was given back, or could not be: the
    /// collection is over.
    #[verifier::opaque]
    pub open spec fn released(
        self,
        o: OutboxState,
        id: Seq<char>,
        failure: Option<Seq<char>>,
    ) -> (Self, OutboxState) {
        match index_of(self.collectors, id) {
            None => (self, o),
            Some(i) => {
                let c = self.collectors[i];
                if c.phase != DigitCollectorPhase::Releasing {
                    (self, o)
                } else {
                    let s = CollectionState { collectors: self.collectors.remove(i), ..self };
                    let outcome = match c.pending_outcome {
                        Some(outcome) => outcome,
                        None => Outcome {
                            collector_id: c.id(),
                            code: DigitCollectionResultCode::Failed,
                            digits: c.digits,
                            reason: Some("missing_collection_outcome"@),
                        },
                    };
                    let told = match failure {
                        Some(error) => Outcome {
                            code: DigitCollectionResultCode::Failed,
                            reason: Some("capability_release_failed:"@ + error),
                            ..outcome
                        },
                        None => outcome,
                    };
                    (
                        (if c.result_pending {
                            s.with_reply(Reply::Outcome(told))
                        } else {
                            s
                        }).scheduled(),
                        o.with(CallEffect::PublishView),
                    )
                }
            },
        }
    }

    /// A collection ends: its capability is given back, and only then its outcome
    /// is told.
    #[verifier::opaque]
    pub open spec fn finished(
        self,
        o: OutboxState,
        id: Seq<char>,
        code: DigitCollectionResultCode,
        reason: Option<Seq<char>>,
        generation: u64,
    ) -> (Self, OutboxState) {
        match index_of(self.collectors, id) {
            None => (self, o),
            Some(i) => {
                let c = self.collectors[i];
                if c.phase != DigitCollectorPhase::Active {
                    (self, o)
                } else {
                    let ended = Collector {
                        phase: DigitCollectorPhase::Releasing,
                        first_deadline: None,
                        inter_deadline: None,
                        overall_deadline: None,
                        pending_outcome: Some(
                            Outcome { collector_id: c.id(), code, digits: c.digits, reason },
                        ),
                        ..c
                    };
                    let s = CollectionState {
                        collectors: self.collectors.update(i, ended),
                        ..self
                    };
                    let (o1, r) = o.requested(
                        MediaRequest::ReleaseDtmf {
                            generation,
                            collector_id: c.spec.collector_id,
                        },
                    );
                    match r {
                        Ok(_) => (s.scheduled(), o1),
                        Err(e) => {
                            let (t, o2) = s.released(o1, id, Some(e.says()));
                            (t.scheduled(), o2)
                        },
                    }
                }
            },
        }
    }

    /// Why a collection cannot begin.
    pub open spec fn refusal(self, spec: DigitCollectionSpec, active: bool, member: bool) -> Option<
        Seq<char>,
    > {
        match spec.validity() {
            Err(e) => Some(e.code()),
            Ok(_) => if !active {
                Some("call_or_leg_terminating"@)
            } else {
                match registration(self.collectors, spec) {
                    Err(e) => Some(e.code()),
                    Ok(_) => if member {
                        None
                    } else {
                        Some("stale_source_session"@)
                    },
                }
            },
        }
    }

    /// A collection is asked for.
    #[verifier::opaque]
    pub open spec fn started(
        self,
        o: OutboxState,
        spec: DigitCollectionSpec,
        active: bool,
        member: bool,
        generation: u64,
    ) -> (Self, OutboxState) {
        let id = spec.collector_id@;
        match self.refusal(spec, active, member) {
            Some(reason) => (
                self.with_reply(Reply::Ready(id, Err(reason))).with_reply(
                    Reply::Outcome(
                        Outcome {
                            collector_id: id,
                            code: DigitCollectionResultCode::Failed,
                            digits: Seq::empty(),
                            reason: Some(reason),
                        },
                    ),
                ),
                o,
            ),
            None => {
                let s = CollectionState {
                    collectors: self.collectors.insert(
                        place_of(self.collectors, id),
                        fresh(spec),
                    ),
                    ..self
                };
                let (o1, r) = o.requested(
                    MediaRequest::AcquireDtmf { generation, collector_id: spec.collector_id },
                );
                match r {
                    Ok(_) => (s, o1.with(CallEffect::PublishView)),
                    Err(e) => {
                        let (t, o2) = s.start_failed(o1, id, e.says());
                        (t, o2.with(CallEffect::PublishView))
                    },
                }
            },
        }
    }

    /// A collection is to be cancelled. Says whether there is one.
    #[verifier::opaque]
    pub open spec fn cancelled(self, o: OutboxState, id: Seq<char>, generation: u64) -> (
        Self,
        OutboxState,
        bool,
    ) {
        match index_of(self.collectors, id) {
            None => (self, o, false),
            Some(i) => {
                let c = self.collectors[i];
                match c.phase {
                    DigitCollectorPhase::Acquiring => (
                        CollectionState {
                            collectors: self.collectors.update(
                                i,
                                Collector { cancel_requested: true, ready_pending: false, ..c },
                            ),
                            ..self
                        }.told_ready(c, Err("dtmf_collection_cancelled"@)),
                        o,
                        true,
                    ),
                    DigitCollectorPhase::Active => {
                        let (s, o1) = self.finished(
                            o,
                            id,
                            DigitCollectionResultCode::Cancelled,
                            Some("dtmf_collection_cancelled"@),
                            generation,
                        );
                        (s, o1, true)
                    },
                    DigitCollectorPhase::Releasing => (self, o, true),
                }
            },
        }
    }

    /// The capability of a collector is there.
    #[verifier::opaque]
    pub open spec fn acquired(
        self,
        o: OutboxState,
        id: Seq<char>,
        matching: bool,
        media_generation: u64,
        generation: u64,
        now: u64,
    ) -> (Self, OutboxState) {
        match index_of(self.collectors, id) {
            None => (self, o),
            Some(i) => {
                let c = self.collectors[i];
                if c.phase != DigitCollectorPhase::Acquiring {
                    (self, o)
                } else if !matching {
                    self.start_failed(o, id, "dtmf_capability_result_mismatch"@)
                } else if c.cancel_requested {
                    CollectionState {
                        collectors: self.collectors.update(
                            i,
                            Collector {
                                phase: DigitCollectorPhase::Active,
                                ready_pending: false,
                                ..c
                            },
                        ),
                        ..self
                    }.told_ready(c, Err("dtmf_collection_cancelled"@)).finished(
                        o,
                        id,
                        DigitCollectionResultCode::Cancelled,
                        Some("dtmf_collection_cancelled"@),
                        generation,
                    )
                } else {
                    (
                        CollectionState {
                            collectors: self.collectors.update(
                                i,
                                Collector { ready_pending: false, ..c }.activated(now),
                            ),
                            ..self
                        }.told_ready(c, Ok(media_generation)).scheduled(),
                        o.with(CallEffect::PublishView),
                    )
                }
            },
        }
    }

    /// The capability of a collector could not be had.
    pub open spec fn refused(self, o: OutboxState, id: Seq<char>, reason: Seq<char>) -> (
        Self,
        OutboxState,
    ) {
        match index_of(self.collectors, id) {
            None => (self, o),
            Some(i) => if self.collectors[i].phase != DigitCollectorPhase::Acquiring {
                (self, o)
            } else {
                self.start_failed(o, id, reason)
            },
        }
    }

    /// Collections end one after the other.
    pub open spec fn finished_all(
        self,
        o: OutboxState,
        done: Seq<Finished>,
        generation: u64,
    ) -> (Self, OutboxState)
        decreases done.len(),
    {
        if done.len() == 0 {
            (self, o)
        } else {
            let (s, o1) = self.finished_all(o, done.drop_last(), generation);
            s.finished(
                o1,
                done.last().collector_id,
                done.last().code,
                done.last().reason,
                generation,
            )
        }
    }

    /// A digit is handed to the collectors.
    pub open spec fn digit_taken(
        self,
        o: OutboxState,
        source: Seq<char>,
        digit: DtmfDigit,
        now: u64,
        generation: u64,
    ) -> (Self, OutboxState) {
        let s = CollectionState {
            collectors: all_applied(self.collectors, source, digit, now),
            ..self
        };
        let (t, o1) = s.finished_all(
            o,
            finished_by(self.collectors, source, digit, now),
            generation,
        );
        (t.scheduled(), o1)
    }

    /// A deadline has passed. An expiry that was superseded changes nothing.
    pub open spec fn timed_out(
        self,
        o: OutboxState,
        timer_generation: u64,
        id: Seq<char>,
        deadline: DigitCollectorDeadline,
        generation: u64,
    ) -> (Self, OutboxState) {
        if timer_generation != self.timer_generation {
            (self, o)
        } else {
            let (s, o1) = CollectionState { timer: None, ..self }.finished(
                o,
                id,
                deadline.code(),
                None,
                generation,
            );
            (s.scheduled(), o1)
        }
    }

    /// The first `n` collectors are told that all is over, and their capabilities
    /// are given back as far as the media worker can be reached.
    pub open spec fn dismissed(
        self,
        o: OutboxState,
        list: Seq<Collector>,
        reason: Seq<char>,
        generation: u64,
    ) -> (Self, OutboxState)
        decreases list.len(),
    {
        if list.len() == 0 {
            (self, o)
        } else {
            let (s, o1) = self.dismissed(o, list.drop_last(), reason, generation);
            let c = list.last();
            (
                s.told_ready(c, Err(reason)).told_outcome(
                    c,
                    DigitCollectionResultCode::Failed,
                    Some(reason),
                ),
                o1.requested(
                    MediaRequest::ReleaseDtmf { generation, collector_id: c.spec.collector_id },
                ).0,
            )
        }
    }

    /// Every collection ends with the call.
    pub open spec fn aborted(self, o: OutboxState, reason: Seq<char>, generation: u64) -> (
        Self,
        OutboxState,
    ) {
        CollectionState {
            collectors: Seq::empty(),
            timer_generation: bumped(self.timer_generation),
            timer: None,
            ..self
        }.dismissed(o, self.collectors, reason, generation)
    }
}

/// Aborting leaves no collector and no deadline, so that nothing of an earlier
/// collection can happen any more.
pub proof fn lemma_abort_clears(s: CollectionState, o: OutboxState, reason: Seq<char>, generation: u64)
    ensures
        s.aborted(o, reason, generation).0.collectors.len() == 0,
        s.aborted(o, reason, generation).0.timer is None,
        s.timer_generation < u64::MAX ==> s.aborted(o, reason, generation).0.timer_generation
            > s.timer_generation,
{
    lemma_dismissed_keeps(
        CollectionState {
            collectors: Seq::empty(),
            timer_generation: bumped(s.timer_generation),
            timer: None,
            ..s
        },
        o,
        s.collectors,
        reason,
        generation,
    );
}

proof fn lemma_dismissed_keeps(
    s: CollectionState,
    o: OutboxState,
    list: Seq<Collector>,
    reason: Seq<char>,
    generation: u64,
)
    ensures
        s.dismissed(o, list, reason, generation).0.collectors == s.collectors,
        s.dismissed(o, list, reason, generation).0.timer == s.timer,
        s.dismissed(o, list, reason, generation).0.timer_generation == s.timer_generation,
    decreases list.len(),
{
    if list.len() > 0 {
        lemma_dismissed_keeps(s, o, list.drop_last(), reason, generation);
    }
}

/// An expiry of a deadline that was rescheduled since changes nothing.
pub proof fn lemma_superseded_deadline_is_ignored(
    s: CollectionState,
    o: OutboxState,
    id: Seq<char>,
    deadline: DigitCollectorDeadline,
    generation: u64,
)
    requires
        s.timer_generation < u64::MAX,
    ensures
        s.scheduled().timed_out(o, s.timer_generation, id, deadline, generation) == (
            s.scheduled(),
            o,
        ),
{
}

pub struct DigitCollection {
    pub collectors: Vec<DigitCollectorState>,
    pub timer_generation: u64,
    pub timer: Option<CollectorTimer>,
    pub replies: Vec<CollectorReply>,
}

impl DigitCollection {
    pub open spec fn view(&self) -> CollectionState {
        CollectionState {
            collectors: collectors_of(self.collectors@),
            timer_generation: self.timer_generation,
            timer: match self.timer {
                Some(timer) => Some(timer@),
                None => None,
            },
            replies: replies_of(self.replies@),
        }
    }

    pub fn new() -> (collection: Self)
        ensures
            collection@.wf(),
            collection@ == (CollectionState {
                collectors: Seq::empty(),
                timer_generation: 0,
                timer: None,
                replies: Seq::empty(),
            }),
    {
        let collection = DigitCollection {
            collectors: Vec::new(),
            timer_generation: 0,
            timer: None,
            replies: Vec::new(),
        };
        assert(collectors_of(collection.collectors@) =~= Seq::<Collector>::empty());
        assert(replies_of(collection.replies@) =~= Seq::<Reply>::empty());
        collection
    }

    fn reply(&mut self, reply: CollectorReply)
        ensures
            final(self)@ == old(self)@.with_reply(reply@),
            final(self).collectors == old(self).collectors,
    {
        let ghost before = replies_of(self.replies@);
        self.replies.push(reply);
        assert(replies_of(self.replies@) =~= before.push(reply@));
    }

    fn find(&self, collector_id: &str) -> (found: Option<usize>)
        ensures
            match found {
                Some(i) => index_of(self@.collectors, collector_id@) == Some(i as int) && i
                    < self.collectors@.len() && self@.collectors[i as int].id() == collector_id@,
                None => index_of(self@.collectors, collector_id@) is None,
            },
    {
        let ghost list = self@.collectors;
        proof {
            lemma_index(list, collector_id@);
        }
        let mut i: usize = 0;
        while i < self.collectors.len()
            invariant
                i <= self.collectors.len(),
                list == collectors_of(self.collectors@),
                forall|k: int| 0 <= k < i ==> (#[trigger] list[k]).id() != collector_id@,
                match index_of(list, collector_id@) {
                    Some(n) => 0 <= n < list.len() && list[n].id() == collector_id@ && forall|
                        k: int,
                    |
                        0 <= k < n ==> (#[trigger] list[k]).id() != collector_id@,
                    None => forall|k: int|
                        0 <= k < list.len() ==> (#[trigger] list[k]).id() != collector_id@,
                },
            decreases self.collectors.len() - i,
        {
            assert(list[i as int] == self.collectors@[i as int]@);
            if same_text(self.collectors[i].spec.collector_id.as_str(), collector_id) {
                return Some(i);
            }
            i = i + 1;
        }
        None
    }

    fn schedule(&mut self)
        ensures
            final(self)@ == old(self)@.scheduled(),
            final(self).collectors == old(self).collectors,
    {
        let next = next_digit_collector_deadline(&self.collectors);
        self.timer_generation = self.timer_generation.saturating_add(1);
        self.timer = match next {
            Some((at, collector_id, deadline)) => Some(
                CollectorTimer { generation: self.timer_generation, at, collector_id, deadline },
            ),
            None => None,
        };
    }

    fn take_out(&mut self, i: usize) -> (collector: DigitCollectorState)
        requires
            i < old(self).collectors@.len(),
        ensures
            collector@ == old(self)@.collectors[i as int],
            final(self)@ == (CollectionState {
                collectors: old(self)@.collectors.remove(i as int),
                ..old(self)@
            }),
    {
        let ghost before = self@.collectors;
        let collector = self.collectors.remove(i);
        assert(collectors_of(self.collectors@) =~= before.remove(i as int));
        collector
    }

    fn tell_ready(&mut self, collector: &mut DigitCollectorState, result: Result<u64, String>)
        ensures
            final(self)@ == old(self)@.told_ready(
                old(collector)@,
                match result {
                    Ok(generation) => Ok(generation),
                    Err(reason) => Err(reason@),
                },
            ),
            final(self).collectors == old(self).collectors,
            final(collector)@ == (Collector { ready_pending: false, ..old(collector)@ }),
    {
        if collector.ready_pending {
            self.reply(
                CollectorReply::Ready {
                    collector_id: collector.spec.collector_id.clone(),
                    result,
                },
            );
        }
        collector.ready_pending = false;
    }

    fn tell_outcome(
        &mut self,
        collector: DigitCollectorState,
        code: DigitCollectionResultCode,
        reason: Option<String>,
    )
        ensures
            final(self)@ == old(self)@.told_outcome(collector@, code, opt_text(reason)),
            final(self).collectors == old(self).collectors,
    {
        if collector.result_pending {
            self.reply(
                CollectorReply::Outcome(
                    DigitCollectionOutcome {
                        collector_id: collector.spec.collector_id.clone(),
                        code,
                        digits: collector.digits,
                        reason,
                    },
                ),
            );
        }
    }

    fn fail_digit_collection_start(&mut self, out: &mut Outbox, collector_id: &str, error: &str)
        requires
            old(self)@.wf(),
        ensures
            (final(self)@, final(out)@) == old(self)@.start_failed(
                old(out)@,
                collector_id@,
                error@,
            ),
            final(self)@.wf(),
    {
        proof {
            reveal(CollectionState::start_failed);
            lemma_index(self@.collectors, collector_id@);
        }
        let i = match self.find(collector_id) {
            None => return,
            Some(i) => i,
        };
        proof {
            lemma_removed_keeps_order(self@.collectors, i as int);
        }
        let mut collector = self.take_out(i);
        let code = if collector.cancel_requested {
            DigitCollectionResultCode::Cancelled
        } else {
            DigitCollectionResultCode::Failed
        };
        self.tell_ready(&mut collector, Err(error.to_owned()));
        self.tell_outcome(collector, code, Some(error.to_owned()));
        self.schedule();
        out.push(CallEffect::PublishView);
    }

    pub fn handle_dtmf_capability_released(
        &mut self,
        out: &mut Outbox,
        collector_id: &str,
        failure: Option<String>,
    )
        requires
            old(self)@.wf(),
        ensures
            (final(self)@, final(out)@) == old(self)@.released(
                old(out)@,
                collector_id@,
                opt_text(failure),
            ),
            final(self)@.wf(),
    {
        proof {
            reveal(CollectionState::released);
            lemma_index(self@.collectors, collector_id@);
        }
        let i = match self.find(collector_id) {
            None => return,
            Some(i) => i,
        };
        if self.collectors[i].phase != DigitCollectorPhase::Releasing {
            return;
        }
        proof {
            lemma_removed_keeps_order(self@.collectors, i as int);
        }
        let collector = self.take_out(i);
        let told = collector.result_pending;
        let mut outcome = match collector.pending_outcome {
            Some(outcome) => outcome,
            None => DigitCollectionOutcome {
                collector_id: collector.spec.collector_id.clone(),
                code: DigitCollectionResultCode::Failed,
                digits: collector.digits,
                reason: Some("missing_collection_outcome".to_owned()),
            },
        };
        match failure {
            Some(error) => {
                outcome.code = DigitCollectionResultCode::Failed;
                outcome.reason = Some(join2("capability_release_failed:", error.as_str()));
            },
            None => {},
        }
        if told {
            self.reply(CollectorReply::Outcome(outcome));
        }
        self.schedule();
        out.push(CallEffect::PublishView);
    }

    pub fn finish_digit_collection(
        &mut self,
        out: &mut Outbox,
        collector_id: &str,
        code: DigitCollectionResultCode,
        reason: Option<String>,
        media_generation: u64,
    )
        requires
            old(self)@.wf(),
        ensures
            (final(self)@, final(out)@) == old(self)@.finished(
                old(out)@,
                collector_id@,
                code,
                opt_text(reason),
                media_generation,
            ),
            final(self)@.wf(),
    {
        proof {
            reveal(CollectionState::finished);
            lemma_index(self@.collectors, collector_id@);
        }
        let i = match self.find(collector_id) {
            None => return,
            Some(i) => i,
        };
        if self.collectors[i].phase != DigitCollectorPhase::Active {
            return;
        }
        let ghost before = self@.collectors;
        let ghost text = opt_text(reason);
        let id = self.collectors[i].spec.collector_id.clone();
        let mut collector = self.collectors.remove(i);
        let digits = copy_digits(&collector.digits);
        collector.phase = DigitCollectorPhase::Releasing;
        collector.first_deadline = None;
        collector.inter_deadline = None;
        collector.overall_deadline = None;
        collector.pending_outcome = Some(
            DigitCollectionOutcome {
                collector_id: collector.spec.collector_id.clone(),
                code,
                digits,
                reason,
            },
        );
        self.collectors.insert(i, collector);
        proof {
            assert(self@.collectors =~= before.update(i as int, collector@));
            lemma_same_specs_keep_order(before, self@.collectors);
        }
        match out.request(
            MediaRequest::ReleaseDtmf { generation: media_generation, collector_id: id },
        ) {
            Ok(_) => {},
            Err(error) => {
                self.handle_dtmf_capability_released(out, collector_id, Some(error.text()));
            },
        }
        self.schedule();
    }

    /// A collection is asked for: `active` says whether the call is answered and
    /// not ending, `member` whether the source is one of its sessions.
    pub fn start_digit_collection(
        &mut self,
        out: &mut Outbox,
        spec: DigitCollectionSpec,
        active: bool,
        member: bool,
        media_generation: u64,
    )
        requires
            old(self)@.wf(),
        ensures
            (final(self)@, final(out)@) == old(self)@.started(
                old(out)@,
                spec,
                active,
                member,
                media_generation,
            ),
            final(self)@.wf(),
    {
        proof {
            reveal(CollectionState::started);
        }
        let refusal: Option<String> = match spec.validate() {
            Err(error) => Some(error.text()),
            Ok(_) => if !active {
                Some("call_or_leg_terminating".to_owned())
            } else {
                match validate_digit_collector_registration(&self.collectors, &spec) {
                    Err(error) => Some(error.text()),
                    Ok(_) => if member {
                        None
                    } else {
                        Some("stale_source_session".to_owned())
                    },
                }
            },
        };
        match refusal {
            Some(reason) => {
                self.reply(
                    CollectorReply::Ready {
                        collector_id: spec.collector_id.clone(),
                        result: Err(reason.clone()),
                    },
                );
                self.reply(
                    CollectorReply::Outcome(
                        DigitCollectionOutcome {
                            collector_id: spec.collector_id,
                            code: DigitCollectionResultCode::Failed,
                            digits: Vec::new(),
                            reason: Some(reason),
                        },
                    ),
                );
            },
            None => {
                let ghost before = self@.collectors;
                let ghost wanted = spec;
                proof {
                    lemma_joined_keeps_order(before, spec);
                }
                let id = spec.collector_id.clone();
                let at = self.place(id.as_str());
                self.collectors.insert(at, DigitCollectorState::new(spec));
                assert(self@.collectors =~= before.insert(at as int, fresh(wanted)));
                match out.request(
                    MediaRequest::AcquireDtmf {
                        generation: media_generation,
                        collector_id: id.clone(),
                    },
                ) {
                    Ok(_) => {},
                    Err(error) => {
                        let text = error.text();
                        self.fail_digit_collection_start(out, id.as_str(), text.as_str());
                    },
                }
                out.push(CallEffect::PublishView);
            },
        }
    }

    fn place(&self, collector_id: &str) -> (at: usize)
        ensures
            at == place_of(self@.collectors, collector_id@),
            at <= self.collectors@.len(),
    {
        let ghost list = self@.collectors;
        let mut at: usize = self.collectors.len();
        assert(list.take(at as int) =~= list);
        while at > 0
            invariant
                at <= self.collectors.len(),
                list == collectors_of(self.collectors@),
                place_of(list, collector_id@) == place_of(list.take(at as int), collector_id@),
            decreases at,
        {
            assert(list.take(at as int).last() == self.collectors@[at - 1]@);
            if comes_before(self.collectors[at - 1].spec.collector_id.as_str(), collector_id) {
                return at;
            }
            assert(list.take(at as int).drop_last() =~= list.take(at - 1));
            at = at - 1;
        }
        at
    }

    pub fn cancel_digit_collection(
        &mut self,
        out: &mut Outbox,
        collector_id: &str,
        media_generation: u64,
    ) -> (found: bool)
        requires
            old(self)@.wf(),
        ensures
            (final(self)@, final(out)@, found) == old(self)@.cancelled(
                old(out)@,
                collector_id@,
                media_generation,
            ),
            final(self)@.wf(),
    {
        proof {
            reveal(CollectionState::cancelled);
            lemma_index(self@.collectors, collector_id@);
        }
        let i = match self.find(collector_id) {
            None => return false,
            Some(i) => i,
        };
        match self.collectors[i].phase {
            DigitCollectorPhase::Acquiring => {
                let ghost before = self@.collectors;
                let mut collector = self.collectors.remove(i);
                let _ = collector.request_cancel();
                let ghost asked = collector@;
                let pending = collector.ready_pending;
                collector.ready_pending = false;
                self.collectors.insert(i, collector);
                proof {
                    assert(self@.collectors =~= before.update(i as int, collector@));
                    lemma_same_specs_keep_order(before, self@.collectors);
                }
                if pending {
                    self.reply(
                        CollectorReply::Ready {
                            collector_id: collector_id.to_owned(),
                            result: Err("dtmf_collection_cancelled".to_owned()),
                        },
                    );
                }
            },
            DigitCollectorPhase::Active => {
                self.finish_digit_collection(
                    out,
                    collector_id,
                    DigitCollectionResultCode::Cancelled,
                    Some("dtmf_collection_cancelled".to_owned()),
                    media_generation,
                );
            },
            DigitCollectorPhase::Releasing => {},
        }
        true
    }

    /// The capability of a collector is there; `matching` says whether it is the
    /// one that was asked for.
    pub fn handle_dtmf_capability_acquired(
        &mut self,
        out: &mut Outbox,
        collector_id: &str,
        matching: bool,
        acquired_generation: u64,
        media_generation: u64,
        now: u64,
    )
        requires
            old(self)@.wf(),
        ensures
            (final(self)@, final(out)@) == old(self)@.acquired(
                old(out)@,
                collector_id@,
                matching,
                acquired_generation,
                media_generation,
                now,
            ),
            final(self)@.wf(),
    {
        proof {
            reveal(CollectionState::acquired);
            lemma_index(self@.collectors, collector_id@);
        }
        let i = match self.find(collector_id) {
            None => return,
            Some(i) => i,
        };
        if self.collectors[i].phase != DigitCollectorPhase::Acquiring {
            return;
        }
        if !matching {
            self.fail_digit_collection_start(
                out,
                collector_id,
                "dtmf_capability_result_mismatch",
            );
            return;
        }
        let ghost before = self@.collectors;
        let mut collector = self.collectors.remove(i);
        let pending = collector.ready_pending;
        let cancelled = collector.cancel_requested;
        collector.ready_pending = false;
        if cancelled {
            collector.phase = DigitCollectorPhase::Active;
        } else {
            collector.activate(now);
        }
        self.collectors.insert(i, collector);
        proof {
            assert(self@.collectors =~= before.update(i as int, collector@));
            lemma_same_specs_keep_order(before, self@.collectors);
        }
        if pending {
            let result: Result<u64, String> = if cancelled {
                Err("dtmf_collection_cancelled".to_owned())
            } else {
                Ok(acquired_generation)
            };
            self.reply(CollectorReply::Ready { collector_id: collector_id.to_owned(), result });
        }
        if cancelled {
            self.finish_digit_collection(
                out,
                collector_id,
                DigitCollectionResultCode::Cancelled,
                Some("dtmf_collection_cancelled".to_owned()),
                media_generation,
            );
            return;
        }
        self.schedule();
        out.push(CallEffect::PublishView);
    }

    /// The capability of a collector could not be had.
    pub fn handle_dtmf_capability_refused(
        &mut self,
        out: &mut Outbox,
        collector_id: &str,
        error: &str,
    )
        requires
            old(self)@.wf(),
        ensures
            (final(self)@, final(out)@) == old(self)@.refused(
                old(out)@,
                collector_id@,
                error@,
            ),
            final(self)@.wf(),
    {
        proof {
            lemma_index(self@.collectors, collector_id@);
        }
        match self.find(collector_id) {
            None => {},
            Some(i) => {
                if self.collectors[i].phase == DigitCollectorPhase::Acquiring {
                    self.fail_digit_collection_start(out, collector_id, error);
                }
            },
        }
    }

    /// Hands a digit to the collectors. Says whether it was consumed.
    pub fn collect_digit(
        &mut self,
        out: &mut Outbox,
        event: &DigitEvent,
        now: u64,
        media_generation: u64,
    ) -> (consumed: bool)
        requires
            old(self)@.wf(),
        ensures
            (final(self)@, final(out)@) == old(self)@.digit_taken(
                old(out)@,
                event.source_session_id@,
                event.digit,
                now,
                media_generation,
            ),
            consumed == exists|i: int|
                0 <= i < old(self)@.collectors.len() && crate::call::dtmf::consumes(
                    (#[trigger] old(self)@.collectors[i]).digit_applied(
                        event.source_session_id@,
                        event.digit,
                        now,
                    ).1,
                ),
            final(self)@.wf(),
    {
        let ghost before = self@;
        let ghost raw = self.collectors@;
        let ghost o = out@;
        let ghost source = event.source_session_id@;
        let batch = apply_digit_to_collectors(&mut self.collectors, event, now);
        let ghost s = self@;
        let ghost done = finished_of(batch.completed@);
        let consumed = batch.consume;
        proof {
            let applied = all_applied(before.collectors, source, event.digit, now);
            assert(self@.collectors == applied);
            assert forall|i: int| 0 <= i < before.collectors.len() implies (
            #[trigger] applied[i]).spec == before.collectors[i].spec by {}
            lemma_same_specs_keep_order(before.collectors, self@.collectors);
            assert(done.take(0) =~= Seq::<Finished>::empty());
            if consumed {
                let i = choose|i: int|
                    0 <= i < raw.len() && crate::call::dtmf::consumes(
                        (#[trigger] raw[i])@.digit_applied(source, event.digit, now).1,
                    );
                assert(before.collectors[i] == raw[i]@);
            } else {
                assert forall|i: int| 0 <= i < before.collectors.len() implies !crate::call::dtmf::consumes(
                    (#[trigger] before.collectors[i]).digit_applied(source, event.digit, now).1,
                ) by {
                    assert(before.collectors[i] == raw[i]@);
                }
            }
        }
        let mut completed = batch.completed;
        let mut n: usize = 0;
        while n < completed.len()
            invariant
                n <= completed.len(),
                done == finished_of(completed@),
                self@.wf(),
                (self@, out@) == s.finished_all(o, done.take(n as int), media_generation),
            decreases completed.len() - n,
        {
            let item = &completed[n];
            let reason = match &item.reason {
                Some(text) => Some(text.clone()),
                None => None,
            };
            proof {
                assert(done.take(n + 1).drop_last() =~= done.take(n as int));
                assert(done.take(n + 1).last() == completed@[n as int]@);
            }
            self.finish_digit_collection(
                out,
                item.collector_id.as_str(),
                item.code,
                reason,
                media_generation,
            );
            n = n + 1;
        }
        assert(done.take(n as int) =~= done);
        self.schedule();
        consumed
    }

    pub fn handle_digit_collector_timeout(
        &mut self,
        out: &mut Outbox,
        generation: u64,
        collector_id: &str,
        deadline: DigitCollectorDeadline,
        media_generation: u64,
    )
        requires
            old(self)@.wf(),
        ensures
            (final(self)@, final(out)@) == old(self)@.timed_out(
                old(out)@,
                generation,
                collector_id@,
                deadline,
                media_generation,
            ),
            final(self)@.wf(),
    {
        if generation != self.timer_generation {
            return;
        }
        self.timer = None;
        self.finish_digit_collection(
            out,
            collector_id,
            deadline.result_code(),
            None,
            media_generation,
        );
        self.schedule();
    }

    /// Ends every collection, for the given reason.
    pub fn abort_digit_collection(&mut self, out: &mut Outbox, reason: &str, media_generation: u64)
        requires
            old(self)@.wf(),
        ensures
            (final(self)@, final(out)@) == old(self)@.aborted(
                old(out)@,
                reason@,
                media_generation,
            ),
            final(self)@.wf(),
    {
        let ghost o = out@;
        let ghost list = self@.collectors;
        let mut rest: Vec<DigitCollectorState> = Vec::new();
        std::mem::swap(&mut self.collectors, &mut rest);
        self.timer_generation = self.timer_generation.saturating_add(1);
        self.timer = None;
        assert(self@.collectors =~= Seq::<Collector>::empty());
        let ghost cleared = self@;
        let ghost all = rest@;
        let ghost mut n: int = 0;
        proof {
            assert(list.take(0) =~= Seq::<Collector>::empty());
            assert(rest@ =~= all.skip(0));
        }
        while rest.len() > 0
            invariant
                0 <= n <= all.len(),
                list == collectors_of(all),
                rest@ == all.skip(n),
                self.collectors@.len() == 0,
                (self@, out@) == cleared.dismissed(o, list.take(n), reason@, media_generation),
            decreases rest@.len(),
        {
            let mut collector = rest.remove(0);
            proof {
                assert(collector == all[n]);
                assert(rest@ =~= all.skip(n + 1));
                assert(list.take(n + 1).drop_last() =~= list.take(n));
                assert(list.take(n + 1).last() == collector@);
                n = n + 1;
            }
            let id = collector.spec.collector_id.clone();
            self.tell_ready(&mut collector, Err(reason.to_owned()));
            let _ = out.request(
                MediaRequest::ReleaseDtmf { generation: media_generation, collector_id: id },
            );
            self.tell_outcome(
                collector,
                DigitCollectionResultCode::Failed,
                Some(reason.to_owned()),
            );
        }
        proof {
            assert(list.take(n) =~= list);
            assert(self@.collectors =~= Seq::<Collector>::empty());
        }
    }
}

} // verus!
