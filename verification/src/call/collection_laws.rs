//! What holds of the collections of a call: who is told what and when, which
//! capability is asked for and given back, and which deadline is waited for.

use crate::call::collection::{
    index_of, lemma_index, CollectionState, Reply,
};
use crate::call::coordinator::{CallEffect, MediaRequest, OutboxState};
use crate::call::digit_laws::{keeps, listens};
use crate::call::dtmf::{
    fresh, nearest, registration, Collector, DigitCollectionResultCode, DigitCollectionSpec,
    DigitCollectorDeadline, DigitCollectorPhase, Outcome,
};
use crate::call::leg_laws::{adds, media_takes};
use crate::dtmf::DtmfDigit;
use vstd::prelude::*;

verus! {

/// Whether a collector of this name stands at this place, and none before it.
pub open spec fn stands_at(s: CollectionState, id: Seq<char>, i: int) -> bool {
    index_of(s.collectors, id) == Some(i)
}

/// Whether the deadline that is waited for is the nearest of the collectors, under a
/// number that no earlier one had.
pub open spec fn waits_anew(before: CollectionState, after: CollectionState) -> bool {
    &&& before.timer_generation < u64::MAX ==> after.timer_generation > before.timer_generation
    &&& match (after.timer, nearest(after.collectors)) {
        (Some(timer), Some((at, id, kind))) => timer.at == at && timer.collector_id == id
            && timer.deadline == kind && timer.generation == after.timer_generation,
        (None, None) => true,
        _ => false,
    }
}

/// Whether exactly these replies were given, behind those before.
pub open spec fn told(before: CollectionState, after: CollectionState, added: Seq<Reply>) -> bool {
    after.replies =~= before.replies + added
}

/// Scheduling changes nothing but the deadline that is waited for.
pub proof fn lemma_schedule_waits_for_the_nearest(s: CollectionState)
    ensures
        waits_anew(s, s.scheduled()),
        s.timer_generation < u64::MAX ==> s.scheduled().timer_generation == s.timer_generation + 1,
        s.scheduled().collectors == s.collectors,
        s.scheduled().replies == s.replies,
{
}

/// What stands in the way of a collection, the first that does: what is asked for,
/// the end of the call, the other collectors, and a session that is not of the call.
pub proof fn lemma_why_a_collection_is_refused(
    s: CollectionState,
    spec: DigitCollectionSpec,
    active: bool,
    member: bool,
)
    ensures
        s.refusal(spec, active, member) is None <==> spec.validity() is Ok && active
            && registration(s.collectors, spec) is Ok && member,
        spec.validity() is Ok && !active ==> s.refusal(spec, active, member) == Some(
            "call_or_leg_terminating"@,
        ),
        spec.validity() is Ok && active && registration(s.collectors, spec) is Ok && !member
            ==> s.refusal(spec, active, member) == Some("stale_source_session"@),
        spec.validity() matches Err(e) ==> s.refusal(spec, active, member) == Some(e.code()),
        spec.validity() is Ok && active ==> (registration(s.collectors, spec) matches Err(e)
            ==> s.refusal(spec, active, member) == Some(e.code())),
{
}

/// A collection that is refused is answered at once: it is not ready, and it failed,
/// for the same reason. Nothing else happens.
pub proof fn lemma_refused_collection_is_answered(
    s: CollectionState,
    o: OutboxState,
    spec: DigitCollectionSpec,
    active: bool,
    member: bool,
    generation: u64,
)
    requires
        s.refusal(spec, active, member) is Some,
    ensures
        ({
            let (t, o1) = s.started(o, spec, active, member, generation);
            let reason = s.refusal(spec, active, member)->Some_0;
            &&& o1 == o
            &&& t.collectors == s.collectors
            &&& t.timer == s.timer && t.timer_generation == s.timer_generation
            &&& told(
                s,
                t,
                seq![
                    Reply::Ready(spec.collector_id@, Err(reason)),
                    Reply::Outcome(
                        Outcome {
                            collector_id: spec.collector_id@,
                            code: DigitCollectionResultCode::Failed,
                            digits: Seq::empty(),
                            reason: Some(reason),
                        },
                    ),
                ],
            )
        }),
{
    reveal(CollectionState::started);
}

/// A collection that may begin asks the media worker for its capability, in the
/// media generation of now, and waits: nobody is told anything yet.
pub proof fn lemma_collection_asks_for_its_capability(
    s: CollectionState,
    o: OutboxState,
    spec: DigitCollectionSpec,
    active: bool,
    member: bool,
    generation: u64,
)
    requires
        s.wf(),
        s.refusal(spec, active, member) is None,
        media_takes(o),
    ensures
        ({
            let (t, o1) = s.started(o, spec, active, member, generation);
            &&& adds(
                o,
                o1,
                seq![
                    CallEffect::Media(
                        MediaRequest::AcquireDtmf { generation, collector_id: spec.collector_id },
                    ),
                    CallEffect::PublishView,
                ],
            )
            &&& t.collectors.len() == s.collectors.len() + 1
            &&& t.collectors.to_multiset() == s.collectors.to_multiset().insert(fresh(spec))
            &&& t.wf()
            &&& t.replies == s.replies
            &&& t.timer == s.timer
        }),
{
    reveal(CollectionState::started);
    reveal(OutboxState::requested);
    let id = spec.collector_id@;
    crate::call::collection::lemma_joined_keeps_order(s.collectors, spec);
    let at = crate::call::collection::place_of(s.collectors, id);
    crate::call::collection::lemma_place(s.collectors, id);
    s.collectors.to_multiset_ensures();
    vstd::seq_lib::to_multiset_insert(s.collectors, at, fresh(spec));
}

/// A collection whose capability could not be had is over: it is not there any more,
/// and who waits for it is told that it is not ready and that it failed, or was
/// cancelled where that was asked for.
pub proof fn lemma_failed_start_ends_the_collection(
    s: CollectionState,
    o: OutboxState,
    id: Seq<char>,
    i: int,
    reason: Seq<char>,
)
    requires
        stands_at(s, id, i),
    ensures
        ({
            let (t, o1) = s.start_failed(o, id, reason);
            let c = s.collectors[i];
            let ready = if c.ready_pending {
                seq![Reply::Ready(id, Err(reason))]
            } else {
                Seq::empty()
            };
            let outcome = if c.result_pending {
                seq![
                    Reply::Outcome(
                        Outcome {
                            collector_id: id,
                            code: if c.cancel_requested {
                                DigitCollectionResultCode::Cancelled
                            } else {
                                DigitCollectionResultCode::Failed
                            },
                            digits: c.digits,
                            reason: Some(reason),
                        },
                    ),
                ]
            } else {
                Seq::empty()
            };
            &&& adds(o, o1, seq![CallEffect::PublishView])
            &&& t.collectors == s.collectors.remove(i)
            &&& told(s, t, ready + outcome)
            &&& waits_anew(s, t)
        }),
{
    reveal(CollectionState::start_failed);
    lemma_index(s.collectors, id);
}

/// A capability that is there makes a collector active: from now on it gathers, and
/// who asked is told the media generation, once.
pub proof fn lemma_granted_capability_activates(
    s: CollectionState,
    o: OutboxState,
    id: Seq<char>,
    i: int,
    media_generation: u64,
    generation: u64,
    now: u64,
)
    requires
        stands_at(s, id, i),
        s.collectors[i].phase == DigitCollectorPhase::Acquiring,
        !s.collectors[i].cancel_requested,
    ensures
        ({
            let (t, o1) = s.acquired(o, id, true, media_generation, generation, now);
            let c = s.collectors[i];
            let d = t.collectors[i];
            &&& adds(o, o1, seq![CallEffect::PublishView])
            &&& t.collectors.len() == s.collectors.len()
            &&& forall|k: int| 0 <= k < s.collectors.len() && k != i ==> (#[trigger] t.collectors[k])
                == s.collectors[k]
            &&& d.phase == DigitCollectorPhase::Active
            &&& d.spec == c.spec && d.digits == c.digits
            &&& d.first_deadline matches Some(at) && at == now + c.spec.first_digit_timeout
            &&& d.overall_deadline matches Some(at) && at == now + c.spec.overall_timeout
            &&& !d.ready_pending && d.result_pending == c.result_pending
            &&& told(
                s,
                t,
                if c.ready_pending {
                    seq![Reply::Ready(id, Ok(media_generation))]
                } else {
                    Seq::empty()
                },
            )
            &&& waits_anew(s, t)
        }),
{
    reveal(CollectionState::acquired);
    lemma_index(s.collectors, id);
}

/// A capability that is not the one asked for fails the collection, one that was
/// refused fails it with the reason given, and one for a collector that does not
/// wait for any changes nothing.
pub proof fn lemma_wrong_capability_fails_the_collection(
    s: CollectionState,
    o: OutboxState,
    id: Seq<char>,
    i: int,
    matching: bool,
    reason: Seq<char>,
    media_generation: u64,
    generation: u64,
    now: u64,
)
    requires
        stands_at(s, id, i),
    ensures
        s.collectors[i].phase == DigitCollectorPhase::Acquiring ==> s.acquired(
            o,
            id,
            false,
            media_generation,
            generation,
            now,
        ) == s.start_failed(o, id, "dtmf_capability_result_mismatch"@),
        s.collectors[i].phase == DigitCollectorPhase::Acquiring ==> s.refused(o, id, reason)
            == s.start_failed(o, id, reason),
        s.collectors[i].phase != DigitCollectorPhase::Acquiring ==> s.acquired(
            o,
            id,
            matching,
            media_generation,
            generation,
            now,
        ) == (s, o) && s.refused(o, id, reason) == (s, o),
{
    reveal(CollectionState::acquired);
}

/// A collection that ends gives its capability back first. Its outcome, with what
/// was gathered, is kept until then; nobody is told yet, and it waits for nothing
/// more.
pub proof fn lemma_ending_collection_gives_its_capability_back(
    s: CollectionState,
    o: OutboxState,
    id: Seq<char>,
    i: int,
    code: DigitCollectionResultCode,
    reason: Option<Seq<char>>,
    generation: u64,
)
    requires
        stands_at(s, id, i),
        s.collectors[i].phase == DigitCollectorPhase::Active,
        media_takes(o),
    ensures
        ({
            let (t, o1) = s.finished(o, id, code, reason, generation);
            let c = s.collectors[i];
            let d = t.collectors[i];
            &&& adds(
                o,
                o1,
                seq![
                    CallEffect::Media(
                        MediaRequest::ReleaseDtmf { generation, collector_id: c.spec.collector_id },
                    ),
                ],
            )
            &&& t.collectors.len() == s.collectors.len()
            &&& forall|k: int| 0 <= k < s.collectors.len() && k != i ==> (#[trigger] t.collectors[k])
                == s.collectors[k]
            &&& d.phase == DigitCollectorPhase::Releasing
            &&& d.spec == c.spec && d.digits == c.digits && d.result_pending == c.result_pending
            &&& d.pending_outcome == Some(
                Outcome { collector_id: id, code, digits: c.digits, reason },
            )
            &&& d.deadline() is None
            &&& t.replies == s.replies
            &&& waits_anew(s, t)
        }),
{
    reveal(CollectionState::finished);
    reveal(OutboxState::requested);
    lemma_index(s.collectors, id);
}

/// Where the media worker cannot be reached, the collection is over at once, and
/// its outcome is that the capability could not be given back.
pub proof fn lemma_unreachable_media_ends_the_collection(
    s: CollectionState,
    o: OutboxState,
    id: Seq<char>,
    i: int,
    code: DigitCollectionResultCode,
    reason: Option<Seq<char>>,
    generation: u64,
)
    requires
        stands_at(s, id, i),
        s.collectors[i].phase == DigitCollectorPhase::Active,
        !media_takes(o),
    ensures
        ({
            let (t, o1) = s.finished(o, id, code, reason, generation);
            let c = s.collectors[i];
            let fault = if !o.media.open {
                "media action executor stopped"@
            } else {
                "media action queue full"@
            };
            &&& adds(o, o1, seq![CallEffect::PublishView])
            &&& t.collectors == s.collectors.remove(i)
            &&& told(
                s,
                t,
                if c.result_pending {
                    seq![
                        Reply::Outcome(
                            Outcome {
                                collector_id: id,
                                code: DigitCollectionResultCode::Failed,
                                digits: c.digits,
                                reason: Some("capability_release_failed:"@ + fault),
                            },
                        ),
                    ]
                } else {
                    Seq::empty()
                },
            )
        }),
{
    reveal(CollectionState::finished);
    reveal(CollectionState::released);
    reveal(OutboxState::requested);
    lemma_index(s.collectors, id);
    let c = s.collectors[i];
    let ended = Collector {
        phase: DigitCollectorPhase::Releasing,
        first_deadline: None,
        inter_deadline: None,
        overall_deadline: None,
        pending_outcome: Some(Outcome { collector_id: c.id(), code, digits: c.digits, reason }),
        ..c
    };
    let changed = s.collectors.update(i, ended);
    lemma_index(changed, id);
    assert(changed[i].id() == id);
    assert(index_of(changed, id) == Some(i)) by {
        let j = index_of(changed, id)->Some_0;
        if j < i {
            assert(changed[j] == s.collectors[j]);
        }
    }
    assert(changed.remove(i) =~= s.collectors.remove(i));
}

/// Once the capability is given back, the collector is gone and its outcome is told:
/// the one that was kept, or that the capability could not be given back.
pub proof fn lemma_outcome_is_told_once_released(
    s: CollectionState,
    o: OutboxState,
    id: Seq<char>,
    i: int,
    failure: Option<Seq<char>>,
)
    requires
        stands_at(s, id, i),
    ensures
        ({
            let (t, o1) = s.released(o, id, failure);
            let c = s.collectors[i];
            let kept = if c.pending_outcome is Some {
                c.pending_outcome->Some_0
            } else {
                Outcome {
                    collector_id: id,
                    code: DigitCollectionResultCode::Failed,
                    digits: c.digits,
                    reason: Some("missing_collection_outcome"@),
                }
            };
            &&& c.phase != DigitCollectorPhase::Releasing ==> t == s && o1 == o
            &&& c.phase == DigitCollectorPhase::Releasing ==> {
                &&& adds(o, o1, seq![CallEffect::PublishView])
                &&& t.collectors == s.collectors.remove(i)
                &&& waits_anew(s, t)
                &&& !c.result_pending ==> t.replies == s.replies
                &&& c.result_pending && failure is None ==> told(s, t, seq![Reply::Outcome(kept)])
                &&& c.result_pending && failure is Some ==> told(
                    s,
                    t,
                    seq![
                        Reply::Outcome(
                            Outcome {
                                collector_id: kept.collector_id,
                                code: DigitCollectionResultCode::Failed,
                                digits: kept.digits,
                                reason: Some("capability_release_failed:"@ + failure->Some_0),
                            },
                        ),
                    ],
                )
            }
        }),
{
    reveal(CollectionState::released);
    lemma_index(s.collectors, id);
}

/// A collection that is cancelled while it waits for its capability is not ready,
/// and ends once that comes; one that gathers ends as cancelled; one that is ending
/// goes on ending. Where there is no such collection, that is said.
pub proof fn lemma_cancelled_collection_ends_as_cancelled(
    s: CollectionState,
    o: OutboxState,
    id: Seq<char>,
    i: int,
    generation: u64,
)
    requires
        stands_at(s, id, i),
    ensures
        ({
            let (t, o1, found) = s.cancelled(o, id, generation);
            let c = s.collectors[i];
            let reason = "dtmf_collection_cancelled"@;
            &&& found
            &&& c.phase == DigitCollectorPhase::Acquiring ==> {
                &&& o1 == o
                &&& t.collectors.len() == s.collectors.len()
                &&& t.collectors[i].cancel_requested && !t.collectors[i].ready_pending
                &&& t.collectors[i].result_pending == c.result_pending
                &&& t.collectors[i].phase == DigitCollectorPhase::Acquiring
                &&& told(
                    s,
                    t,
                    if c.ready_pending {
                        seq![Reply::Ready(id, Err(reason))]
                    } else {
                        Seq::empty()
                    },
                )
            }
            &&& c.phase == DigitCollectorPhase::Active ==> (t, o1) == s.finished(
                o,
                id,
                DigitCollectionResultCode::Cancelled,
                Some(reason),
                generation,
            )
            &&& c.phase == DigitCollectorPhase::Releasing ==> t == s && o1 == o
        }),
{
    reveal(CollectionState::cancelled);
    lemma_index(s.collectors, id);
}

/// What names no collector changes nothing.
pub proof fn lemma_unknown_collector_changes_nothing(
    s: CollectionState,
    o: OutboxState,
    id: Seq<char>,
    generation: u64,
    now: u64,
)
    requires
        forall|k: int|
            0 <= k < s.collectors.len() ==> (#[trigger] s.collectors[k]).spec.collector_id@ != id,
    ensures
        s.cancelled(o, id, generation) == (s, o, false),
        s.released(o, id, None) == (s, o),
        s.refused(o, id, Seq::empty()) == (s, o),
        s.acquired(o, id, true, generation, generation, now) == (s, o),
        s.finished(o, id, DigitCollectionResultCode::Completed, None, generation) == (s, o),
{
    reveal(CollectionState::cancelled);
    reveal(CollectionState::released);
    reveal(CollectionState::acquired);
    reveal(CollectionState::finished);
    lemma_index(s.collectors, id);
}

/// A collection that was cancelled while it waited ends as soon as its capability is
/// there, as cancelled and without gathering anything.
pub proof fn lemma_late_capability_is_given_back(
    s: CollectionState,
    o: OutboxState,
    id: Seq<char>,
    i: int,
    media_generation: u64,
    generation: u64,
    now: u64,
)
    requires
        stands_at(s, id, i),
        s.collectors[i].phase == DigitCollectorPhase::Acquiring,
        s.collectors[i].cancel_requested,
        !s.collectors[i].ready_pending,
        media_takes(o),
    ensures
        ({
            let (t, o1) = s.acquired(o, id, true, media_generation, generation, now);
            let c = s.collectors[i];
            &&& adds(
                o,
                o1,
                seq![
                    CallEffect::Media(
                        MediaRequest::ReleaseDtmf { generation, collector_id: c.spec.collector_id },
                    ),
                ],
            )
            &&& t.collectors[i].phase == DigitCollectorPhase::Releasing
            &&& t.collectors[i].pending_outcome == Some(
                Outcome {
                    collector_id: id,
                    code: DigitCollectionResultCode::Cancelled,
                    digits: c.digits,
                    reason: Some("dtmf_collection_cancelled"@),
                },
            )
            &&& t.replies == s.replies
        }),
{
    reveal(CollectionState::acquired);
    lemma_index(s.collectors, id);
    let c = s.collectors[i];
    let changed = s.collectors.update(
        i,
        Collector { phase: DigitCollectorPhase::Active, ready_pending: false, ..c },
    );
    lemma_index(changed, id);
    assert(changed[i].id() == id);
    assert(index_of(changed, id) == Some(i)) by {
        let j = index_of(changed, id)->Some_0;
        if j < i {
            assert(changed[j] == s.collectors[j]);
        }
    }
    lemma_ending_collection_gives_its_capability_back(
        CollectionState { collectors: changed, ..s },
        o,
        id,
        i,
        DigitCollectionResultCode::Cancelled,
        Some("dtmf_collection_cancelled"@),
        generation,
    );
}

/// A deadline that passes ends its collection, under the name of what was missed and
/// with what was gathered until then; one that was put off since ends nothing.
pub proof fn lemma_missed_deadline_ends_the_collection(
    s: CollectionState,
    o: OutboxState,
    timer_generation: u64,
    id: Seq<char>,
    i: int,
    deadline: DigitCollectorDeadline,
    generation: u64,
)
    requires
        stands_at(s, id, i),
        s.collectors[i].phase == DigitCollectorPhase::Active,
        media_takes(o),
    ensures
        timer_generation != s.timer_generation ==> s.timed_out(
            o,
            timer_generation,
            id,
            deadline,
            generation,
        ) == (s, o),
        timer_generation == s.timer_generation ==> {
            let (t, o1) = s.timed_out(o, timer_generation, id, deadline, generation);
            let c = s.collectors[i];
            &&& adds(
                o,
                o1,
                seq![
                    CallEffect::Media(
                        MediaRequest::ReleaseDtmf { generation, collector_id: c.spec.collector_id },
                    ),
                ],
            )
            &&& t.collectors[i].phase == DigitCollectorPhase::Releasing
            &&& t.collectors[i].pending_outcome == Some(
                Outcome {
                    collector_id: id,
                    code: match deadline {
                        DigitCollectorDeadline::FirstDigit => {
                            DigitCollectionResultCode::FirstDigitTimeout
                        },
                        DigitCollectorDeadline::InterDigit => {
                            DigitCollectionResultCode::InterDigitTimeout
                        },
                        DigitCollectorDeadline::Overall => DigitCollectionResultCode::OverallTimeout,
                    },
                    digits: c.digits,
                    reason: None,
                },
            )
            &&& t.replies == s.replies
        },
{
    if timer_generation == s.timer_generation {
        lemma_ending_collection_gives_its_capability_back(
            CollectionState { timer: None, ..s },
            o,
            id,
            i,
            deadline.code(),
            None,
            generation,
        );
    }
}

/// A digit that finishes nothing is gathered by the collectors that keep it, and
/// asks for nothing; the next deadline is waited for.
pub proof fn lemma_digit_is_gathered(
    s: CollectionState,
    o: OutboxState,
    source: Seq<char>,
    digit: DtmfDigit,
    now: u64,
    generation: u64,
)
    requires
        forall|k: int|
            0 <= k < s.collectors.len() && listens(#[trigger] s.collectors[k], source) ==> !(
            s.collectors[k].spec.terminators@.contains(digit)) && (keeps(s.collectors[k], digit)
                ==> s.collectors[k].digits.len() + 1 < s.collectors[k].spec.max_digits),
    ensures
        ({
            let (t, o1) = s.digit_taken(o, source, digit, now, generation);
            &&& o1 == o
            &&& t.replies == s.replies
            &&& t.collectors.len() == s.collectors.len()
            &&& forall|k: int|
                0 <= k < s.collectors.len() ==> (#[trigger] t.collectors[k]).digits == (if listens(
                    s.collectors[k],
                    source,
                ) && keeps(s.collectors[k], digit) {
                    s.collectors[k].digits.push(digit)
                } else {
                    s.collectors[k].digits
                })
            &&& waits_anew(s, t)
        }),
{
    let done = crate::call::dtmf::finished_by(s.collectors, source, digit, now);
    if done.len() > 0 {
        let i = crate::call::digit_laws::lemma_finished_collector_heard_the_digit(
            s.collectors,
            source,
            digit,
            now,
            0,
        );
        assert(listens(s.collectors[i], source));
        assert(false);
    }
}

/// The lone collector that a digit finishes gathers it, gives its capability back and
/// keeps its outcome until then.
pub proof fn lemma_last_digit_ends_a_lone_collection(
    s: CollectionState,
    o: OutboxState,
    source: Seq<char>,
    digit: DtmfDigit,
    now: u64,
    generation: u64,
)
    requires
        s.collectors.len() == 1,
        listens(s.collectors[0], source),
        keeps(s.collectors[0], digit),
        s.collectors[0].digits.len() + 1 >= s.collectors[0].spec.max_digits,
        media_takes(o),
    ensures
        ({
            let (t, o1) = s.digit_taken(o, source, digit, now, generation);
            let c = s.collectors[0];
            &&& adds(
                o,
                o1,
                seq![
                    CallEffect::Media(
                        MediaRequest::ReleaseDtmf { generation, collector_id: c.spec.collector_id },
                    ),
                ],
            )
            &&& t.collectors.len() == 1
            &&& t.collectors[0].phase == DigitCollectorPhase::Releasing
            &&& t.collectors[0].digits == c.digits.push(digit)
            &&& t.collectors[0].pending_outcome == Some(
                Outcome {
                    collector_id: c.spec.collector_id@,
                    code: DigitCollectionResultCode::Completed,
                    digits: c.digits.push(digit),
                    reason: None,
                },
            )
            &&& t.replies == s.replies
        }),
{
    let c = s.collectors[0];
    let front = s.collectors.drop_last();
    assert(front.len() == 0);
    assert(crate::call::dtmf::finished_by(front, source, digit, now).len() == 0);
    let done = crate::call::dtmf::finished_by(s.collectors, source, digit, now);
    assert(done.len() == 1);
    assert(done.drop_last().len() == 0);
    let after = crate::call::dtmf::all_applied(s.collectors, source, digit, now);
    let middle = CollectionState { collectors: after, ..s };
    reveal_with_fuel(CollectionState::finished_all, 2);
    lemma_index(after, c.id());
    assert(after[0].id() == c.id());
    assert(index_of(after, c.id()) == Some(0int));
    lemma_ending_collection_gives_its_capability_back(
        middle,
        o,
        c.id(),
        0,
        DigitCollectionResultCode::Completed,
        None,
        generation,
    );
}

/// When all collections end at once, each that somebody waits for is answered as
/// failed, with what it gathered, and the capability of each is given back as far as
/// the media worker takes it.
pub proof fn lemma_abort_answers_everyone(
    s: CollectionState,
    o: OutboxState,
    list: Seq<Collector>,
    reason: Seq<char>,
    generation: u64,
    i: int,
)
    requires
        0 <= i < list.len(),
    ensures
        ({
            let (t, o1) = s.dismissed(o, list, reason, generation);
            let c = list[i];
            &&& c.result_pending ==> t.replies.contains(
                Reply::Outcome(
                    Outcome {
                        collector_id: c.spec.collector_id@,
                        code: DigitCollectionResultCode::Failed,
                        digits: c.digits,
                        reason: Some(reason),
                    },
                ),
            )
            &&& c.ready_pending ==> t.replies.contains(
                Reply::Ready(c.spec.collector_id@, Err(reason)),
            )
            &&& o.media.open && o.media.room >= list.len() ==> o1.effects.contains(
                CallEffect::Media(
                    MediaRequest::ReleaseDtmf { generation, collector_id: c.spec.collector_id },
                ),
            ) && o1.media.room == o.media.room - list.len() && o1.media.open
        }),
    decreases list.len(),
{
    reveal(OutboxState::requested);
    let front = list.drop_last();
    let (a, oa) = s.dismissed(o, front, reason, generation);
    let (t, o1) = s.dismissed(o, list, reason, generation);
    if front.len() == 0 {
        assert(a == s && oa == o);
    } else {
        lemma_abort_answers_everyone(s, o, front, reason, generation, if i < front.len() { i } else { 0 });
    }
    let c = list[i];
    let outcome = Reply::Outcome(
        Outcome {
            collector_id: c.spec.collector_id@,
            code: DigitCollectionResultCode::Failed,
            digits: c.digits,
            reason: Some(reason),
        },
    );
    let ready = Reply::Ready(c.spec.collector_id@, Err(reason));
    let release = CallEffect::Media(
        MediaRequest::ReleaseDtmf { generation, collector_id: c.spec.collector_id },
    );
    assert(a.replies.is_prefix_of(t.replies));
    assert(oa.effects.is_prefix_of(o1.effects));
    if i < front.len() {
        assert(front[i] == c);
        if c.result_pending {
            let k = choose|k: int| 0 <= k < a.replies.len() && a.replies[k] == outcome;
            assert(t.replies[k] == outcome);
        }
        if c.ready_pending {
            let k = choose|k: int| 0 <= k < a.replies.len() && a.replies[k] == ready;
            assert(t.replies[k] == ready);
        }
        if o.media.open && o.media.room >= list.len() {
            let k = choose|k: int| 0 <= k < oa.effects.len() && oa.effects[k] == release;
            assert(o1.effects[k] == release);
        }
    } else {
        let n = a.replies.len() as int;
        if c.ready_pending {
            assert(t.replies[n] == ready);
        }
        if c.result_pending {
            assert(t.replies[t.replies.len() - 1] == outcome);
        }
        if o.media.open && o.media.room >= list.len() {
            assert(o1.effects[o1.effects.len() - 1] == release);
        }
    }
}

} // verus!
