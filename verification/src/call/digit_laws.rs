//! What holds of digits: which of them count, in what order they are gathered,
//! when gathering ends, and to which side they go.

use crate::call::dtmf::{
    all_applied, collectors_wf, disposition, finished_by, fresh, nearest, registration,
    CollectionSpecError, Collector, CollectorInput, DigitCollectionMode, DigitCollectionResultCode,
    DigitCollectionSpec, DigitCollectorDeadline, DigitCollectorPhase, DigitEvent, Disposition,
    DtmfEventId, DtmfIgnoreReason, DtmfSourceDecision, DtmfSourceGeneration, DtmfSourceLock,
    DtmfSourcePolicy, DtmfTransport, RegistrationError, SourceState,
};
use crate::dtmf::DtmfDigit;
use vstd::prelude::*;

verus! {

// ---------------------------------------------------------------------------
// One collector.

/// Whether a collector listens to a session.
pub open spec fn listens(c: Collector, source: Seq<char>) -> bool {
    c.phase == DigitCollectorPhase::Active && c.spec.source_session_id@ == source
}

/// Whether a collector keeps a digit: one that is allowed and does not end it.
pub open spec fn keeps(c: Collector, digit: DtmfDigit) -> bool {
    c.spec.allowed@.contains(digit) && !c.spec.terminators@.contains(digit)
}

/// A digit that is kept leaves every earlier digit at its position and stands
/// last.
pub proof fn lemma_kept_digit_stands_last(
    c: Collector,
    source: Seq<char>,
    digit: DtmfDigit,
    now: u64,
)
    requires
        listens(c, source),
        keeps(c, digit),
    ensures
        ({
            let after = c.digit_applied(source, digit, now).0;
            &&& after.digits.len() == c.digits.len() + 1
            &&& c.digits.is_prefix_of(after.digits)
            &&& forall|i: int| 0 <= i < c.digits.len() ==> (#[trigger] after.digits[i]) == c.digits[i]
            &&& after.digits.last() == digit
        }),
{
}

/// A digit that is not kept, or that comes from elsewhere, leaves the collector as
/// it is.
pub proof fn lemma_other_digits_leave_no_trace(
    c: Collector,
    source: Seq<char>,
    digit: DtmfDigit,
    now: u64,
)
    requires
        !listens(c, source) || !keeps(c, digit),
    ensures
        c.digit_applied(source, digit, now).0 == c,
{
}

/// The collector after several digits of one session, each with its time.
pub open spec fn pressed(c: Collector, source: Seq<char>, presses: Seq<(DtmfDigit, u64)>) -> Collector
    decreases presses.len(),
{
    if presses.len() == 0 {
        c
    } else {
        pressed(c, source, presses.drop_last()).digit_applied(
            source,
            presses.last().0,
            presses.last().1,
        ).0
    }
}

/// The digits among the presses that a collector keeps, the first pressed first.
pub open spec fn kept_of(c: Collector, presses: Seq<(DtmfDigit, u64)>) -> Seq<DtmfDigit> {
    presses.filter(|press: (DtmfDigit, u64)| keeps(c, press.0)).map_values(
        |press: (DtmfDigit, u64)| press.0,
    )
}

/// The digits of a collector are those that it had, followed by the allowed digits
/// of its source in the order in which they were pressed.
pub proof fn lemma_digits_stand_in_the_order_of_the_presses(
    c: Collector,
    source: Seq<char>,
    presses: Seq<(DtmfDigit, u64)>,
)
    requires
        listens(c, source),
    ensures
        pressed(c, source, presses).digits == c.digits + kept_of(c, presses),
        pressed(c, source, presses).spec == c.spec,
        pressed(c, source, presses).phase == c.phase,
        pressed(c, source, presses).overall_deadline == c.overall_deadline,
    decreases presses.len(),
{
    let kept = |press: (DtmfDigit, u64)| keeps(c, press.0);
    let digit_of = |press: (DtmfDigit, u64)| press.0;
    reveal(Seq::filter);
    if presses.len() == 0 {
        assert(kept_of(c, presses) =~= Seq::<DtmfDigit>::empty());
        assert(c.digits + kept_of(c, presses) =~= c.digits);
    } else {
        let front = presses.drop_last();
        lemma_digits_stand_in_the_order_of_the_presses(c, source, front);
        let before = pressed(c, source, front);
        let (digit, now) = presses.last();
        if keeps(c, digit) {
            assert(presses.filter(kept) =~= front.filter(kept).push(presses.last()));
            assert(kept_of(c, presses) =~= kept_of(c, front).push(digit));
            lemma_kept_digit_stands_last(before, source, digit, now);
            assert(pressed(c, source, presses).digits =~= before.digits.push(digit));
            assert(c.digits + kept_of(c, presses) =~= (c.digits + kept_of(c, front)).push(digit));
        } else {
            assert(presses.filter(kept) =~= front.filter(kept));
            lemma_other_digits_leave_no_trace(before, source, digit, now);
        }
    }
}

/// A kept digit ends the wait for the first one and starts the wait for the next;
/// how long the whole may take stays as it was.
pub proof fn lemma_kept_digit_restarts_the_wait(
    c: Collector,
    source: Seq<char>,
    digit: DtmfDigit,
    now: u64,
)
    requires
        listens(c, source),
        keeps(c, digit),
    ensures
        ({
            let after = c.digit_applied(source, digit, now).0;
            &&& after.first_deadline is None
            &&& after.inter_deadline matches Some(at) && at == now + c.spec.inter_digit_timeout
            &&& after.overall_deadline == c.overall_deadline
            &&& after.phase == DigitCollectorPhase::Active
            &&& after.spec == c.spec
            &&& after.ready_pending == c.ready_pending
            &&& after.result_pending == c.result_pending
            &&& after.cancel_requested == c.cancel_requested
            &&& after.pending_outcome == c.pending_outcome
        }),
{
}

/// The last digit that may be gathered ends the collection with success, and one
/// before it does not.
pub proof fn lemma_collection_ends_when_it_is_full(
    c: Collector,
    source: Seq<char>,
    digit: DtmfDigit,
    now: u64,
)
    requires
        listens(c, source),
        keeps(c, digit),
    ensures
        c.digits.len() + 1 >= c.spec.max_digits ==> (c.digit_applied(source, digit, now).1 matches
            CollectorInput::Finish(_, code, reason) && code == DigitCollectionResultCode::Completed
            && reason is None),
        c.digits.len() + 1 < c.spec.max_digits ==> c.digit_applied(
            source,
            digit,
            now,
        ).1 is Continue,
{
}

/// A terminator ends the collection: with success where enough was gathered, with a
/// failure that says so where not. A digit that is neither kept nor a terminator
/// ends nothing.
pub proof fn lemma_terminator_ends_the_collection(
    c: Collector,
    source: Seq<char>,
    digit: DtmfDigit,
    now: u64,
)
    requires
        listens(c, source),
    ensures
        c.spec.terminators@.contains(digit) && c.digits.len() >= c.spec.min_digits ==> (
        c.digit_applied(source, digit, now).1 matches CollectorInput::Finish(_, code, reason) && code
            == DigitCollectionResultCode::Completed && reason is None),
        c.spec.terminators@.contains(digit) && c.digits.len() < c.spec.min_digits ==> (
        c.digit_applied(source, digit, now).1 matches CollectorInput::Finish(_, code, reason) && code
            == DigitCollectionResultCode::Failed && reason == Some("digit_collection_too_short"@)),
        !c.spec.terminators@.contains(digit) && !c.spec.allowed@.contains(digit)
            ==> c.digit_applied(source, digit, now).1 is Continue,
{
}

/// A collector that collects consumes every digit that it hears, one that observes
/// none; a digit that is not heard is consumed by neither.
pub proof fn lemma_only_collecting_consumes(
    c: Collector,
    source: Seq<char>,
    digit: DtmfDigit,
    now: u64,
)
    ensures
        listens(c, source) ==> (match c.digit_applied(source, digit, now).1 {
            CollectorInput::Ignored => false,
            CollectorInput::Continue(consumed) => consumed <==> c.spec.mode
                == DigitCollectionMode::Collect,
            CollectorInput::Finish(consumed, _, _) => consumed <==> c.spec.mode
                == DigitCollectionMode::Collect,
        }),
        !listens(c, source) ==> c.digit_applied(source, digit, now).1 is Ignored,
        crate::call::dtmf::consumes(c.digit_applied(source, digit, now).1) <==> (listens(c, source)
            && c.spec.mode == DigitCollectionMode::Collect),
{
}

/// A collector that begins has gathered nothing and waits for nothing; once it is
/// active, the first digit and the whole have their times from then on.
pub proof fn lemma_times_run_from_the_activation(spec: DigitCollectionSpec, c: Collector, now: u64)
    ensures
        fresh(spec).digits.len() == 0,
        fresh(spec).phase == DigitCollectorPhase::Acquiring,
        fresh(spec).spec == spec,
        fresh(spec).ready_pending && fresh(spec).result_pending && !fresh(spec).cancel_requested,
        fresh(spec).deadline() is None,
        fresh(spec).pending_outcome is None,
        c.activated(now).phase == DigitCollectorPhase::Active,
        c.activated(now).first_deadline matches Some(at) && at == now + c.spec.first_digit_timeout,
        c.activated(now).overall_deadline matches Some(at) && at == now + c.spec.overall_timeout,
        c.activated(now).inter_deadline == c.inter_deadline,
        c.activated(now).digits == c.digits,
        c.activated(now).spec == c.spec,
        c.activated(now).cancel_requested == c.cancel_requested,
{
}

/// A collector waits for the earliest of its deadlines, and says which it is.
pub proof fn lemma_deadline_is_the_earliest(c: Collector)
    ensures
        c.deadline() is None <==> c.first_deadline is None && c.inter_deadline is None
            && c.overall_deadline is None,
        c.deadline() matches Some((at, kind)) ==> {
            &&& c.first_deadline matches Some(first) ==> at <= first
            &&& c.inter_deadline matches Some(inter) ==> at <= inter
            &&& c.overall_deadline matches Some(overall) ==> at <= overall
            &&& kind == DigitCollectorDeadline::FirstDigit ==> c.first_deadline == Some(at)
            &&& kind == DigitCollectorDeadline::InterDigit ==> c.inter_deadline == Some(at)
            &&& kind == DigitCollectorDeadline::Overall ==> c.overall_deadline == Some(at)
        },
{
}

/// What a missed deadline is reported as.
pub proof fn lemma_missed_deadline_is_named(deadline: DigitCollectorDeadline)
    ensures
        deadline.code() == DigitCollectionResultCode::FirstDigitTimeout <==> deadline
            == DigitCollectorDeadline::FirstDigit,
        deadline.code() == DigitCollectionResultCode::InterDigitTimeout <==> deadline
            == DigitCollectorDeadline::InterDigit,
        deadline.code() == DigitCollectionResultCode::OverallTimeout <==> deadline
            == DigitCollectorDeadline::Overall,
{
}

/// The nearest deadline is that of one of the collectors, under its name.
pub proof fn lemma_nearest_belongs_to_a_collector(list: Seq<Collector>)
    ensures
        match nearest(list) {
            Some((at, id, kind)) => exists|i: int|
                0 <= i < list.len() && (#[trigger] list[i]).deadline() == Some((at, kind))
                    && list[i].spec.collector_id@ == id,
            None => forall|i: int| 0 <= i < list.len() ==> (#[trigger] list[i]).deadline() is None,
        },
    decreases list.len(),
{
    if list.len() > 0 {
        let front = list.drop_last();
        lemma_nearest_belongs_to_a_collector(front);
        match nearest(front) {
            Some((at, id, kind)) => {
                let i = choose|i: int|
                    0 <= i < front.len() && (#[trigger] front[i]).deadline() == Some((at, kind))
                        && front[i].spec.collector_id@ == id;
                assert(list[i].deadline() == Some((at, kind)));
                assert(list[list.len() - 1] == list.last());
            },
            None => {
                assert(list[list.len() - 1] == list.last());
                assert forall|i: int| 0 <= i < list.len() - 1 implies (
                #[trigger] list[i]).deadline() is None by {
                    assert(front[i] == list[i]);
                }
            },
        }
    }
}

/// What may be asked of a collector: a digit at least, no more at least than at
/// most, something allowed, and time for each wait. The first thing that is wrong
/// is named.
pub proof fn lemma_what_may_be_collected(spec: DigitCollectionSpec)
    ensures
        spec.validity() is Ok <==> 0 < spec.max_digits && spec.min_digits <= spec.max_digits
            && spec.allowed@ != Set::<DtmfDigit>::empty() && 0 < spec.first_digit_timeout && 0
            < spec.inter_digit_timeout && 0 < spec.overall_timeout,
        spec.validity() == Err::<(), _>(CollectionSpecError::InvalidDigitCountRange) <==> (
        spec.max_digits == 0 || spec.min_digits > spec.max_digits),
        spec.validity() == Err::<(), _>(CollectionSpecError::EmptyAllowedDigitSet) ==> spec.allowed@
            == Set::<DtmfDigit>::empty(),
        spec.validity() == Err::<(), _>(CollectionSpecError::InvalidTimeout) ==> (
        spec.first_digit_timeout == 0 || spec.inter_digit_timeout == 0 || spec.overall_timeout == 0),
        CollectionSpecError::InvalidDigitCountRange.code() == "invalid_digit_count_range"@,
        CollectionSpecError::EmptyAllowedDigitSet.code() == "empty_allowed_digit_set"@,
        CollectionSpecError::InvalidTimeout.code() == "invalid_digit_collection_timeout"@,
{
}

/// A collector may join where its name is free, there are fewer than sixteen, and
/// no other collects from its session where it collects itself; one that observes
/// disturbs none.
pub proof fn lemma_who_may_join(list: Seq<Collector>, spec: DigitCollectionSpec)
    ensures
        registration(list, spec) is Ok ==> {
            &&& list.len() < 16
            &&& forall|i: int|
                0 <= i < list.len() ==> (#[trigger] list[i]).spec.collector_id@
                    != spec.collector_id@
            &&& spec.mode == DigitCollectionMode::Collect ==> forall|i: int|
                0 <= i < list.len() && list[i].spec.mode == DigitCollectionMode::Collect ==> (
                #[trigger] list[i]).spec.source_session_id@ != spec.source_session_id@
        },
        registration(list, spec) == Err::<(), _>(RegistrationError::IdConflict) <==> exists|i: int|
            0 <= i < list.len() && (#[trigger] list[i]).spec.collector_id@ == spec.collector_id@,
        registration(list, spec) == Err::<(), _>(RegistrationError::Overloaded) ==> list.len() >= 16,
        registration(list, spec) == Err::<(), _>(RegistrationError::SourceConflict) ==> spec.mode
            == DigitCollectionMode::Collect && exists|i: int|
            0 <= i < list.len() && (#[trigger] list[i]).spec.mode == DigitCollectionMode::Collect
                && list[i].spec.source_session_id@ == spec.source_session_id@,
        RegistrationError::IdConflict.code() == "dtmf_collector_id_conflict"@,
        RegistrationError::Overloaded.code() == "dtmf_collector_overloaded"@,
        RegistrationError::SourceConflict.code() == "dtmf_collector_conflict"@,
{
    if registration(list, spec) is Ok {
        assert forall|i: int| 0 <= i < list.len() implies (#[trigger] list[i]).spec.collector_id@
            != spec.collector_id@ by {
            if list[i].spec.collector_id@ == spec.collector_id@ {
                assert(list[i].id() == spec.collector_id@);
            }
        }
    }
    if exists|i: int|
        0 <= i < list.len() && (#[trigger] list[i]).spec.collector_id@ == spec.collector_id@ {
        let i = choose|i: int|
            0 <= i < list.len() && (#[trigger] list[i]).spec.collector_id@ == spec.collector_id@;
        assert(list[i].id() == spec.collector_id@);
    }
}

/// A digit is handed to every collector, and each takes it for itself: the list
/// stays as long, under the same names.
pub proof fn lemma_every_collector_hears_the_digit(
    list: Seq<Collector>,
    source: Seq<char>,
    digit: DtmfDigit,
    now: u64,
    i: int,
)
    requires
        0 <= i < list.len(),
    ensures
        ({
            let after = all_applied(list, source, digit, now);
            &&& after.len() == list.len()
            &&& after[i].spec == list[i].spec
            &&& after[i].phase == list[i].phase
            &&& !listens(list[i], source) ==> after[i] == list[i]
            &&& listens(list[i], source) && keeps(list[i], digit) ==> after[i].digits
                == list[i].digits.push(digit)
            &&& listens(list[i], source) && !keeps(list[i], digit) ==> after[i] == list[i]
        }),
{
}

/// Each collection that a digit finishes belongs to a collector that listens to its
/// source.
pub proof fn lemma_finished_collector_heard_the_digit(
    list: Seq<Collector>,
    source: Seq<char>,
    digit: DtmfDigit,
    now: u64,
    k: int,
) -> (i: int)
    requires
        0 <= k < finished_by(list, source, digit, now).len(),
    ensures
        0 <= i < list.len(),
        listens(list[i], source),
        list[i].spec.collector_id@ == finished_by(list, source, digit, now)[k].collector_id,
        list[i].spec.terminators@.contains(digit) || (keeps(list[i], digit) && list[i].digits.len()
            + 1 >= list[i].spec.max_digits),
    decreases list.len(),
{
    let front = list.drop_last();
    if k < finished_by(front, source, digit, now).len() {
        lemma_finished_collector_heard_the_digit(front, source, digit, now, k)
    } else {
        list.len() - 1
    }
}

/// A digit finishes each collector that listens to its source and that it fills or
/// terminates.
pub proof fn lemma_filled_collector_is_finished(
    list: Seq<Collector>,
    source: Seq<char>,
    digit: DtmfDigit,
    now: u64,
    i: int,
) -> (k: int)
    requires
        0 <= i < list.len(),
        listens(list[i], source),
        list[i].spec.terminators@.contains(digit) || (keeps(list[i], digit) && list[i].digits.len()
            + 1 >= list[i].spec.max_digits),
    ensures
        0 <= k < finished_by(list, source, digit, now).len(),
        finished_by(list, source, digit, now)[k].collector_id == list[i].spec.collector_id@,
        finished_by(list, source, digit, now)[k].code == (if keeps(list[i], digit)
            || list[i].digits.len() >= list[i].spec.min_digits {
            DigitCollectionResultCode::Completed
        } else {
            DigitCollectionResultCode::Failed
        }),
    decreases list.len(),
{
    let front = list.drop_last();
    if i < list.len() - 1 {
        lemma_filled_collector_is_finished(front, source, digit, now, i)
    } else {
        finished_by(front, source, digit, now).len() as int
    }
}

// ---------------------------------------------------------------------------
// Which digits count.

/// A digit counts only where what identifies it is the digit's own: the session it
/// came from and the generation of the way it came.
pub proof fn lemma_identity_names_the_source(event: DigitEvent)
    requires
        event.consistent(),
    ensures
        match event.event_id {
            DtmfEventId::Rfc4733 { media_generation, source_session_id, .. } => source_session_id@
                == event.source_session_id@ && event.transport == DtmfTransport::Rfc4733
                && event.source_generation == DtmfSourceGeneration::Media(media_generation),
            DtmfEventId::SipInfo { dialog_generation, source_session_id, .. } => source_session_id@
                == event.source_session_id@ && event.transport != DtmfTransport::Rfc4733
                && event.source_generation == DtmfSourceGeneration::Dialog(dialog_generation),
        },
{
}

/// The first digit of a source counts wherever it is consistent and its way is
/// allowed: any under automatic choice, tones alone or messages alone where one
/// was chosen.
pub proof fn lemma_first_digit_counts(policy: DtmfSourcePolicy, event: DigitEvent)
    requires
        event.consistent(),
    ensures
        SourceState::fresh(policy).decision(event) == DtmfSourceDecision::Accepted <==> (
        policy == DtmfSourcePolicy::Auto || (policy == DtmfSourcePolicy::Rfc4733Only
            && event.transport == DtmfTransport::Rfc4733) || (policy
            == DtmfSourcePolicy::SipInfoOnly && event.transport != DtmfTransport::Rfc4733)),
        SourceState::fresh(policy).decision(event) != DtmfSourceDecision::Accepted
            ==> SourceState::fresh(policy).decision(event) == DtmfSourceDecision::Conflict,
{
}

/// Once a digit came one way, those that come another way do not count.
pub proof fn lemma_ways_do_not_mix(s: SourceState, first: DigitEvent, other: DigitEvent)
    requires
        s.decision(first) == DtmfSourceDecision::Accepted,
        (first.transport == DtmfTransport::Rfc4733) != (other.transport == DtmfTransport::Rfc4733),
    ensures
        s.after(first).decision(other) == DtmfSourceDecision::Conflict,
        s.after(first).after(other).lock == s.after(first).lock,
        s.after(first).after(other).accepted == s.after(first).accepted,
{
}

/// A digit of a later generation counts, and takes the place of those before it:
/// only it is remembered.
pub proof fn lemma_new_generation_starts_over(s: SourceState, event: DigitEvent)
    requires
        event.consistent(),
        s.policy == DtmfSourcePolicy::Auto,
        match (s.lock, event.source_generation) {
            (
                DtmfSourceLock::Rfc4733 { media_generation },
                DtmfSourceGeneration::Media(generation),
            ) => media_generation < generation,
            (
                DtmfSourceLock::SipInfo { dialog_generation },
                DtmfSourceGeneration::Dialog(generation),
            ) => dialog_generation < generation,
            _ => false,
        },
    ensures
        s.decision(event) == DtmfSourceDecision::Accepted,
        s.after(event).accepted == seq![event.event_id@],
        match event.source_generation {
            DtmfSourceGeneration::Media(generation) => s.after(event).lock
                == (DtmfSourceLock::Rfc4733 { media_generation: generation }),
            DtmfSourceGeneration::Dialog(generation) => s.after(event).lock
                == (DtmfSourceLock::SipInfo { dialog_generation: generation }),
        },
{
    assert(s.after(event).accepted =~= seq![event.event_id@]);
}

/// Within a generation a digit counts exactly where it is not remembered, and is
/// remembered from then on, after the earlier ones, of which the oldest is
/// forgotten where there are more than 128.
pub proof fn lemma_digits_of_a_generation_are_remembered(s: SourceState, event: DigitEvent)
    requires
        event.consistent(),
        s.policy == DtmfSourcePolicy::Auto,
        s.wf(),
        match (s.lock, event.source_generation) {
            (
                DtmfSourceLock::Rfc4733 { media_generation },
                DtmfSourceGeneration::Media(generation),
            ) => media_generation == generation,
            (
                DtmfSourceLock::SipInfo { dialog_generation },
                DtmfSourceGeneration::Dialog(generation),
            ) => dialog_generation == generation,
            _ => false,
        },
    ensures
        s.decision(event) == DtmfSourceDecision::Duplicate <==> s.accepted.contains(event.event_id@),
        s.decision(event) == DtmfSourceDecision::Accepted <==> !s.accepted.contains(event.event_id@),
        s.decision(event) == DtmfSourceDecision::Accepted && s.accepted.len() < 128 ==> s.after(
            event,
        ).accepted == s.accepted.push(event.event_id@),
        s.decision(event) == DtmfSourceDecision::Accepted && s.accepted.len() == 128 ==> s.after(
            event,
        ).accepted == s.accepted.drop_first().push(event.event_id@),
        s.after(event).lock == s.lock,
{
    let all = s.accepted.push(event.event_id@);
    if s.decision(event) == DtmfSourceDecision::Accepted && s.accepted.len() == 128 {
        assert(all.skip(1) =~= s.accepted.drop_first().push(event.event_id@));
    }
}

/// Each digit is counted once, under what was decided of it.
pub proof fn lemma_every_digit_is_counted_once(s: SourceState, event: DigitEvent)
    requires
        s.stats.accepted < u64::MAX,
        s.stats.duplicate < u64::MAX,
        s.stats.conflict < u64::MAX,
        s.stats.stale_generation < u64::MAX,
    ensures
        ({
            let d = s.decision(event);
            let n = s.after(event).stats;
            &&& n.accepted == s.stats.accepted + (if d == DtmfSourceDecision::Accepted { 1int } else { 0 })
            &&& n.duplicate == s.stats.duplicate + (if d == DtmfSourceDecision::Duplicate { 1int } else { 0 })
            &&& n.conflict == s.stats.conflict + (if d == DtmfSourceDecision::Conflict { 1int } else { 0 })
            &&& n.stale_generation == s.stats.stale_generation + (if d
                == DtmfSourceDecision::StaleGeneration { 1int } else { 0 })
        }),
        s.after(event).policy == s.policy,
{
}

// ---------------------------------------------------------------------------
// Where digits go.

/// A digit goes to the other side, never back to the one it came from.
pub proof fn lemma_digit_crosses_the_bridge(caller: Seq<char>, callee: Seq<char>, source: Seq<char>)
    ensures
        disposition(caller, caller, Some(callee), true) == Disposition::Forward(callee),
        callee != caller ==> disposition(callee, caller, Some(callee), true)
            == Disposition::Forward(caller),
        source != caller && source != callee ==> disposition(source, caller, Some(callee), true)
            == Disposition::Ignore(DtmfIgnoreReason::StaleSourceSession),
        caller != callee && (disposition(source, caller, Some(callee), true) matches
            Disposition::Forward(target)) ==> disposition(source, caller, Some(callee), true)
            != Disposition::Forward(source),
{
}

/// Without a peer the caller's digits go nowhere, and nothing is forwarded in a
/// call that is ending.
pub proof fn lemma_digit_without_a_peer_is_ignored(
    caller: Seq<char>,
    callee: Option<Seq<char>>,
    source: Seq<char>,
)
    ensures
        disposition(caller, caller, None, true) == Disposition::Ignore(
            DtmfIgnoreReason::MissingPeer,
        ),
        source != caller ==> disposition(source, caller, None, true) == Disposition::Ignore(
            DtmfIgnoreReason::StaleSourceSession,
        ),
        disposition(source, caller, callee, false) == Disposition::Ignore(
            DtmfIgnoreReason::CallTerminating,
        ),
{
}

/// Applying a digit keeps the collectors in order.
pub proof fn lemma_digits_keep_the_collectors_in_order(
    list: Seq<Collector>,
    source: Seq<char>,
    digit: DtmfDigit,
    now: u64,
)
    requires
        collectors_wf(list),
    ensures
        collectors_wf(all_applied(list, source, digit, now)),
{
    let after = all_applied(list, source, digit, now);
    assert forall|i: int| 0 <= i < list.len() implies (#[trigger] after[i]).spec == list[i].spec by {
    }
}

} // verus!
