//! Digits of a call: where they may come from, where they go, and the collectors
//! that wait for them.

use crate::dtmf::DtmfDigit;
use crate::keyed::text_before;
use crate::text::{opt_text, same_text};
use vstd::prelude::*;

verus! {

/// How many events of a source are remembered.
pub const SOURCE_EVENT_DEDUP_CAPACITY: usize = 128;

/// How many collectors a call may have.
pub const DTMF_COLLECTOR_CAPACITY: usize = 16;

#[derive(Debug, Clone, Copy, PartialEq, Eq, Structural)]
pub enum DtmfTransport {
    Rfc4733,
    SipInfoRelay,
    SipInfoDtmf,
}

#[derive(Debug, Clone, Copy, PartialEq, Eq, Structural)]
pub enum DtmfSourceGeneration {
    Media(u64),
    Dialog(u64),
}

/// What tells one digit event from another.
#[derive(Debug, Clone)]
pub enum DtmfEventId {
    Rfc4733 {
        media_generation: u64,
        source_session_id: String,
        ssrc: u32,
        timestamp: u32,
        event_code: u8,
    },
    SipInfo { dialog_generation: u64, source_session_id: String, cseq: u32 },
}

pub enum EventKey {
    Rfc4733 {
        media_generation: u64,
        session: Seq<char>,
        ssrc: u32,
        timestamp: u32,
        event_code: u8,
    },
    SipInfo { dialog_generation: u64, session: Seq<char>, cseq: u32 },
}

impl DtmfEventId {
    pub open spec fn view(&self) -> EventKey {
        match self {
            DtmfEventId::Rfc4733 {
                media_generation,
                source_session_id,
                ssrc,
                timestamp,
                event_code,
            } => EventKey::Rfc4733 {
                media_generation: *media_generation,
                session: source_session_id@,
                ssrc: *ssrc,
                timestamp: *timestamp,
                event_code: *event_code,
            },
            DtmfEventId::SipInfo { dialog_generation, source_session_id, cseq } => EventKey::SipInfo {
                dialog_generation: *dialog_generation,
                session: source_session_id@,
                cseq: *cseq,
            },
        }
    }

    pub fn same(&self, other: &Self) -> (same: bool)
        ensures
            same == (self@ == other@),
    {
        match (self, other) {
            (
                DtmfEventId::Rfc4733 {
                    media_generation: g1,
                    source_session_id: s1,
                    ssrc: r1,
                    timestamp: t1,
                    event_code: c1,
                },
                DtmfEventId::Rfc4733 {
                    media_generation: g2,
                    source_session_id: s2,
                    ssrc: r2,
                    timestamp: t2,
                    event_code: c2,
                },
            ) => *g1 == *g2 && s1.eq(s2) && *r1 == *r2 && *t1 == *t2 && *c1 == *c2,
            (
                DtmfEventId::SipInfo { dialog_generation: g1, source_session_id: s1, cseq: q1 },
                DtmfEventId::SipInfo { dialog_generation: g2, source_session_id: s2, cseq: q2 },
            ) => *g1 == *g2 && s1.eq(s2) && *q1 == *q2,
            _ => false,
        }
    }

    pub fn copy(&self) -> (id: Self)
        ensures
            id == *self,
    {
        match self {
            DtmfEventId::Rfc4733 {
                media_generation,
                source_session_id,
                ssrc,
                timestamp,
                event_code,
            } => DtmfEventId::Rfc4733 {
                media_generation: *media_generation,
                source_session_id: source_session_id.clone(),
                ssrc: *ssrc,
                timestamp: *timestamp,
                event_code: *event_code,
            },
            DtmfEventId::SipInfo { dialog_generation, source_session_id, cseq } => DtmfEventId::SipInfo {
                dialog_generation: *dialog_generation,
                source_session_id: source_session_id.clone(),
                cseq: *cseq,
            },
        }
    }
}

/// A digit that one side of a call sent.
#[derive(Debug, Clone)]
pub struct DigitEvent {
    pub event_id: DtmfEventId,
    pub domain_id: String,
    pub call_id: String,
    pub source_session_id: String,
    pub source_media_leg_id: Option<String>,
    pub digit: DtmfDigit,
    pub transport: DtmfTransport,
    pub duration_ms: u32,
    pub observed_at_ms: u64,
    pub source_generation: DtmfSourceGeneration,
    pub incomplete_end: bool,
}

impl DigitEvent {
    /// Whether what identifies the event agrees with the event itself: the way it
    /// came, the session and the generation.
    pub open spec fn consistent(self) -> bool {
        match (self.event_id, self.transport, self.source_generation) {
            (
                DtmfEventId::Rfc4733 { media_generation, source_session_id, .. },
                DtmfTransport::Rfc4733,
                DtmfSourceGeneration::Media(generation),
            ) => media_generation == generation && source_session_id@ == self.source_session_id@,
            (
                DtmfEventId::SipInfo { dialog_generation, source_session_id, .. },
                DtmfTransport::SipInfoRelay,
                DtmfSourceGeneration::Dialog(generation),
            ) => dialog_generation == generation && source_session_id@ == self.source_session_id@,
            (
                DtmfEventId::SipInfo { dialog_generation, source_session_id, .. },
                DtmfTransport::SipInfoDtmf,
                DtmfSourceGeneration::Dialog(generation),
            ) => dialog_generation == generation && source_session_id@ == self.source_session_id@,
            _ => false,
        }
    }

    pub fn identity_is_consistent(&self) -> (consistent: bool)
        ensures
            consistent == self.consistent(),
    {
        match (&self.event_id, self.transport, self.source_generation) {
            (
                DtmfEventId::Rfc4733 { media_generation, source_session_id, .. },
                DtmfTransport::Rfc4733,
                DtmfSourceGeneration::Media(generation),
            ) => *media_generation == generation && source_session_id.eq(&self.source_session_id),
            (
                DtmfEventId::SipInfo { dialog_generation, source_session_id, .. },
                DtmfTransport::SipInfoRelay,
                DtmfSourceGeneration::Dialog(generation),
            ) => *dialog_generation == generation && source_session_id.eq(&self.source_session_id),
            (
                DtmfEventId::SipInfo { dialog_generation, source_session_id, .. },
                DtmfTransport::SipInfoDtmf,
                DtmfSourceGeneration::Dialog(generation),
            ) => *dialog_generation == generation && source_session_id.eq(&self.source_session_id),
            _ => false,
        }
    }
}

/// Whether an event belongs to this session of this call.
pub open spec fn from_source(
    event: DigitEvent,
    domain_id: Seq<char>,
    call_id: Seq<char>,
    session_id: Seq<char>,
) -> bool {
    event.consistent() && event.domain_id@ == domain_id && event.call_id@ == call_id
        && event.source_session_id@ == session_id
}

pub fn valid_source_event(event: &DigitEvent, domain_id: &str, call_id: &str, session_id: &str) -> (valid:
    bool)
    ensures
        valid == from_source(*event, domain_id@, call_id@, session_id@),
{
    event.identity_is_consistent() && same_text(event.domain_id.as_str(), domain_id) && same_text(
        event.call_id.as_str(),
        call_id,
    ) && same_text(event.source_session_id.as_str(), session_id)
}

// ---------------------------------------------------------------------------
// Arbitration between the ways a digit may come.

#[derive(Debug, Clone, Copy, PartialEq, Eq, Structural)]
pub enum DtmfSourcePolicy {
    Auto,
    Rfc4733Only,
    SipInfoOnly,
}

/// The way that digits of a source come, once one has come.
#[derive(Debug, Clone, Copy, PartialEq, Eq, Structural)]
pub enum DtmfSourceLock {
    Unset,
    Rfc4733 { media_generation: u64 },
    SipInfo { dialog_generation: u64 },
}

#[derive(Debug, Clone, Copy, PartialEq, Eq, Structural)]
pub enum DtmfSourceDecision {
    Accepted,
    Duplicate,
    Conflict,
    StaleGeneration,
}

#[derive(Debug, Clone, Copy, PartialEq, Eq, Structural)]
pub struct DtmfSourceStats {
    pub accepted: u64,
    pub duplicate: u64,
    pub conflict: u64,
    pub stale_generation: u64,
}

#[derive(Debug, Clone, Copy, PartialEq, Eq, Structural)]
pub enum GenerationOrder {
    Initial,
    Current,
    Newer,
    Older,
    OtherTransport,
}

pub open spec fn order_of(current: u64, candidate: u64) -> GenerationOrder {
    if candidate < current {
        GenerationOrder::Older
    } else if candidate == current {
        GenerationOrder::Current
    } else {
        GenerationOrder::Newer
    }
}

pub fn compare_generation(current: u64, candidate: u64) -> (order: GenerationOrder)
    ensures
        order == order_of(current, candidate),
{
    if candidate < current {
        GenerationOrder::Older
    } else if candidate == current {
        GenerationOrder::Current
    } else {
        GenerationOrder::Newer
    }
}

/// The lock that an event would set: none where its way and its generation do
/// not go together.
pub open spec fn lock_of(transport: DtmfTransport, generation: DtmfSourceGeneration) -> Option<
    DtmfSourceLock,
> {
    match (transport, generation) {
        (DtmfTransport::Rfc4733, DtmfSourceGeneration::Media(media_generation)) => Some(
            DtmfSourceLock::Rfc4733 { media_generation },
        ),
        (DtmfTransport::SipInfoRelay, DtmfSourceGeneration::Dialog(dialog_generation)) => Some(
            DtmfSourceLock::SipInfo { dialog_generation },
        ),
        (DtmfTransport::SipInfoDtmf, DtmfSourceGeneration::Dialog(dialog_generation)) => Some(
            DtmfSourceLock::SipInfo { dialog_generation },
        ),
        _ => None,
    }
}

pub fn event_source_lock(event: &DigitEvent) -> (lock: Option<DtmfSourceLock>)
    ensures
        lock == lock_of(event.transport, event.source_generation),
{
    match (event.transport, event.source_generation) {
        (DtmfTransport::Rfc4733, DtmfSourceGeneration::Media(media_generation)) => Some(
            DtmfSourceLock::Rfc4733 { media_generation },
        ),
        (DtmfTransport::SipInfoRelay, DtmfSourceGeneration::Dialog(dialog_generation)) => Some(
            DtmfSourceLock::SipInfo { dialog_generation },
        ),
        (DtmfTransport::SipInfoDtmf, DtmfSourceGeneration::Dialog(dialog_generation)) => Some(
            DtmfSourceLock::SipInfo { dialog_generation },
        ),
        _ => None,
    }
}

pub open spec fn lock_order(current: DtmfSourceLock, candidate: DtmfSourceLock) -> GenerationOrder {
    match (current, candidate) {
        (DtmfSourceLock::Unset, _) => GenerationOrder::Initial,
        (
            DtmfSourceLock::Rfc4733 { media_generation: a },
            DtmfSourceLock::Rfc4733 { media_generation: b },
        ) => order_of(a, b),
        (
            DtmfSourceLock::SipInfo { dialog_generation: a },
            DtmfSourceLock::SipInfo { dialog_generation: b },
        ) => order_of(a, b),
        _ => GenerationOrder::OtherTransport,
    }
}

pub fn generation_order(current: DtmfSourceLock, candidate: DtmfSourceLock) -> (order: GenerationOrder)
    ensures
        order == lock_order(current, candidate),
{
    match (current, candidate) {
        (DtmfSourceLock::Unset, _) => GenerationOrder::Initial,
        (
            DtmfSourceLock::Rfc4733 { media_generation: a },
            DtmfSourceLock::Rfc4733 { media_generation: b },
        ) => compare_generation(a, b),
        (
            DtmfSourceLock::SipInfo { dialog_generation: a },
            DtmfSourceLock::SipInfo { dialog_generation: b },
        ) => compare_generation(a, b),
        _ => GenerationOrder::OtherTransport,
    }
}

pub open spec fn allowed_by(policy: DtmfSourcePolicy, transport: DtmfTransport) -> bool {
    match policy {
        DtmfSourcePolicy::Auto => true,
        DtmfSourcePolicy::Rfc4733Only => transport == DtmfTransport::Rfc4733,
        DtmfSourcePolicy::SipInfoOnly => transport != DtmfTransport::Rfc4733,
    }
}

/// What is known of a source of digits.
pub struct SourceState {
    pub policy: DtmfSourcePolicy,
    pub lock: DtmfSourceLock,
    /// The events accepted in this generation, the oldest first.
    pub accepted: Seq<EventKey>,
    pub stats: DtmfSourceStats,
}

pub open spec fn one_more(n: u64) -> u64 {
    if n < u64::MAX {
        (n + 1) as u64
    } else {
        n
    }
}

pub open spec fn counted_decision(stats: DtmfSourceStats, decision: DtmfSourceDecision) -> DtmfSourceStats {
    match decision {
        DtmfSourceDecision::Accepted => DtmfSourceStats {
            accepted: one_more(stats.accepted),
            ..stats
        },
        DtmfSourceDecision::Duplicate => DtmfSourceStats {
            duplicate: one_more(stats.duplicate),
            ..stats
        },
        DtmfSourceDecision::Conflict => DtmfSourceStats {
            conflict: one_more(stats.conflict),
            ..stats
        },
        DtmfSourceDecision::StaleGeneration => DtmfSourceStats {
            stale_generation: one_more(stats.stale_generation),
            ..stats
        },
    }
}

/// The newest events, as many as are remembered.
pub open spec fn newest(events: Seq<EventKey>) -> Seq<EventKey> {
    if events.len() > SOURCE_EVENT_DEDUP_CAPACITY {
        events.skip(events.len() - SOURCE_EVENT_DEDUP_CAPACITY)
    } else {
        events
    }
}

impl SourceState {
    /// No digit was taken yet.
    pub open spec fn fresh(policy: DtmfSourcePolicy) -> Self {
        SourceState {
            policy,
            lock: DtmfSourceLock::Unset,
            accepted: Seq::empty(),
            stats: DtmfSourceStats { accepted: 0, duplicate: 0, conflict: 0, stale_generation: 0 },
        }
    }

    pub open spec fn wf(self) -> bool {
        self.accepted.len() <= SOURCE_EVENT_DEDUP_CAPACITY
    }

    /// The events that count for an event of this order: a new generation forgets
    /// those before it.
    pub open spec fn remembered_for(self, order: GenerationOrder) -> Seq<EventKey> {
        if order == GenerationOrder::Current {
            self.accepted
        } else {
            Seq::empty()
        }
    }

    /// Whether an event counts, and why not.
    pub open spec fn decision(self, event: DigitEvent) -> DtmfSourceDecision {
        match lock_of(event.transport, event.source_generation) {
            None => DtmfSourceDecision::Conflict,
            Some(candidate) => {
                let order = lock_order(self.lock, candidate);
                if !event.consistent() || !allowed_by(self.policy, event.transport) || order
                    == GenerationOrder::OtherTransport {
                    DtmfSourceDecision::Conflict
                } else if order == GenerationOrder::Older {
                    DtmfSourceDecision::StaleGeneration
                } else if self.remembered_for(order).contains(event.event_id@) {
                    DtmfSourceDecision::Duplicate
                } else {
                    DtmfSourceDecision::Accepted
                }
            },
        }
    }

    /// What is known after an event.
    pub open spec fn after(self, event: DigitEvent) -> SourceState {
        let decision = self.decision(event);
        let stats = counted_decision(self.stats, decision);
        if decision == DtmfSourceDecision::Accepted {
            let candidate = lock_of(event.transport, event.source_generation)->Some_0;
            let order = lock_order(self.lock, candidate);
            SourceState {
                lock: candidate,
                accepted: newest(self.remembered_for(order).push(event.event_id@)),
                stats,
                ..self
            }
        } else {
            SourceState { stats, ..self }
        }
    }
}

/// No event counts twice: right after it was accepted it is a duplicate, and
/// nothing but the counts changes for one that is not accepted.
pub proof fn lemma_digit_counts_once(s: SourceState, event: DigitEvent)
    requires
        s.decision(event) == DtmfSourceDecision::Accepted,
    ensures
        s.after(event).decision(event) == DtmfSourceDecision::Duplicate,
        s.after(event).after(event).accepted == s.after(event).accepted,
        s.after(event).after(event).lock == s.after(event).lock,
{
    let candidate = lock_of(event.transport, event.source_generation)->Some_0;
    let order = lock_order(s.lock, candidate);
    let all = s.remembered_for(order).push(event.event_id@);
    let kept = s.after(event).accepted;
    assert(all.last() == event.event_id@);
    assert(kept[kept.len() - 1] == event.event_id@);
    assert(lock_order(candidate, candidate) == GenerationOrder::Current);
}

/// Once a digit of a generation was accepted, none of an earlier one counts.
pub proof fn lemma_older_generation_is_stale(s: SourceState, newer: DigitEvent, older: DigitEvent)
    requires
        s.decision(newer) == DtmfSourceDecision::Accepted,
        older.consistent(),
        allowed_by(s.policy, older.transport),
        match (newer.source_generation, older.source_generation) {
            (DtmfSourceGeneration::Media(a), DtmfSourceGeneration::Media(b)) => b < a,
            (DtmfSourceGeneration::Dialog(a), DtmfSourceGeneration::Dialog(b)) => b < a,
            _ => false,
        },
    ensures
        s.after(newer).decision(older) == DtmfSourceDecision::StaleGeneration,
{
}

/// A source remembers a bounded number of events.
pub proof fn lemma_source_is_bounded(s: SourceState, event: DigitEvent)
    requires
        s.wf(),
    ensures
        s.after(event).wf(),
{
}

pub struct DtmfSourceState {
    pub policy: DtmfSourcePolicy,
    pub source_lock: DtmfSourceLock,
    pub accepted: Vec<DtmfEventId>,
    pub stats: DtmfSourceStats,
}

pub open spec fn event_keys(events: Seq<DtmfEventId>) -> Seq<EventKey> {
    Seq::new(events.len(), |i: int| events[i]@)
}

impl DtmfSourceState {
    pub open spec fn view(&self) -> SourceState {
        SourceState {
            policy: self.policy,
            lock: self.source_lock,
            accepted: event_keys(self.accepted@),
            stats: self.stats,
        }
    }

    pub fn with_policy(policy: DtmfSourcePolicy) -> (state: Self)
        ensures
            state@ == SourceState::fresh(policy),
    {
        let state = DtmfSourceState {
            policy,
            source_lock: DtmfSourceLock::Unset,
            accepted: Vec::new(),
            stats: DtmfSourceStats { accepted: 0, duplicate: 0, conflict: 0, stale_generation: 0 },
        };
        assert(event_keys(state.accepted@) =~= Seq::<EventKey>::empty());
        state
    }

    fn record(&mut self, decision: DtmfSourceDecision) -> (same: DtmfSourceDecision)
        ensures
            same == decision,
            *final(self) == (DtmfSourceState {
                stats: counted_decision(old(self).stats, decision),
                ..*old(self)
            }),
    {
        match decision {
            DtmfSourceDecision::Accepted => {
                self.stats.accepted = self.stats.accepted.saturating_add(1);
            },
            DtmfSourceDecision::Duplicate => {
                self.stats.duplicate = self.stats.duplicate.saturating_add(1);
            },
            DtmfSourceDecision::Conflict => {
                self.stats.conflict = self.stats.conflict.saturating_add(1);
            },
            DtmfSourceDecision::StaleGeneration => {
                self.stats.stale_generation = self.stats.stale_generation.saturating_add(1);
            },
        }
        decision
    }

    fn policy_allows(&self, transport: DtmfTransport) -> (allowed: bool)
        ensures
            allowed == allowed_by(self.policy, transport),
    {
        match self.policy {
            DtmfSourcePolicy::Auto => true,
            DtmfSourcePolicy::Rfc4733Only => transport == DtmfTransport::Rfc4733,
            DtmfSourcePolicy::SipInfoOnly => transport == DtmfTransport::SipInfoRelay || transport
                == DtmfTransport::SipInfoDtmf,
        }
    }

    fn knows(&self, id: &DtmfEventId) -> (known: bool)
        ensures
            known == event_keys(self.accepted@).contains(id@),
    {
        let mut i: usize = 0;
        while i < self.accepted.len()
            invariant
                i <= self.accepted.len(),
                forall|k: int| 0 <= k < i ==> event_keys(self.accepted@)[k] != id@,
            decreases self.accepted.len() - i,
        {
            if self.accepted[i].same(id) {
                assert(event_keys(self.accepted@)[i as int] == id@);
                return true;
            }
            i = i + 1;
        }
        false
    }

    /// Decides whether a digit counts.
    pub fn accept(&mut self, event: &DigitEvent) -> (decision: DtmfSourceDecision)
        requires
            old(self)@.wf(),
        ensures
            decision == old(self)@.decision(*event),
            final(self)@ == old(self)@.after(*event),
            final(self)@.wf(),
    {
        if !event.identity_is_consistent() {
            return self.record(DtmfSourceDecision::Conflict);
        }
        let candidate = match event_source_lock(event) {
            Some(candidate) => candidate,
            None => return self.record(DtmfSourceDecision::Conflict),
        };
        if !self.policy_allows(event.transport) {
            return self.record(DtmfSourceDecision::Conflict);
        }
        let order = generation_order(self.source_lock, candidate);
        if order == GenerationOrder::OtherTransport {
            return self.record(DtmfSourceDecision::Conflict);
        }
        if order == GenerationOrder::Older {
            return self.record(DtmfSourceDecision::StaleGeneration);
        }
        if order == GenerationOrder::Current {
            if self.knows(&event.event_id) {
                return self.record(DtmfSourceDecision::Duplicate);
            }
        } else {
            self.source_lock = candidate;
            self.accepted.clear();
            assert(event_keys(self.accepted@) =~= Seq::<EventKey>::empty());
        }
        let ghost remembered = event_keys(self.accepted@);
        self.accepted.push(event.event_id.copy());
        assert(event_keys(self.accepted@) =~= remembered.push(event.event_id@));
        if self.accepted.len() > SOURCE_EVENT_DEDUP_CAPACITY {
            self.accepted.remove(0);
            assert(event_keys(self.accepted@) =~= newest(remembered.push(event.event_id@)));
        }
        self.record(DtmfSourceDecision::Accepted)
    }

    pub fn stats(&self) -> (stats: DtmfSourceStats)
        ensures
            stats == self@.stats,
    {
        self.stats
    }
}

impl Default for DtmfSourceState {
    fn default() -> (state: Self)
        ensures
            state@ == SourceState::fresh(DtmfSourcePolicy::Auto),
    {
        DtmfSourceState::with_policy(DtmfSourcePolicy::Auto)
    }
}

// ---------------------------------------------------------------------------
// Where a digit goes.

#[derive(Debug, Clone, Copy, PartialEq, Eq, Structural)]
pub enum DtmfIgnoreReason {
    StaleSourceSession,
    MissingPeer,
    CallTerminating,
}

#[derive(Debug, Clone, PartialEq, Eq)]
pub enum DtmfDisposition {
    Forward { peer_session_id: String },
    Ignore { reason: DtmfIgnoreReason },
}

pub enum Disposition {
    Forward(Seq<char>),
    Ignore(DtmfIgnoreReason),
}

impl DtmfDisposition {
    pub open spec fn view(&self) -> Disposition {
        match self {
            DtmfDisposition::Forward { peer_session_id } => Disposition::Forward(peer_session_id@),
            DtmfDisposition::Ignore { reason } => Disposition::Ignore(*reason),
        }
    }
}

/// A digit goes to the other side of the bridge, unless the call is ending or the
/// digit comes from a session that is not part of it any more.
pub open spec fn disposition(
    source: Seq<char>,
    caller: Seq<char>,
    callee: Option<Seq<char>>,
    routable: bool,
) -> Disposition {
    if !routable {
        Disposition::Ignore(DtmfIgnoreReason::CallTerminating)
    } else if source == caller {
        match callee {
            Some(peer) => Disposition::Forward(peer),
            None => Disposition::Ignore(DtmfIgnoreReason::MissingPeer),
        }
    } else if callee == Some(source) {
        Disposition::Forward(caller)
    } else {
        Disposition::Ignore(DtmfIgnoreReason::StaleSourceSession)
    }
}

#[derive(Debug, Clone, Copy, PartialEq, Eq, Structural)]
pub struct DtmfRouterStats {
    pub forwarded: u64,
    pub consumed: u64,
    pub ignored: u64,
    pub info_send_succeeded: u64,
    pub info_send_failed: u64,
}

pub struct DtmfRouter {
    pub stats: DtmfRouterStats,
}

impl DtmfRouter {
    /// Says where a digit goes, and counts it.
    pub fn route(
        &mut self,
        event: &DigitEvent,
        caller_session_id: &str,
        callee_session_id: Option<&str>,
        routable: bool,
    ) -> (result: DtmfDisposition)
        ensures
            result@ == disposition(
                event.source_session_id@,
                caller_session_id@,
                match callee_session_id {
                    Some(callee) => Some(callee@),
                    None => None,
                },
                routable,
            ),
            final(self).stats == (match result@ {
                Disposition::Forward(_) => DtmfRouterStats {
                    forwarded: one_more(old(self).stats.forwarded),
                    ..old(self).stats
                },
                Disposition::Ignore(_) => DtmfRouterStats {
                    ignored: one_more(old(self).stats.ignored),
                    ..old(self).stats
                },
            }),
    {
        let result = if !routable {
            DtmfDisposition::Ignore { reason: DtmfIgnoreReason::CallTerminating }
        } else if same_text(event.source_session_id.as_str(), caller_session_id) {
            match callee_session_id {
                Some(peer) => DtmfDisposition::Forward { peer_session_id: peer.to_owned() },
                None => DtmfDisposition::Ignore { reason: DtmfIgnoreReason::MissingPeer },
            }
        } else {
            match callee_session_id {
                Some(callee) => if same_text(event.source_session_id.as_str(), callee) {
                    DtmfDisposition::Forward { peer_session_id: caller_session_id.to_owned() }
                } else {
                    DtmfDisposition::Ignore { reason: DtmfIgnoreReason::StaleSourceSession }
                },
                None => DtmfDisposition::Ignore { reason: DtmfIgnoreReason::StaleSourceSession },
            }
        };
        match &result {
            DtmfDisposition::Forward { .. } => {
                self.stats.forwarded = self.stats.forwarded.saturating_add(1);
            },
            DtmfDisposition::Ignore { .. } => {
                self.stats.ignored = self.stats.ignored.saturating_add(1);
            },
        }
        result
    }

    pub fn stats(&self) -> (stats: DtmfRouterStats)
        ensures
            stats == self.stats,
    {
        self.stats
    }

    pub fn record_info_send_result(&mut self, succeeded: bool)
        ensures
            final(self).stats == (if succeeded {
                DtmfRouterStats {
                    info_send_succeeded: one_more(old(self).stats.info_send_succeeded),
                    ..old(self).stats
                }
            } else {
                DtmfRouterStats {
                    info_send_failed: one_more(old(self).stats.info_send_failed),
                    ..old(self).stats
                }
            }),
    {
        if succeeded {
            self.stats.info_send_succeeded = self.stats.info_send_succeeded.saturating_add(1);
        } else {
            self.stats.info_send_failed = self.stats.info_send_failed.saturating_add(1);
        }
    }

    pub fn record_consumed(&mut self)
        ensures
            final(self).stats == (DtmfRouterStats {
                consumed: one_more(old(self).stats.consumed),
                ..old(self).stats
            }),
    {
        self.stats.consumed = self.stats.consumed.saturating_add(1);
    }
}

impl Default for DtmfRouter {
    fn default() -> (router: Self)
        ensures
            router.stats == (DtmfRouterStats {
                forwarded: 0,
                consumed: 0,
                ignored: 0,
                info_send_succeeded: 0,
                info_send_failed: 0,
            }),
    {
        DtmfRouter {
            stats: DtmfRouterStats {
                forwarded: 0,
                consumed: 0,
                ignored: 0,
                info_send_succeeded: 0,
                info_send_failed: 0,
            },
        }
    }
}

// ---------------------------------------------------------------------------
// Sets of digits.

/// A set of digits.
#[derive(Debug, Clone)]
pub struct DigitSet {
    pub members: Vec<DtmfDigit>,
}

impl DigitSet {
    pub open spec fn view(&self) -> Set<DtmfDigit> {
        self.members@.to_set()
    }

    /// No digit is listed twice.
    pub open spec fn wf(self) -> bool {
        self.members@.no_duplicates()
    }

    pub fn new() -> (set: Self)
        ensures
            set.wf(),
            set@ == Set::<DtmfDigit>::empty(),
    {
        let set = DigitSet { members: Vec::new() };
        assert(set@ =~= Set::<DtmfDigit>::empty());
        set
    }

    pub fn contains(&self, digit: DtmfDigit) -> (found: bool)
        ensures
            found == self@.contains(digit),
    {
        let mut i: usize = 0;
        while i < self.members.len()
            invariant
                i <= self.members.len(),
                forall|k: int| 0 <= k < i ==> self.members@[k] != digit,
            decreases self.members.len() - i,
        {
            if self.members[i] == digit {
                assert(self.members@.contains(digit));
                return true;
            }
            i = i + 1;
        }
        assert(!self.members@.contains(digit));
        false
    }

    pub fn insert(&mut self, digit: DtmfDigit)
        requires
            old(self).wf(),
        ensures
            final(self).wf(),
            final(self)@ == old(self)@.insert(digit),
    {
        if self.contains(digit) {
            assert(self@ =~= old(self)@.insert(digit));
            return;
        }
        let ghost before = self.members@;
        self.members.push(digit);
        proof {
            assert(!before.contains(digit));
            assert forall|d: DtmfDigit| self@.contains(d) <==> old(self)@.insert(digit).contains(d) by {
                if self.members@.contains(d) {
                    let i = choose|i: int| 0 <= i < self.members@.len() && self.members@[i] == d;
                    if i < before.len() {
                        assert(before[i] == d);
                    }
                }
                if before.contains(d) {
                    let i = choose|i: int| 0 <= i < before.len() && before[i] == d;
                    assert(self.members@[i] == d);
                }
                assert(self.members@[before.len() as int] == digit);
            }
            assert(self@ =~= old(self)@.insert(digit));
        }
    }

    pub fn clear(&mut self)
        ensures
            final(self).wf(),
            final(self)@ == Set::<DtmfDigit>::empty(),
    {
        self.members.clear();
        assert(self@ =~= Set::<DtmfDigit>::empty());
    }

    pub fn len(&self) -> (n: usize)
        requires
            self.wf(),
        ensures
            n == self@.len(),
    {
        proof {
            self.members@.unique_seq_to_set();
        }
        self.members.len()
    }

    pub fn is_empty(&self) -> (empty: bool)
        ensures
            empty == (self@ == Set::<DtmfDigit>::empty()),
    {
        if self.members.len() == 0 {
            assert(self@ =~= Set::<DtmfDigit>::empty());
            true
        } else {
            assert(self.members@.contains(self.members@[0]));
            assert(self@.contains(self.members@[0]));
            false
        }
    }
}

// ---------------------------------------------------------------------------
// Collectors.

#[derive(Debug, Clone, Copy, PartialEq, Eq, Structural)]
pub enum DigitCollectionMode {
    Observe,
    Collect,
}

/// What is to be collected. Times are in nanoseconds.
#[derive(Debug, Clone)]
pub struct DigitCollectionSpec {
    pub collector_id: String,
    pub owner: String,
    pub source_session_id: String,
    pub mode: DigitCollectionMode,
    pub allowed: DigitSet,
    pub min_digits: usize,
    pub max_digits: usize,
    pub terminators: DigitSet,
    pub first_digit_timeout: u64,
    pub inter_digit_timeout: u64,
    pub overall_timeout: u64,
}

#[derive(Debug, Clone, Copy, PartialEq, Eq, Structural)]
pub enum CollectionSpecError {
    InvalidDigitCountRange,
    EmptyAllowedDigitSet,
    InvalidTimeout,
}

impl CollectionSpecError {
    pub open spec fn code(self) -> Seq<char> {
        match self {
            CollectionSpecError::InvalidDigitCountRange => "invalid_digit_count_range"@,
            CollectionSpecError::EmptyAllowedDigitSet => "empty_allowed_digit_set"@,
            CollectionSpecError::InvalidTimeout => "invalid_digit_collection_timeout"@,
        }
    }

    pub fn text(self) -> (text: String)
        ensures
            text@ == self.code(),
    {
        match self {
            CollectionSpecError::InvalidDigitCountRange => "invalid_digit_count_range".to_owned(),
            CollectionSpecError::EmptyAllowedDigitSet => "empty_allowed_digit_set".to_owned(),
            CollectionSpecError::InvalidTimeout => "invalid_digit_collection_timeout".to_owned(),
        }
    }
}

impl DigitCollectionSpec {
    /// What is wrong with the request, if anything.
    pub open spec fn validity(self) -> Result<(), CollectionSpecError> {
        if self.min_digits > self.max_digits || self.max_digits == 0 {
            Err(CollectionSpecError::InvalidDigitCountRange)
        } else if self.allowed@ == Set::<DtmfDigit>::empty() {
            Err(CollectionSpecError::EmptyAllowedDigitSet)
        } else if self.first_digit_timeout == 0 || self.inter_digit_timeout == 0
            || self.overall_timeout == 0 {
            Err(CollectionSpecError::InvalidTimeout)
        } else {
            Ok(())
        }
    }

    pub fn validate(&self) -> (valid: Result<(), CollectionSpecError>)
        ensures
            valid == self.validity(),
    {
        if self.min_digits > self.max_digits || self.max_digits == 0 {
            return Err(CollectionSpecError::InvalidDigitCountRange);
        }
        if self.allowed.is_empty() {
            return Err(CollectionSpecError::EmptyAllowedDigitSet);
        }
        if self.first_digit_timeout == 0 || self.inter_digit_timeout == 0 || self.overall_timeout
            == 0 {
            return Err(CollectionSpecError::InvalidTimeout);
        }
        Ok(())
    }
}

#[derive(Debug, Clone, Copy, PartialEq, Eq, Structural)]
pub enum DigitCollectionResultCode {
    Completed,
    FirstDigitTimeout,
    InterDigitTimeout,
    OverallTimeout,
    Cancelled,
    Failed,
}

/// How a collection ended.
#[derive(Debug, Clone)]
pub struct DigitCollectionOutcome {
    pub collector_id: String,
    pub code: DigitCollectionResultCode,
    pub digits: Vec<DtmfDigit>,
    pub reason: Option<String>,
}

pub struct Outcome {
    pub collector_id: Seq<char>,
    pub code: DigitCollectionResultCode,
    pub digits: Seq<DtmfDigit>,
    pub reason: Option<Seq<char>>,
}

impl DigitCollectionOutcome {
    pub open spec fn view(&self) -> Outcome {
        Outcome {
            collector_id: self.collector_id@,
            code: self.code,
            digits: self.digits@,
            reason: opt_text(self.reason),
        }
    }
}

#[derive(Debug, Clone, Copy, PartialEq, Eq, Structural)]
pub enum DigitCollectorDeadline {
    FirstDigit,
    InterDigit,
    Overall,
}

impl DigitCollectorDeadline {
    pub open spec fn code(self) -> DigitCollectionResultCode {
        match self {
            DigitCollectorDeadline::FirstDigit => DigitCollectionResultCode::FirstDigitTimeout,
            DigitCollectorDeadline::InterDigit => DigitCollectionResultCode::InterDigitTimeout,
            DigitCollectorDeadline::Overall => DigitCollectionResultCode::OverallTimeout,
        }
    }

    pub fn result_code(self) -> (code: DigitCollectionResultCode)
        ensures
            code == self.code(),
    {
        match self {
            DigitCollectorDeadline::FirstDigit => DigitCollectionResultCode::FirstDigitTimeout,
            DigitCollectorDeadline::InterDigit => DigitCollectionResultCode::InterDigitTimeout,
            DigitCollectorDeadline::Overall => DigitCollectionResultCode::OverallTimeout,
        }
    }
}

#[derive(Debug, Clone, Copy, PartialEq, Eq, Structural)]
pub enum DigitCollectorPhase {
    Acquiring,
    Active,
    Releasing,
}

#[derive(Debug, Clone, PartialEq, Eq)]
pub enum DigitCollectorInput {
    Ignored,
    Continue { consume: bool },
    Finish { consume: bool, code: DigitCollectionResultCode, reason: Option<String> },
}

pub enum CollectorInput {
    Ignored,
    Continue(bool),
    Finish(bool, DigitCollectionResultCode, Option<Seq<char>>),
}

impl DigitCollectorInput {
    pub open spec fn view(&self) -> CollectorInput {
        match self {
            DigitCollectorInput::Ignored => CollectorInput::Ignored,
            DigitCollectorInput::Continue { consume } => CollectorInput::Continue(*consume),
            DigitCollectorInput::Finish { consume, code, reason } => CollectorInput::Finish(
                *consume,
                *code,
                opt_text(*reason),
            ),
        }
    }
}

#[derive(Debug, Clone, Copy, PartialEq, Eq, Structural)]
pub enum DigitCollectorCancel {
    AwaitAcquire,
    Finish,
    AlreadyReleasing,
}

/// A collector: what it waits for, how far it is, and who waits for it.
pub struct DigitCollectorState {
    pub spec: DigitCollectionSpec,
    pub phase: DigitCollectorPhase,
    pub ready_pending: bool,
    pub result_pending: bool,
    pub digits: Vec<DtmfDigit>,
    pub cancel_requested: bool,
    pub first_deadline: Option<u128>,
    pub inter_deadline: Option<u128>,
    pub overall_deadline: Option<u128>,
    pub pending_outcome: Option<DigitCollectionOutcome>,
}

pub struct Collector {
    pub spec: DigitCollectionSpec,
    pub phase: DigitCollectorPhase,
    pub ready_pending: bool,
    pub result_pending: bool,
    pub digits: Seq<DtmfDigit>,
    pub cancel_requested: bool,
    pub first_deadline: Option<u128>,
    pub inter_deadline: Option<u128>,
    pub overall_deadline: Option<u128>,
    pub pending_outcome: Option<Outcome>,
}

impl Collector {
    pub open spec fn id(self) -> Seq<char> {
        self.spec.collector_id@
    }

    /// A collector begins to count once its capability is there.
    pub open spec fn activated(self, now: u64) -> Collector {
        Collector {
            phase: DigitCollectorPhase::Active,
            first_deadline: Some((now + self.spec.first_digit_timeout) as u128),
            overall_deadline: Some((now + self.spec.overall_timeout) as u128),
            ..self
        }
    }

    /// What a digit does to a collector. A digit of another session is none of its
    /// business; a terminator ends it; an allowed digit is kept; any other is left
    /// alone. A collector that collects, as opposed to one that observes, consumes
    /// what it hears.
    pub open spec fn digit_applied(self, source: Seq<char>, digit: DtmfDigit, now: u64) -> (
        Collector,
        CollectorInput,
    ) {
        let consume = self.spec.mode == DigitCollectionMode::Collect;
        if self.phase != DigitCollectorPhase::Active || self.spec.source_session_id@ != source {
            (self, CollectorInput::Ignored)
        } else if self.spec.terminators@.contains(digit) {
            if self.digits.len() >= self.spec.min_digits {
                (
                    self,
                    CollectorInput::Finish(consume, DigitCollectionResultCode::Completed, None),
                )
            } else {
                (
                    self,
                    CollectorInput::Finish(
                        consume,
                        DigitCollectionResultCode::Failed,
                        Some("digit_collection_too_short"@),
                    ),
                )
            }
        } else if !self.spec.allowed@.contains(digit) {
            (self, CollectorInput::Continue(consume))
        } else {
            let c = Collector {
                digits: self.digits.push(digit),
                first_deadline: None,
                inter_deadline: Some((now + self.spec.inter_digit_timeout) as u128),
                ..self
            };
            if c.digits.len() >= self.spec.max_digits {
                (c, CollectorInput::Finish(consume, DigitCollectionResultCode::Completed, None))
            } else {
                (c, CollectorInput::Continue(consume))
            }
        }
    }

    /// The first of its deadlines.
    pub open spec fn deadline(self) -> Option<(u128, DigitCollectorDeadline)> {
        let first = match self.first_deadline {
            Some(at) => Some((at, DigitCollectorDeadline::FirstDigit)),
            None => None,
        };
        let inter = match self.inter_deadline {
            Some(at) => Some((at, DigitCollectorDeadline::InterDigit)),
            None => None,
        };
        let overall = match self.overall_deadline {
            Some(at) => Some((at, DigitCollectorDeadline::Overall)),
            None => None,
        };
        sooner(sooner(first, inter), overall)
    }
}

/// The sooner of two deadlines, the first where both are at once.
pub open spec fn sooner(
    a: Option<(u128, DigitCollectorDeadline)>,
    b: Option<(u128, DigitCollectorDeadline)>,
) -> Option<(u128, DigitCollectorDeadline)> {
    match (a, b) {
        (Some(x), Some(y)) => if y.0 < x.0 {
            Some(y)
        } else {
            Some(x)
        },
        (Some(x), None) => Some(x),
        (None, y) => y,
    }
}

impl DigitCollectorState {
    pub open spec fn view(&self) -> Collector {
        Collector {
            spec: self.spec,
            phase: self.phase,
            ready_pending: self.ready_pending,
            result_pending: self.result_pending,
            digits: self.digits@,
            cancel_requested: self.cancel_requested,
            first_deadline: self.first_deadline,
            inter_deadline: self.inter_deadline,
            overall_deadline: self.overall_deadline,
            pending_outcome: match self.pending_outcome {
                Some(outcome) => Some(outcome@),
                None => None,
            },
        }
    }

    pub fn new(spec: DigitCollectionSpec) -> (collector: Self)
        ensures
            collector@ == fresh(spec),
    {
        DigitCollectorState {
            spec,
            phase: DigitCollectorPhase::Acquiring,
            ready_pending: true,
            result_pending: true,
            digits: Vec::new(),
            cancel_requested: false,
            first_deadline: None,
            inter_deadline: None,
            overall_deadline: None,
            pending_outcome: None,
        }
    }

    pub fn activate(&mut self, now: u64)
        ensures
            final(self)@ == old(self)@.activated(now),
    {
        self.phase = DigitCollectorPhase::Active;
        self.first_deadline = Some(now as u128 + self.spec.first_digit_timeout as u128);
        self.overall_deadline = Some(now as u128 + self.spec.overall_timeout as u128);
    }

    pub fn apply_digit(&mut self, event: &DigitEvent, now: u64) -> (input: DigitCollectorInput)
        ensures
            (final(self)@, input@) == old(self)@.digit_applied(
                event.source_session_id@,
                event.digit,
                now,
            ),
    {
        if self.phase != DigitCollectorPhase::Active || !self.spec.source_session_id.eq(
            &event.source_session_id,
        ) {
            return DigitCollectorInput::Ignored;
        }
        let consume = self.spec.mode == DigitCollectionMode::Collect;
        if self.spec.terminators.contains(event.digit) {
            return if self.digits.len() >= self.spec.min_digits {
                DigitCollectorInput::Finish {
                    consume,
                    code: DigitCollectionResultCode::Completed,
                    reason: None,
                }
            } else {
                DigitCollectorInput::Finish {
                    consume,
                    code: DigitCollectionResultCode::Failed,
                    reason: Some("digit_collection_too_short".to_owned()),
                }
            };
        }
        if !self.spec.allowed.contains(event.digit) {
            return DigitCollectorInput::Continue { consume };
        }
        self.digits.push(event.digit);
        self.first_deadline = None;
        self.inter_deadline = Some(now as u128 + self.spec.inter_digit_timeout as u128);
        if self.digits.len() >= self.spec.max_digits {
            DigitCollectorInput::Finish {
                consume,
                code: DigitCollectionResultCode::Completed,
                reason: None,
            }
        } else {
            DigitCollectorInput::Continue { consume }
        }
    }

    pub fn next_deadline(&self) -> (deadline: Option<(u128, DigitCollectorDeadline)>)
        ensures
            deadline == self@.deadline(),
    {
        let first = match self.first_deadline {
            Some(at) => Some((at, DigitCollectorDeadline::FirstDigit)),
            None => None,
        };
        let inter = match self.inter_deadline {
            Some(at) => Some((at, DigitCollectorDeadline::InterDigit)),
            None => None,
        };
        let overall = match self.overall_deadline {
            Some(at) => Some((at, DigitCollectorDeadline::Overall)),
            None => None,
        };
        sooner_of(sooner_of(first, inter), overall)
    }

    pub fn request_cancel(&mut self) -> (cancel: DigitCollectorCancel)
        ensures
            match old(self).phase {
                DigitCollectorPhase::Acquiring => cancel == DigitCollectorCancel::AwaitAcquire
                    && final(self)@ == (Collector { cancel_requested: true, ..old(self)@ }),
                DigitCollectorPhase::Active => cancel == DigitCollectorCancel::Finish
                    && *final(self) == *old(self),
                DigitCollectorPhase::Releasing => cancel == DigitCollectorCancel::AlreadyReleasing
                    && *final(self) == *old(self),
            },
    {
        match self.phase {
            DigitCollectorPhase::Acquiring => {
                self.cancel_requested = true;
                DigitCollectorCancel::AwaitAcquire
            },
            DigitCollectorPhase::Active => DigitCollectorCancel::Finish,
            DigitCollectorPhase::Releasing => DigitCollectorCancel::AlreadyReleasing,
        }
    }
}

fn sooner_of(
    a: Option<(u128, DigitCollectorDeadline)>,
    b: Option<(u128, DigitCollectorDeadline)>,
) -> (c: Option<(u128, DigitCollectorDeadline)>)
    ensures
        c == sooner(a, b),
{
    match (a, b) {
        (Some(x), Some(y)) => if y.0 < x.0 {
            Some(y)
        } else {
            Some(x)
        },
        (Some(x), None) => Some(x),
        (None, y) => y,
    }
}

/// A collector that waits for its capability.
pub open spec fn fresh(spec: DigitCollectionSpec) -> Collector {
    Collector {
        spec,
        phase: DigitCollectorPhase::Acquiring,
        ready_pending: true,
        result_pending: true,
        digits: Seq::empty(),
        cancel_requested: false,
        first_deadline: None,
        inter_deadline: None,
        overall_deadline: None,
        pending_outcome: None,
    }
}

/// The same digits once more.
pub fn copy_digits(digits: &Vec<DtmfDigit>) -> (copy: Vec<DtmfDigit>)
    ensures
        copy@ == digits@,
{
    let mut copy: Vec<DtmfDigit> = Vec::new();
    let mut i: usize = 0;
    while i < digits.len()
        invariant
            i <= digits.len(),
            copy@ == digits@.take(i as int),
        decreases digits.len() - i,
    {
        copy.push(digits[i]);
        i = i + 1;
        assert(digits@.take(i as int) =~= digits@.take(i - 1).push(digits@[i - 1]));
    }
    assert(digits@.take(i as int) =~= digits@);
    copy
}

/// The collectors of a call, in the order of their names.
pub open spec fn collectors_of(list: Seq<DigitCollectorState>) -> Seq<Collector> {
    Seq::new(list.len(), |i: int| list[i]@)
}

/// The collectors stand in order, are not too many, and no two of them collect
/// from the same session.
pub open spec fn collectors_wf(list: Seq<Collector>) -> bool {
    &&& list.len() <= DTMF_COLLECTOR_CAPACITY
    &&& forall|i: int, j: int|
        0 <= i < j < list.len() ==> text_before((#[trigger] list[i]).id(), (#[trigger] list[j]).id())
    &&& forall|i: int, j: int|
        0 <= i < j < list.len() ==> !((#[trigger] list[i]).spec.mode == DigitCollectionMode::Collect
            && (#[trigger] list[j]).spec.mode == DigitCollectionMode::Collect
            && list[i].spec.source_session_id@ == list[j].spec.source_session_id@)
}

#[derive(Debug, Clone, Copy, PartialEq, Eq, Structural)]
pub enum RegistrationError {
    IdConflict,
    Overloaded,
    SourceConflict,
}

impl RegistrationError {
    pub open spec fn code(self) -> Seq<char> {
        match self {
            RegistrationError::IdConflict => "dtmf_collector_id_conflict"@,
            RegistrationError::Overloaded => "dtmf_collector_overloaded"@,
            RegistrationError::SourceConflict => "dtmf_collector_conflict"@,
        }
    }

    pub fn text(self) -> (text: String)
        ensures
            text@ == self.code(),
    {
        match self {
            RegistrationError::IdConflict => "dtmf_collector_id_conflict".to_owned(),
            RegistrationError::Overloaded => "dtmf_collector_overloaded".to_owned(),
            RegistrationError::SourceConflict => "dtmf_collector_conflict".to_owned(),
        }
    }
}

pub open spec fn has_collector(list: Seq<Collector>, id: Seq<char>) -> bool {
    exists|i: int| 0 <= i < list.len() && (#[trigger] list[i]).id() == id
}

pub open spec fn collects_from(list: Seq<Collector>, source: Seq<char>) -> bool {
    exists|i: int|
        0 <= i < list.len() && (#[trigger] list[i]).spec.mode == DigitCollectionMode::Collect
            && list[i].spec.source_session_id@ == source
}

/// Whether another collector may join, and why not.
pub open spec fn registration(list: Seq<Collector>, spec: DigitCollectionSpec) -> Result<
    (),
    RegistrationError,
> {
    if has_collector(list, spec.collector_id@) {
        Err(RegistrationError::IdConflict)
    } else if list.len() >= DTMF_COLLECTOR_CAPACITY {
        Err(RegistrationError::Overloaded)
    } else if spec.mode == DigitCollectionMode::Collect && collects_from(
        list,
        spec.source_session_id@,
    ) {
        Err(RegistrationError::SourceConflict)
    } else {
        Ok(())
    }
}

pub fn validate_digit_collector_registration(
    collectors: &Vec<DigitCollectorState>,
    spec: &DigitCollectionSpec,
) -> (valid: Result<(), RegistrationError>)
    ensures
        valid == registration(collectors_of(collectors@), *spec),
{
    let ghost list = collectors_of(collectors@);
    let mut known = false;
    let mut taken = false;
    let mut i: usize = 0;
    while i < collectors.len()
        invariant
            i <= collectors.len(),
            list == collectors_of(collectors@),
            known == exists|k: int|
                0 <= k < i && (#[trigger] list[k]).id() == spec.collector_id@,
            taken == exists|k: int|
                0 <= k < i && (#[trigger] list[k]).spec.mode == DigitCollectionMode::Collect
                    && list[k].spec.source_session_id@ == spec.source_session_id@,
        decreases collectors.len() - i,
    {
        assert(list[i as int] == collectors@[i as int]@);
        if collectors[i].spec.collector_id.eq(&spec.collector_id) {
            known = true;
        }
        if collectors[i].spec.mode == DigitCollectionMode::Collect
            && collectors[i].spec.source_session_id.eq(&spec.source_session_id) {
            taken = true;
        }
        i = i + 1;
    }
    if known {
        Err(RegistrationError::IdConflict)
    } else if collectors.len() >= DTMF_COLLECTOR_CAPACITY {
        Err(RegistrationError::Overloaded)
    } else if spec.mode == DigitCollectionMode::Collect && taken {
        Err(RegistrationError::SourceConflict)
    } else {
        Ok(())
    }
}

/// One collector that a digit finished.
pub struct FinishedCollector {
    pub collector_id: String,
    pub code: DigitCollectionResultCode,
    pub reason: Option<String>,
}

pub struct Finished {
    pub collector_id: Seq<char>,
    pub code: DigitCollectionResultCode,
    pub reason: Option<Seq<char>>,
}

impl FinishedCollector {
    pub open spec fn view(&self) -> Finished {
        Finished {
            collector_id: self.collector_id@,
            code: self.code,
            reason: opt_text(self.reason),
        }
    }
}

pub open spec fn finished_of(list: Seq<FinishedCollector>) -> Seq<Finished> {
    Seq::new(list.len(), |i: int| list[i]@)
}

/// What a digit did to all collectors.
pub struct DigitCollectorBatch {
    pub consume: bool,
    pub completed: Vec<FinishedCollector>,
}

/// The collectors after a digit.
pub open spec fn all_applied(
    list: Seq<Collector>,
    source: Seq<char>,
    digit: DtmfDigit,
    now: u64,
) -> Seq<Collector> {
    Seq::new(list.len(), |i: int| list[i].digit_applied(source, digit, now).0)
}

pub open spec fn consumes(input: CollectorInput) -> bool {
    match input {
        CollectorInput::Ignored => false,
        CollectorInput::Continue(consume) => consume,
        CollectorInput::Finish(consume, _, _) => consume,
    }
}

/// The collectors that a digit finishes, in order.
pub open spec fn finished_by(
    list: Seq<Collector>,
    source: Seq<char>,
    digit: DtmfDigit,
    now: u64,
) -> Seq<Finished>
    decreases list.len(),
{
    if list.len() == 0 {
        Seq::empty()
    } else {
        let front = finished_by(list.drop_last(), source, digit, now);
        match list.last().digit_applied(source, digit, now).1 {
            CollectorInput::Finish(_, code, reason) => front.push(
                Finished { collector_id: list.last().id(), code, reason },
            ),
            _ => front,
        }
    }
}

/// Hands a digit to every collector.
pub fn apply_digit_to_collectors(
    collectors: &mut Vec<DigitCollectorState>,
    event: &DigitEvent,
    now: u64,
) -> (batch: DigitCollectorBatch)
    ensures
        collectors_of(final(collectors)@) == all_applied(
            collectors_of(old(collectors)@),
            event.source_session_id@,
            event.digit,
            now,
        ),
        batch.consume == exists|i: int|
            0 <= i < old(collectors)@.len() && consumes(
                (#[trigger] old(collectors)@[i])@.digit_applied(
                    event.source_session_id@,
                    event.digit,
                    now,
                ).1,
            ),
        finished_of(batch.completed@) == finished_by(
            collectors_of(old(collectors)@),
            event.source_session_id@,
            event.digit,
            now,
        ),
{
    let ghost before = collectors@;
    let ghost list = collectors_of(before);
    let ghost source = event.source_session_id@;
    let ghost digit = event.digit;
    let mut applied: Vec<DigitCollectorState> = Vec::new();
    let mut rest: Vec<DigitCollectorState> = Vec::new();
    std::mem::swap(collectors, &mut rest);
    let mut consume = false;
    let mut completed: Vec<FinishedCollector> = Vec::new();
    let ghost total = rest@.len();
    proof {
        assert(list.take(0) =~= Seq::<Collector>::empty());
        assert(finished_of(completed@) =~= Seq::<Finished>::empty());
        assert(rest@ =~= before.skip(0));
    }
    while rest.len() > 0
        invariant
            applied@.len() + rest@.len() == total,
            total == before.len(),
            list == collectors_of(before),
            source == event.source_session_id@,
            digit == event.digit,
            rest@ == before.skip(applied@.len() as int),
            forall|k: int|
                0 <= k < applied@.len() ==> (#[trigger] applied@[k])@ == list[k].digit_applied(
                    source,
                    digit,
                    now,
                ).0,
            consume == exists|k: int|
                0 <= k < applied@.len() && consumes(
                    (#[trigger] before[k])@.digit_applied(source, digit, now).1,
                ),
            finished_of(completed@) == finished_by(
                list.take(applied@.len() as int),
                source,
                digit,
                now,
            ),
        decreases rest@.len(),
    {
        let ghost at = applied@.len() as int;
        let mut collector = rest.remove(0);
        assert(collector == before[at]);
        assert(rest@ =~= before.skip(at + 1));
        let id = collector.spec.collector_id.clone();
        let ghost was = collector@;
        assert(list[at] == was);
        proof {
            assert(list.take(at + 1).drop_last() =~= list.take(at));
            assert(list.take(at + 1).last() == was);
        }
        let ghost done = finished_of(completed@);
        match collector.apply_digit(event, now) {
            DigitCollectorInput::Ignored => {},
            DigitCollectorInput::Continue { consume: takes } => {
                consume = consume || takes;
            },
            DigitCollectorInput::Finish { consume: takes, code, reason } => {
                consume = consume || takes;
                completed.push(FinishedCollector { collector_id: id, code, reason });
                assert(finished_of(completed@) =~= done.push(
                    Finished { collector_id: was.id(), code, reason: opt_text(reason) },
                ));
            },
        }
        applied.push(collector);
        proof {
            if consumes(before[at]@.digit_applied(source, digit, now).1) {
                assert(consume);
            }
        }
    }
    assert(list.take(applied@.len() as int) =~= list);
    std::mem::swap(collectors, &mut applied);
    assert(collectors_of(collectors@) =~= all_applied(list, source, digit, now));
    DigitCollectorBatch { consume, completed }
}

/// The collector with the first deadline, the first of them where several are at
/// once.
pub open spec fn nearest(list: Seq<Collector>) -> Option<(u128, Seq<char>, DigitCollectorDeadline)>
    decreases list.len(),
{
    if list.len() == 0 {
        None
    } else {
        let front = nearest(list.drop_last());
        match list.last().deadline() {
            None => front,
            Some((at, kind)) => match front {
                Some(best) => if at < best.0 {
                    Some((at, list.last().id(), kind))
                } else {
                    front
                },
                None => Some((at, list.last().id(), kind)),
            },
        }
    }
}

/// No collector's deadline comes before the nearest.
pub proof fn lemma_nearest_is_least(list: Seq<Collector>, i: int)
    requires
        0 <= i < list.len(),
        list[i].deadline() is Some,
    ensures
        nearest(list) matches Some(best) && best.0 <= list[i].deadline()->Some_0.0,
    decreases list.len(),
{
    if i < list.len() - 1 {
        assert(list.drop_last()[i] == list[i]);
        lemma_nearest_is_least(list.drop_last(), i);
    }
}

pub fn next_digit_collector_deadline(collectors: &Vec<DigitCollectorState>) -> (next: Option<
    (u128, String, DigitCollectorDeadline),
>)
    ensures
        match (next, nearest(collectors_of(collectors@))) {
            (Some((at, id, kind)), Some(best)) => at == best.0 && id@ == best.1 && kind == best.2,
            (None, None) => true,
            _ => false,
        },
{
    let ghost list = collectors_of(collectors@);
    let mut best: Option<(u128, usize, DigitCollectorDeadline)> = None;
    let mut i: usize = 0;
    assert(list.take(0) =~= Seq::<Collector>::empty());
    while i < collectors.len()
        invariant
            i <= collectors.len(),
            list == collectors_of(collectors@),
            match (best, nearest(list.take(i as int))) {
                (Some((at, n, kind)), Some(known)) => n < i && at == known.0 && list[n as int].id()
                    == known.1 && kind == known.2,
                (None, None) => true,
                _ => false,
            },
        decreases collectors.len() - i,
    {
        proof {
            assert(list.take(i + 1).drop_last() =~= list.take(i as int));
            assert(list.take(i + 1).last() == collectors@[i as int]@);
        }
        match collectors[i].next_deadline() {
            Some((at, kind)) => {
                let closer = match best {
                    Some((known, _, _)) => at < known,
                    None => true,
                };
                if closer {
                    best = Some((at, i, kind));
                }
            },
            None => {},
        }
        i = i + 1;
    }
    assert(list.take(i as int) =~= list);
    match best {
        Some((at, n, kind)) => Some((at, collectors[n].spec.collector_id.clone(), kind)),
        None => None,
    }
}

} // verus!
