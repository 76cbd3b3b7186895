//! The session that owns a call: it checks what comes in, takes no event twice,
//! and hands the rest to the coordinator, the digit router and the collectors.

use crate::call::action::{action_id, action_name, ActionIdentity};
use crate::call::collection::{index_of, lemma_index, CollectionState, DigitCollection};
use crate::call::coordinator::{
    ActionBody, ActionKind, ActionLabel, CallAction, CallCore, CallEffect, CallError, CallTimerKind,
    DeferredDisconnect, Outbox, OutboxState, PrepareSdpPurpose, Step, TopologyChange,
};
use crate::call::dtmf::{
    consumes, disposition, from_source, one_more, valid_source_event, DigitCollectionMode,
    DigitCollectionSpec, DigitCollectorDeadline, DigitEvent, Disposition, DtmfDisposition, DtmfEventId, DtmfRouter,
    DtmfRouterStats, DtmfSourceDecision, DtmfSourceState, DtmfTransport, SourceState,
};
use crate::call::event::{ActionDeliveryFailed, CallActionAck, CallLegEvent, DtmfInfoSendResult};
use crate::call::model::{session_id, session_name, SdpBody, SessionRef};
use crate::call::registry::{DeduperState, LegEventDeduper};
use crate::capability::DtmfCapabilityLeaseRequest;
use crate::dtmf::DtmfMediaMode;
use crate::text::{begins_with, join4, opt_text, same_text, starts_with};
use vstd::prelude::*;

verus! {

pub struct CompletedAction {
    pub action_id: String,
    pub generation: u64,
}

/// The actions whose result was taken.
pub struct ActionLog {
    pub entries: Vec<CompletedAction>,
}

impl ActionLog {
    pub open spec fn holds(self, id: Seq<char>, generation: u64) -> bool {
        exists|i: int|
            0 <= i < self.entries@.len() && (#[trigger] self.entries@[i]).action_id@ == id
                && self.entries@[i].generation == generation
    }

    pub open spec fn view(&self) -> Set<(Seq<char>, u64)> {
        Set::new(|key: (Seq<char>, u64)| self.holds(key.0, key.1))
    }

    pub fn new() -> (log: Self)
        ensures
            log@ == Set::<(Seq<char>, u64)>::empty(),
    {
        let log = ActionLog { entries: Vec::new() };
        assert(log@ =~= Set::empty());
        log
    }

    pub fn contains(&self, action_id: &str, generation: u64) -> (found: bool)
        ensures
            found == self@.contains((action_id@, generation)),
    {
        let mut i: usize = 0;
        while i < self.entries.len()
            invariant
                i <= self.entries.len(),
                forall|k: int|
                    0 <= k < i ==> !((#[trigger] self.entries@[k]).action_id@ == action_id@
                        && self.entries@[k].generation == generation),
            decreases self.entries.len() - i,
        {
            if same_text(self.entries[i].action_id.as_str(), action_id)
                && self.entries[i].generation == generation {
                assert(self.holds(action_id@, generation));
                return true;
            }
            i = i + 1;
        }
        false
    }

    /// Says whether the action was not there before.
    pub fn insert(&mut self, action_id: &str, generation: u64) -> (fresh: bool)
        ensures
            fresh == !old(self)@.contains((action_id@, generation)),
            final(self)@ == old(self)@.insert((action_id@, generation)),
    {
        let ghost before = *self;
        let mut i: usize = 0;
        while i < self.entries.len()
            invariant
                *self == before,
                i <= self.entries.len(),
                forall|k: int|
                    0 <= k < i ==> !((#[trigger] self.entries@[k]).action_id@ == action_id@
                        && self.entries@[k].generation == generation),
            decreases self.entries.len() - i,
        {
            if same_text(self.entries[i].action_id.as_str(), action_id)
                && self.entries[i].generation == generation {
                assert(self.holds(action_id@, generation));
                assert(self@ =~= before@.insert((action_id@, generation)));
                return false;
            }
            i = i + 1;
        }
        self.entries.push(CompletedAction { action_id: action_id.to_owned(), generation });
        proof {
            assert forall|key: (Seq<char>, u64)| #[trigger] self@.contains(key) <==> before@.insert(
                (action_id@, generation),
            ).contains(key) by {
                if before.holds(key.0, key.1) {
                    let k = choose|k: int|
                        0 <= k < before.entries@.len() && (#[trigger] before.entries@[k]).action_id@
                            == key.0 && before.entries@[k].generation == key.1;
                    assert(self.entries@[k] == before.entries@[k]);
                }
                if self.holds(key.0, key.1) {
                    let k = choose|k: int|
                        0 <= k < self.entries@.len() && (#[trigger] self.entries@[k]).action_id@
                            == key.0 && self.entries@[k].generation == key.1;
                    if k < before.entries@.len() {
                        assert(before.entries@[k] == self.entries@[k]);
                    }
                }
                assert(self.entries@[before.entries@.len() as int].action_id@ == action_id@);
            }
            assert(self@ =~= before@.insert((action_id@, generation)));
        }
        true
    }
}

/// A capability that the media worker granted.
pub struct CapabilityReady {
    pub lease_id: String,
    pub source_session_id: String,
    pub media_generation: u64,
}

/// How a lease of the media capability is named.
pub open spec fn lease_name(call: Seq<char>, collector: Seq<char>) -> Seq<char> {
    "dtmf-collector-"@ + call + "-"@ + collector
}

pub fn lease_id(call_id: &str, collector_id: &str) -> (id: String)
    ensures
        id@ == lease_name(call_id@, collector_id@),
{
    join4("dtmf-collector-", call_id, "-", collector_id)
}

/// The capability that a collector needs: to watch the digits of its session, or to
/// have them to itself.
pub fn lease_request(call_id: &str, spec: &DigitCollectionSpec, media_generation: u64) -> (request:
    DtmfCapabilityLeaseRequest)
    ensures
        request.lease_id@ == lease_name(call_id@, spec.collector_id@),
        request.owner == spec.owner,
        request.source_session_id == spec.source_session_id,
        request.mode == (match spec.mode {
            DigitCollectionMode::Observe => DtmfMediaMode::Observe,
            DigitCollectionMode::Collect => DtmfMediaMode::Collect,
        }),
        request.requested_generation == media_generation,
{
    DtmfCapabilityLeaseRequest {
        lease_id: lease_id(call_id, spec.collector_id.as_str()),
        owner: spec.owner.clone(),
        source_session_id: spec.source_session_id.clone(),
        mode: match spec.mode {
            DigitCollectionMode::Observe => DtmfMediaMode::Observe,
            DigitCollectionMode::Collect => DtmfMediaMode::Collect,
        },
        requested_generation: media_generation,
    }
}

/// What the media worker reports.
pub enum MediaActionResult {
    SdpPrepared { generation: u64, purpose: PrepareSdpPurpose, prepared: Option<SdpBody> },
    AnswerMediaStarted { generation: u64, recording_error: Option<String> },
    DtmfCapabilityAcquired {
        generation: u64,
        collector_id: String,
        result: Result<CapabilityReady, String>,
    },
    DtmfCapabilityReleased { generation: u64, collector_id: String, failure: Option<String> },
}

/// What the registrar reports of the session of an attempt.
pub struct AttemptRegistrationResult {
    pub attempt_seq: u16,
    pub session_id: String,
    pub registered: bool,
}

/// A message for the owner of a call. A leg event comes with the payload types of
/// its session description.
pub enum ControlMessage {
    LegEvent { frame_type: String, event: CallLegEvent, payload_types: Vec<u8> },
    PeerLegEvent { frame_type: String, event: CallLegEvent, payload_types: Vec<u8> },
    ActionDeliveryFailed(ActionDeliveryFailed),
    PeerActionFailed(ActionDeliveryFailed),
    CallActionAck(CallActionAck),
    MediaActionResult(MediaActionResult),
    MediaDtmfObserved(DigitEvent),
    SipDtmfReceived(DigitEvent),
    PeerDigitEvent(DigitEvent),
    DtmfInfoSendResult(DtmfInfoSendResult),
    AttemptRegistrationResult(AttemptRegistrationResult),
    CoordinatorHandoff,
    CallFinalized,
    Shutdown,
}

/// Through which mailbox a message came.
#[derive(Debug, Clone, Copy, PartialEq, Eq, Structural)]
pub enum ControlSource {
    OwnedLeg,
    Coordinator,
}

/// What does not change while the owner runs.
pub struct CallPlan {
    pub call_id: String,
    pub domain_id: String,
    /// Of each candidate, whether a call to it is recorded.
    pub recorded: Vec<bool>,
    /// The session that owns the call, and the generation of its own actions.
    pub owner: SessionRef,
    pub owned_action_generation: u64,
}

impl CallPlan {
    pub open spec fn name(self, session: SessionRef) -> Seq<char> {
        session_name(self.call_id@, session)
    }

    pub open spec fn records(self, candidate: usize) -> bool {
        candidate < self.recorded@.len() && self.recorded@[candidate as int]
    }

    fn is_recorded(&self, candidate: usize) -> (recorded: bool)
        ensures
            recorded == self.records(candidate),
    {
        candidate < self.recorded.len() && self.recorded[candidate]
    }
}

#[verifier::ext_equal]
pub struct ActorState {
    pub core: CallCore,
    pub deduper: DeduperState,
    pub completed: Set<(Seq<char>, u64)>,
    pub owned_completed: Set<(Seq<char>, u64)>,
    pub source: SourceState,
    pub router: DtmfRouterStats,
    pub collection: CollectionState,
    pub ai_capture: bool,
}

/// A step of the owner.
pub type ActorStep = (ActorState, OutboxState, Result<(), CallError>);

/// Which of the two current sessions a leg event is about.
pub open spec fn session_of(p: CallPlan, callee: SessionRef, named: Option<Seq<char>>) -> Option<
    SessionRef,
> {
    if named == Some(p.name(SessionRef::Caller)) {
        Some(SessionRef::Caller)
    } else if named == Some(p.name(callee)) {
        Some(callee)
    } else {
        None
    }
}

/// Whether any collector keeps a digit for itself.
pub open spec fn digit_consumed(c: CollectionState, event: DigitEvent, now: u64) -> bool {
    exists|i: int|
        0 <= i < c.collectors.len() && consumes(
            (#[trigger] c.collectors[i]).digit_applied(
                event.source_session_id@,
                event.digit,
                now,
            ).1,
        )
}

pub open spec fn info_sent(stats: DtmfRouterStats, succeeded: bool) -> DtmfRouterStats {
    if succeeded {
        DtmfRouterStats { info_send_succeeded: one_more(stats.info_send_succeeded), ..stats }
    } else {
        DtmfRouterStats { info_send_failed: one_more(stats.info_send_failed), ..stats }
    }
}

/// The action that hands a digit on to the other side.
pub open spec fn digit_action(
    core: CallCore,
    event: DigitEvent,
    target: SessionRef,
    dialog_generation: u64,
    cseq: u32,
) -> CallAction {
    core.action(
        SessionRef::Caller,
        ActionKind::SendDtmfInfo,
        ActionLabel::DtmfInfo { dialog_generation, cseq },
        ActionBody::Digit {
            target,
            digit: event.digit,
            duration_ms: event.duration_ms,
            relay: event.transport is SipInfoRelay,
        },
    )
}

impl ActorState {
    /// The owner of a call that begins.
    pub open spec fn fresh(core: CallCore, deduper: DeduperState, source: SourceState) -> Self {
        ActorState {
            core,
            deduper,
            completed: Set::empty(),
            owned_completed: Set::empty(),
            source,
            router: DtmfRouterStats {
                forwarded: 0,
                consumed: 0,
                ignored: 0,
                info_send_succeeded: 0,
                info_send_failed: 0,
            },
            collection: CollectionState {
                collectors: Seq::empty(),
                timer_generation: 0,
                timer: None,
                replies: Seq::empty(),
            },
            ai_capture: false,
        }
    }

    pub open spec fn wf(self) -> bool {
        self.core.wf() && self.deduper.wf() && self.collection.wf() && self.source.wf()
    }

    pub open spec fn with_core(self, step: Step<()>) -> ActorStep {
        (ActorState { core: step.0, ..self }, step.1, step.2)
    }

    /// A leg event counts where it is of this call and newer than the last one of
    /// its leg.
    pub open spec fn leg_event_counts(self, p: CallPlan, event: CallLegEvent) -> bool {
        &&& event.call_id is None || opt_text(event.call_id) == Some(p.call_id@)
        &&& self.deduper.is_new(event.adapter_call_leg_id@, event.leg_event_seq)
    }

    #[verifier::opaque]
    pub open spec fn caller_leg(
        self,
        p: CallPlan,
        o: OutboxState,
        frame: Seq<char>,
        event: CallLegEvent,
        now: u64,
    ) -> ActorStep {
        if !self.leg_event_counts(p, event) {
            (self, o, Ok(()))
        } else {
            let s = ActorState {
                deduper: self.deduper.taken(event.adapter_call_leg_id@, event.leg_event_seq),
                ..self
            };
            if frame == "InboundInviteCancelled"@ {
                s.with_core(s.core.caller_cancelled(o, now))
            } else if frame == "DialogDisconnected"@ {
                s.with_core(
                    s.core.disconnected(
                        o,
                        session_of(p, s.core.callee(), opt_text(event.session_id)),
                        event.status_code,
                        now,
                    ),
                )
            } else {
                (s, o, Ok(()))
            }
        }
    }

    #[verifier::opaque]
    pub open spec fn peer_leg(
        self,
        p: CallPlan,
        o: OutboxState,
        frame: Seq<char>,
        event: CallLegEvent,
        payload_types: Vec<u8>,
        now: u64,
    ) -> ActorStep {
        if opt_text(event.session_id) != Some(p.name(self.core.callee())) {
            (self, o, Ok(()))
        } else if frame == "OutboundProvisional"@ {
            if self.core.retry_after_cleanup is Some {
                (self, o, Ok(()))
            } else {
                self.with_core(self.core.provisional(o, event.status_code, event.sdp, now))
            }
        } else if frame == "DialogDisconnected"@ {
            if self.core.answer_in_progress && !self.core.terminating() {
                (
                    ActorState {
                        core: CallCore {
                            deferred_callee_disconnect: Some(
                                DeferredDisconnect {
                                    attempt_seq: self.core.current_attempt_seq,
                                    status_code: event.status_code,
                                },
                            ),
                            ..self.core
                        },
                        ..self
                    },
                    o,
                    Ok(()),
                )
            } else {
                self.with_core(
                    self.core.disconnected(o, Some(self.core.callee()), event.status_code, now),
                )
            }
        } else if frame == "OutboundAnswered"@ {
            self.with_core(self.core.callee_answered(o, event.sdp, payload_types, now))
        } else if frame == "OutboundFailed"@ {
            self.with_core(self.core.callee_failed(o, true, event.status_code, now))
        } else {
            (self, o, Ok(()))
        }
    }

    /// Whether the result of an action of the caller is of now.
    pub open spec fn result_is_current(self, p: CallPlan, identity: ActionIdentity) -> bool {
        identity.call_id@ == p.call_id@ && identity.session_id@ == p.name(SessionRef::Caller)
            && identity.generation == self.core.action_generation
    }

    pub open spec fn result_counts(self, p: CallPlan, identity: ActionIdentity) -> bool {
        self.result_is_current(p, identity) && !self.completed.contains(
            (identity.action_id@, identity.generation),
        )
    }

    pub open spec fn result_taken(self, identity: ActionIdentity) -> Self {
        ActorState {
            completed: self.completed.insert((identity.action_id@, identity.generation)),
            ..self
        }
    }

    #[verifier::opaque]
    pub open spec fn action_failure(
        self,
        p: CallPlan,
        o: OutboxState,
        identity: ActionIdentity,
        peer: bool,
        now: u64,
    ) -> ActorStep {
        if !peer && !self.result_counts(p, identity) {
            (self, o, Ok(()))
        } else {
            let s = if peer {
                self
            } else {
                self.result_taken(identity)
            };
            if identity.action_kind@ == "SendDtmfInfo"@ {
                (
                    ActorState { router: info_sent(s.router, false), ..s },
                    o.with(CallEffect::PublishView),
                    Ok(()),
                )
            } else {
                s.with_core(
                    s.core.action_failed(
                        o,
                        begins_with(identity.action_kind@, "Originate"@),
                        peer,
                        now,
                    ),
                )
            }
        }
    }

    /// Whether an acknowledgement completes the answer.
    pub open spec fn completes_answer(self, p: CallPlan, ack: CallActionAck) -> bool {
        &&& ack.counts_as_accepted()
        &&& self.result_counts(p, ack.names())
        &&& ack.names().action_kind@ == "AnswerInboundInvite"@
        &&& ack.names().action_id@ == action_name(ActionLabel::Answer, p.call_id@)
        &&& self.core.pending_answer is Some
        &&& !self.core.terminating()
    }

    #[verifier::opaque]
    pub open spec fn action_acked(
        self,
        p: CallPlan,
        o: OutboxState,
        ack: CallActionAck,
        now_ms: u64,
        now: u64,
    ) -> ActorStep {
        let identity = ack.names();
        if ack.counts_as_accepted() {
            if !self.result_counts(p, identity) {
                (self, o, Ok(()))
            } else if identity.action_kind@ == "AnswerInboundInvite"@ {
                let s = self.result_taken(identity);
                s.with_core(
                    s.core.answer_confirmed(
                        o,
                        identity.action_id@ == action_name(ActionLabel::Answer, p.call_id@),
                        p.records(s.core.current_candidate),
                        s.ai_capture,
                        now_ms,
                        now,
                    ),
                )
            } else {
                (self.result_taken(identity), o, Ok(()))
            }
        } else {
            self.action_failure(p, o, identity, false, now)
        }
    }

    /// The answer to an action of the owner's own leg, where that is not the
    /// caller's.
    #[verifier::opaque]
    pub open spec fn owned_leg_acked(
        self,
        p: CallPlan,
        o: OutboxState,
        ack: CallActionAck,
        now: u64,
    ) -> ActorStep {
        let identity = ack.names();
        let key = (identity.action_id@, identity.generation);
        if identity.call_id@ != p.call_id@ || identity.session_id@ != p.name(p.owner)
            || identity.generation != p.owned_action_generation || self.owned_completed.contains(
            key,
        ) {
            (self, o, Ok(()))
        } else {
            let s = ActorState { owned_completed: self.owned_completed.insert(key), ..self };
            if ack.counts_as_accepted() {
                (s, o, Ok(()))
            } else {
                s.action_failure(p, o, identity, true, now)
            }
        }
    }

    /// A digit goes to the collectors first; what none of them keeps goes to the
    /// other side.
    #[verifier::opaque]
    pub open spec fn digit_routed(self, p: CallPlan, o: OutboxState, event: DigitEvent, now: u64) -> ActorStep {
        let (collection, o1) = self.collection.digit_taken(
            o,
            event.source_session_id@,
            event.digit,
            now,
            self.core.media_generation,
        );
        let s = ActorState { collection, ..self };
        if digit_consumed(self.collection, event, now) {
            (
                ActorState {
                    router: DtmfRouterStats {
                        consumed: one_more(s.router.consumed),
                        ..s.router
                    },
                    ..s
                },
                o1.with(CallEffect::PublishView),
                Ok(()),
            )
        } else {
            let callee = self.core.callee();
            match disposition(
                event.source_session_id@,
                p.name(SessionRef::Caller),
                Some(p.name(callee)),
                !self.core.terminating(),
            ) {
                Disposition::Ignore(_) => (
                    ActorState {
                        router: DtmfRouterStats { ignored: one_more(s.router.ignored), ..s.router },
                        ..s
                    },
                    o1,
                    Ok(()),
                ),
                Disposition::Forward(_) => {
                    let t = ActorState {
                        router: DtmfRouterStats {
                            forwarded: one_more(s.router.forwarded),
                            ..s.router
                        },
                        ..s
                    };
                    let target = if event.source_session_id@ == p.name(SessionRef::Caller) {
                        callee
                    } else {
                        SessionRef::Caller
                    };
                    match (event.transport, event.event_id) {
                        (
                            DtmfTransport::Rfc4733,
                            _,
                        ) => (t, o1, Ok(())),
                        (_, DtmfEventId::SipInfo { dialog_generation, cseq, .. }) => {
                            let (o2, r) = o1.submitted(
                                digit_action(t.core, event, target, dialog_generation, cseq),
                            );
                            (t, o2, r)
                        },
                        _ => (t, o1, Ok(())),
                    }
                },
            }
        }
    }

    #[verifier::opaque]
    pub open spec fn source_digit(self, p: CallPlan, o: OutboxState, event: DigitEvent, now: u64) -> ActorStep {
        if !from_source(event, p.domain_id@, p.call_id@, p.name(p.owner)) {
            (self, o, Ok(()))
        } else {
            let s = ActorState { source: self.source.after(event), ..self };
            if self.source.decision(event) == DtmfSourceDecision::Accepted {
                s.digit_routed(p, o, event, now)
            } else {
                (s, o, Ok(()))
            }
        }
    }

    #[verifier::opaque]
    pub open spec fn peer_digit(self, p: CallPlan, o: OutboxState, event: DigitEvent, now: u64) -> ActorStep {
        if event.domain_id@ != p.domain_id@ || event.call_id@ != p.call_id@ {
            (self, o, Ok(()))
        } else {
            self.digit_routed(p, o, event, now)
        }
    }

    #[verifier::opaque]
    pub open spec fn info_result(self, p: CallPlan, o: OutboxState, result: DtmfInfoSendResult) -> ActorStep {
        if result.call_id@ != p.call_id@ || result.session_id@ != p.name(SessionRef::Caller)
            || result.generation != self.core.action_generation {
            (self, o, Ok(()))
        } else {
            (
                ActorState { router: info_sent(self.router, result.succeeded), ..self },
                o.with(CallEffect::PublishView),
                Ok(()),
            )
        }
    }

    /// Whether a granted capability is the one that a collector asked for.
    pub open spec fn capability_matches(
        self,
        p: CallPlan,
        collector: Seq<char>,
        ready: CapabilityReady,
    ) -> bool {
        &&& ready.lease_id@ == lease_name(p.call_id@, collector)
        &&& index_of(self.collection.collectors, collector) matches Some(i)
            && self.collection.collectors[i].spec.source_session_id@ == ready.source_session_id@
    }

    #[verifier::opaque]
    pub open spec fn media_result(
        self,
        p: CallPlan,
        o: OutboxState,
        result: MediaActionResult,
        now_ms: u64,
        now: u64,
    ) -> ActorStep {
        match result {
            MediaActionResult::SdpPrepared { generation, purpose, prepared } => self.with_core(
                self.core.sdp_prepared(o, generation, purpose, prepared, now),
            ),
            MediaActionResult::AnswerMediaStarted { generation, recording_error } => self.with_core(
                self.core.answer_media_started(o, generation, recording_error, now_ms),
            ),
            MediaActionResult::DtmfCapabilityAcquired { generation, collector_id, result } => {
                if generation != self.core.media_generation || self.core.terminating() {
                    (self, o, Ok(()))
                } else {
                    let (collection, o1) = match result {
                        Ok(ready) => self.collection.acquired(
                            o,
                            collector_id@,
                            self.capability_matches(p, collector_id@, ready),
                            ready.media_generation,
                            self.core.media_generation,
                            now,
                        ),
                        Err(error) => self.collection.refused(o, collector_id@, error@),
                    };
                    (ActorState { collection, ..self }, o1, Ok(()))
                }
            },
            MediaActionResult::DtmfCapabilityReleased { generation, collector_id, failure } => {
                if generation != self.core.media_generation {
                    (self, o, Ok(()))
                } else {
                    let (collection, o1) = self.collection.released(
                        o,
                        collector_id@,
                        opt_text(failure),
                    );
                    (ActorState { collection, ..self }, o1, Ok(()))
                }
            },
        }
    }

    #[verifier::opaque]
    pub open spec fn registration(
        self,
        p: CallPlan,
        o: OutboxState,
        result: AttemptRegistrationResult,
        now: u64,
    ) -> ActorStep {
        let attempt = SessionRef::CalleeAttempt(result.attempt_seq);
        let session = if result.session_id@ == p.name(attempt) {
            Some(attempt)
        } else {
            None
        };
        if result.registered {
            self.with_core(self.core.attempt_registered(o, result.attempt_seq, session, now))
        } else {
            self.with_core(self.core.attempt_rejected(o, result.attempt_seq, session, now))
        }
    }

    /// What a message does, before the call is looked at as a whole.
    pub open spec fn message_handled(
        self,
        p: CallPlan,
        o: OutboxState,
        message: ControlMessage,
        source: ControlSource,
        now_ms: u64,
        now: u64,
    ) -> ActorStep {
        let owns_other_leg = source is OwnedLeg && !(p.owner is Caller);
        match message {
            ControlMessage::LegEvent { frame_type, event, payload_types } => if p.owner is Caller {
                self.caller_leg(p, o, frame_type@, event, now)
            } else {
                self.peer_leg(p, o, frame_type@, event, payload_types, now)
            },
            ControlMessage::PeerLegEvent { frame_type, event, payload_types } => self.peer_leg(
                p,
                o,
                frame_type@,
                event,
                payload_types,
                now,
            ),
            ControlMessage::ActionDeliveryFailed(failure) => self.action_failure(
                p,
                o,
                failure.identity,
                owns_other_leg,
                now,
            ),
            ControlMessage::PeerActionFailed(failure) => self.action_failure(
                p,
                o,
                failure.identity,
                true,
                now,
            ),
            ControlMessage::CallActionAck(ack) => if owns_other_leg {
                self.owned_leg_acked(p, o, ack, now)
            } else {
                self.action_acked(p, o, ack, now_ms, now)
            },
            ControlMessage::MediaActionResult(result) => self.media_result(
                p,
                o,
                result,
                now_ms,
                now,
            ),
            ControlMessage::MediaDtmfObserved(event) => self.source_digit(p, o, event, now),
            ControlMessage::SipDtmfReceived(event) => self.source_digit(p, o, event, now),
            ControlMessage::PeerDigitEvent(event) => self.peer_digit(p, o, event, now),
            ControlMessage::DtmfInfoSendResult(result) => self.info_result(p, o, result),
            ControlMessage::AttemptRegistrationResult(result) => self.registration(
                p,
                o,
                result,
                now,
            ),
            ControlMessage::CoordinatorHandoff => (self, o, Ok(())),
            ControlMessage::CallFinalized => (self, o, Ok(())),
            ControlMessage::Shutdown => (self, o, Ok(())),
        }
    }

    /// With the end of the call every collection ends. The releases carry the
    /// media generation at which the call began to end. Behind them the topology is
    /// released, and the record is due.
    #[verifier::opaque]
    pub open spec fn settled(self, ending_before: bool, o: OutboxState) -> (Self, OutboxState) {
        if !ending_before && self.core.finalization_started {
            let (collection, o1) = self.collection.aborted(
                o,
                "call_terminated"@,
                self.core.closing_generation,
            );
            (
                ActorState { collection, ..self },
                o1.with(CallEffect::Topology(TopologyChange::Released)).with(CallEffect::Finish),
            )
        } else {
            (self, o)
        }
    }

    /// After every step: a failure ends the call, and so does the loss of both
    /// legs. Says whether the owner goes on.
    pub open spec fn step_completed(
        self,
        ending_before: bool,
        o: OutboxState,
        result: Result<(), CallError>,
    ) -> (Self, OutboxState, bool) {
        let (core, goes_on) = self.core.processed(result);
        let (s, o1) = ActorState { core, ..self }.settled(ending_before, o);
        (s, o1, goes_on)
    }

    /// What a message does to a call. Once the call is being finalized, only the
    /// end of that counts.
    pub open spec fn controlled(
        self,
        p: CallPlan,
        o: OutboxState,
        message: ControlMessage,
        source: ControlSource,
        now_ms: u64,
        now: u64,
    ) -> (Self, OutboxState, bool) {
        if message is CallFinalized {
            (ActorState { core: CallCore { finalized: true, ..self.core }, ..self }, o, false)
        } else if self.core.finalization_started {
            (self, o, true)
        } else if message is Shutdown {
            let core = self.core.shut_down(p.owner);
            let (s, o1) = ActorState { core, ..self }.settled(false, o);
            (s, o1, true)
        } else {
            let (s, o1, r) = self.message_handled(p, o, message, source, now_ms, now);
            s.step_completed(false, o1, r)
        }
    }
}

pub struct SessionActor {
    pub plan: CallPlan,
    pub core: CallCore,
    pub leg_event_deduper: LegEventDeduper,
    pub completed_actions: ActionLog,
    pub owned_completed_actions: ActionLog,
    pub dtmf_source: DtmfSourceState,
    pub dtmf_router: DtmfRouter,
    pub collection: DigitCollection,
    /// Whether the call is being captured for analysis.
    pub ai_capture: bool,
}

impl SessionActor {
    pub open spec fn view(&self) -> ActorState {
        ActorState {
            core: self.core,
            deduper: self.leg_event_deduper@,
            completed: self.completed_actions@,
            owned_completed: self.owned_completed_actions@,
            source: self.dtmf_source@,
            router: self.dtmf_router.stats,
            collection: self.collection@,
            ai_capture: self.ai_capture,
        }
    }

    pub open spec fn wf(self) -> bool {
        self@.wf()
    }

    /// The owner of a new call.
    pub fn new(
        plan: CallPlan,
        core: CallCore,
        leg_event_deduper: LegEventDeduper,
        dtmf_source: DtmfSourceState,
    ) -> (actor: Self)
        requires
            core.wf(),
            leg_event_deduper@.wf(),
            dtmf_source@.wf(),
        ensures
            actor.wf(),
            actor.plan == plan,
            actor@ == ActorState::fresh(core, leg_event_deduper@, dtmf_source@),
    {
        SessionActor {
            plan,
            core,
            leg_event_deduper,
            completed_actions: ActionLog::new(),
            owned_completed_actions: ActionLog::new(),
            dtmf_source,
            dtmf_router: DtmfRouter {
                stats: DtmfRouterStats {
                    forwarded: 0,
                    consumed: 0,
                    ignored: 0,
                    info_send_succeeded: 0,
                    info_send_failed: 0,
                },
            },
            collection: DigitCollection::new(),
            ai_capture: false,
        }
    }

    fn named(&self, session: SessionRef) -> (name: String)
        ensures
            name@ == self.plan.name(session),
    {
        session_id(self.plan.call_id.as_str(), session)
    }

    pub fn accept_leg_event(&mut self, event: &CallLegEvent) -> (accepted: bool)
        requires
            old(self).wf(),
        ensures
            final(self).wf(),
            final(self).plan == old(self).plan,
            accepted == old(self)@.leg_event_counts(old(self).plan, *event),
            final(self)@ == (if accepted {
                ActorState {
                    deduper: old(self)@.deduper.taken(
                        event.adapter_call_leg_id@,
                        event.leg_event_seq,
                    ),
                    ..old(self)@
                }
            } else {
                old(self)@
            }),
    {
        match &event.call_id {
            Some(call_id) => {
                if !call_id.eq(&self.plan.call_id) {
                    return false;
                }
            },
            None => {},
        }
        self.leg_event_deduper.accept(event.adapter_call_leg_id.as_str(), event.leg_event_seq())
    }

    pub fn handle_caller_leg_event(
        &mut self,
        out: &mut Outbox,
        frame_type: &str,
        event: CallLegEvent,
        now: u64,
    ) -> (result: Result<(), CallError>)
        requires
            old(self).wf(),
        ensures
            final(self).wf(),
            final(self).plan == old(self).plan,
            (final(self)@, final(out)@, result) == old(self)@.caller_leg(
                old(self).plan,
                old(out)@,
                frame_type@,
                event,
                now,
            ),
    {
        proof {
            reveal(ActorState::caller_leg);
        }
        if !self.accept_leg_event(&event) {
            return Ok(());
        }
        if same_text(frame_type, "InboundInviteCancelled") {
            return self.core.handle_cancelled(out, now);
        }
        if same_text(frame_type, "DialogDisconnected") {
            let callee = self.core.callee_session();
            let session = match &event.session_id {
                None => None,
                Some(id) => if id.eq(&self.named(SessionRef::Caller)) {
                    Some(SessionRef::Caller)
                } else if id.eq(&self.named(callee)) {
                    Some(callee)
                } else {
                    None
                },
            };
            return self.core.handle_disconnected(out, session, event.status_code, now);
        }
        Ok(())
    }

    pub fn handle_peer_leg_event(
        &mut self,
        out: &mut Outbox,
        frame_type: &str,
        event: CallLegEvent,
        payload_types: Vec<u8>,
        now: u64,
    ) -> (result: Result<(), CallError>)
        requires
            old(self).wf(),
        ensures
            final(self).wf(),
            final(self).plan == old(self).plan,
            (final(self)@, final(out)@, result) == old(self)@.peer_leg(
                old(self).plan,
                old(out)@,
                frame_type@,
                event,
                payload_types,
                now,
            ),
    {
        proof {
            reveal(ActorState::peer_leg);
            reveal_strlit("OutboundProvisional");
            reveal_strlit("DialogDisconnected");
            reveal_strlit("OutboundAnswered");
            reveal_strlit("OutboundFailed");
        }
        let callee = self.core.callee_session();
        let current = match &event.session_id {
            Some(id) => id.eq(&self.named(callee)),
            None => false,
        };
        if !current {
            return Ok(());
        }
        if same_text(frame_type, "OutboundProvisional") {
            if self.core.retry_after_cleanup.is_some() {
                return Ok(());
            }
            return self.core.handle_provisional(out, event.status_code, event.sdp, now);
        }
        if same_text(frame_type, "DialogDisconnected") {
            if self.core.answer_in_progress && !self.core.is_terminating() {
                self.core.deferred_callee_disconnect = Some(
                    DeferredDisconnect {
                        attempt_seq: self.core.current_attempt_seq,
                        status_code: event.status_code,
                    },
                );
                return Ok(());
            }
            return self.core.handle_disconnected(out, Some(callee), event.status_code, now);
        }
        if same_text(frame_type, "OutboundAnswered") {
            return self.core.handle_answered(out, event.sdp, payload_types, now);
        }
        if same_text(frame_type, "OutboundFailed") {
            return self.core.handle_failed(out, true, event.status_code, now);
        }
        Ok(())
    }

    pub fn accept_action_result(&mut self, identity: &ActionIdentity) -> (accepted: bool)
        requires
            old(self).wf(),
        ensures
            final(self).wf(),
            final(self).plan == old(self).plan,
            accepted == old(self)@.result_counts(old(self).plan, *identity),
            final(self)@ == (if accepted {
                old(self)@.result_taken(*identity)
            } else {
                old(self)@
            }),
    {
        if !identity.call_id.eq(&self.plan.call_id) || !identity.session_id.eq(
            &self.named(SessionRef::Caller),
        ) || identity.generation != self.core.action_generation {
            return false;
        }
        let fresh = self.completed_actions.insert(
            identity.action_id.as_str(),
            identity.generation,
        );
        proof {
            let key = (identity.action_id@, identity.generation);
            if !fresh {
                assert(old(self)@.completed.insert(key) =~= old(self)@.completed);
            }
        }
        fresh
    }

    pub fn handle_action_failure(
        &mut self,
        out: &mut Outbox,
        identity: &ActionIdentity,
        peer_failure: bool,
        now: u64,
    ) -> (result: Result<(), CallError>)
        requires
            old(self).wf(),
        ensures
            final(self).wf(),
            final(self).plan == old(self).plan,
            (final(self)@, final(out)@, result) == old(self)@.action_failure(
                old(self).plan,
                old(out)@,
                *identity,
                peer_failure,
                now,
            ),
    {
        proof {
            reveal(ActorState::action_failure);
        }
        if !peer_failure && !self.accept_action_result(identity) {
            return Ok(());
        }
        if same_text(identity.action_kind.as_str(), "SendDtmfInfo") {
            self.dtmf_router.record_info_send_result(false);
            out.push(CallEffect::PublishView);
            return Ok(());
        }
        let originate = starts_with(identity.action_kind.as_str(), "Originate");
        self.core.handle_action_failure(out, originate, peer_failure, now)
    }

    /// The candidate that answers with this acknowledgement and the payload types of
    /// its answer. Capture for analysis, where it is wanted, begins before the
    /// acknowledgement is handled.
    pub fn answering(&self, ack: &CallActionAck) -> (answer: Option<(usize, &Vec<u8>)>)
        ensures
            match answer {
                Some((candidate, payload_types)) => self@.completes_answer(self.plan, *ack)
                    && candidate == self.core.current_candidate && self.core.pending_answer == Some(
                    *payload_types,
                ),
                None => !self@.completes_answer(self.plan, *ack),
            },
    {
        let identity = ack.identity();
        let expected = action_id(ActionLabel::Answer, self.plan.call_id.as_str());
        if !ack.accepted() || !identity.call_id.eq(&self.plan.call_id) || !identity.session_id.eq(
            &self.named(SessionRef::Caller),
        ) || identity.generation != self.core.action_generation || self.completed_actions.contains(
            identity.action_id.as_str(),
            identity.generation,
        ) || !same_text(identity.action_kind.as_str(), "AnswerInboundInvite")
            || !identity.action_id.eq(&expected) || self.core.is_terminating() {
            return None;
        }
        match &self.core.pending_answer {
            Some(payload_types) => Some((self.core.current_candidate, payload_types)),
            None => None,
        }
    }

    /// Notes whether the call is being captured for analysis.
    pub fn note_ai_capture(&mut self, captured: bool)
        ensures
            final(self).plan == old(self).plan,
            final(self)@ == (ActorState { ai_capture: captured, ..old(self)@ }),
    {
        self.ai_capture = captured;
    }

    pub fn handle_action_ack(&mut self, out: &mut Outbox, ack: &CallActionAck, now_ms: u64, now: u64) -> (result:
        Result<(), CallError>)
        requires
            old(self).wf(),
        ensures
            final(self).wf(),
            final(self).plan == old(self).plan,
            (final(self)@, final(out)@, result) == old(self)@.action_acked(
                old(self).plan,
                old(out)@,
                *ack,
                now_ms,
                now,
            ),
    {
        proof {
            reveal(ActorState::action_acked);
        }
        let identity = ack.identity();
        if !ack.accepted() {
            return self.handle_action_failure(out, &identity, false, now);
        }
        if !self.accept_action_result(&identity) {
            return Ok(());
        }
        if same_text(identity.action_kind.as_str(), "AnswerInboundInvite") {
            let expected = action_id(ActionLabel::Answer, self.plan.call_id.as_str());
            let current = identity.action_id.eq(&expected);
            return self.core.confirm_answer(
                out,
                current,
                self.plan.is_recorded(self.core.current_candidate),
                self.ai_capture,
                now_ms,
                now,
            );
        }
        Ok(())
    }

    pub fn handle_owned_leg_action_ack(&mut self, out: &mut Outbox, ack: &CallActionAck, now: u64) -> (result:
        Result<(), CallError>)
        requires
            old(self).wf(),
        ensures
            final(self).wf(),
            final(self).plan == old(self).plan,
            (final(self)@, final(out)@, result) == old(self)@.owned_leg_acked(
                old(self).plan,
                old(out)@,
                *ack,
                now,
            ),
    {
        proof {
            reveal(ActorState::owned_leg_acked);
        }
        let identity = ack.identity();
        let owner = self.plan.owner;
        if !identity.call_id.eq(&self.plan.call_id) || !identity.session_id.eq(&self.named(owner))
            || identity.generation != self.plan.owned_action_generation {
            return Ok(());
        }
        let fresh = self.owned_completed_actions.insert(
            identity.action_id.as_str(),
            identity.generation,
        );
        if !fresh {
            proof {
                let key = (identity.action_id@, identity.generation);
                assert(old(self)@.owned_completed.insert(key) =~= old(self)@.owned_completed);
            }
            return Ok(());
        }
        if ack.accepted() {
            return Ok(());
        }
        self.handle_action_failure(out, &identity, true, now)
    }

    pub fn route_digit(&mut self, out: &mut Outbox, event: &DigitEvent, now: u64) -> (result: Result<
        (),
        CallError,
    >)
        requires
            old(self).wf(),
        ensures
            final(self).wf(),
            final(self).plan == old(self).plan,
            (final(self)@, final(out)@, result) == old(self)@.digit_routed(
                old(self).plan,
                old(out)@,
                *event,
                now,
            ),
    {
        proof {
            reveal(ActorState::digit_routed);
        }
        let generation: u64 = self.core.media_generation;
        if self.collection.collect_digit(out, event, now, generation) {
            assert(digit_consumed(old(self)@.collection, *event, now));
            self.dtmf_router.record_consumed();
            out.push(CallEffect::PublishView);
            return Ok(());
        }
        assert(!digit_consumed(old(self)@.collection, *event, now));
        let callee = self.core.callee_session();
        let caller_name = self.named(SessionRef::Caller);
        let callee_name = self.named(callee);
        let routable = !self.core.is_terminating();
        match self.dtmf_router.route(
            event,
            caller_name.as_str(),
            Some(callee_name.as_str()),
            routable,
        ) {
            DtmfDisposition::Ignore { .. } => Ok(()),
            DtmfDisposition::Forward { .. } => {
                match event.transport {
                    DtmfTransport::Rfc4733 => return Ok(()),
                    DtmfTransport::SipInfoRelay | DtmfTransport::SipInfoDtmf => {},
                }
                match &event.event_id {
                    DtmfEventId::SipInfo { dialog_generation, cseq, .. } => {
                        let target = if event.source_session_id.eq(&caller_name) {
                            callee
                        } else {
                            SessionRef::Caller
                        };
                        let relay = match event.transport {
                            DtmfTransport::SipInfoRelay => true,
                            _ => false,
                        };
                        out.submit(
                            CallAction {
                                session: SessionRef::Caller,
                                kind: ActionKind::SendDtmfInfo,
                                label: ActionLabel::DtmfInfo {
                                    dialog_generation: *dialog_generation,
                                    cseq: *cseq,
                                },
                                generation: self.core.action_generation,
                                body: ActionBody::Digit {
                                    target,
                                    digit: event.digit,
                                    duration_ms: event.duration_ms,
                                    relay,
                                },
                            },
                        )
                    },
                    _ => Ok(()),
                }
            },
        }
    }

    pub fn handle_source_digit(&mut self, out: &mut Outbox, event: &DigitEvent, now: u64) -> (result:
        Result<(), CallError>)
        requires
            old(self).wf(),
        ensures
            final(self).wf(),
            final(self).plan == old(self).plan,
            (final(self)@, final(out)@, result) == old(self)@.source_digit(
                old(self).plan,
                old(out)@,
                *event,
                now,
            ),
    {
        proof {
            reveal(ActorState::source_digit);
        }
        let owner = self.plan.owner;
        let owner_name = self.named(owner);
        if !valid_source_event(
            event,
            self.plan.domain_id.as_str(),
            self.plan.call_id.as_str(),
            owner_name.as_str(),
        ) {
            return Ok(());
        }
        match self.dtmf_source.accept(event) {
            DtmfSourceDecision::Accepted => self.route_digit(out, event, now),
            _ => Ok(()),
        }
    }

    pub fn handle_peer_digit(&mut self, out: &mut Outbox, event: &DigitEvent, now: u64) -> (result:
        Result<(), CallError>)
        requires
            old(self).wf(),
        ensures
            final(self).wf(),
            final(self).plan == old(self).plan,
            (final(self)@, final(out)@, result) == old(self)@.peer_digit(
                old(self).plan,
                old(out)@,
                *event,
                now,
            ),
    {
        proof {
            reveal(ActorState::peer_digit);
        }
        if !event.domain_id.eq(&self.plan.domain_id) || !event.call_id.eq(&self.plan.call_id) {
            return Ok(());
        }
        self.route_digit(out, event, now)
    }

    pub fn handle_dtmf_info_send_result(&mut self, out: &mut Outbox, result: &DtmfInfoSendResult) -> (done:
        Result<(), CallError>)
        requires
            old(self).wf(),
        ensures
            final(self).wf(),
            final(self).plan == old(self).plan,
            (final(self)@, final(out)@, done) == old(self)@.info_result(
                old(self).plan,
                old(out)@,
                *result,
            ),
    {
        proof {
            reveal(ActorState::info_result);
        }
        if !result.call_id.eq(&self.plan.call_id) || !result.session_id.eq(
            &self.named(SessionRef::Caller),
        ) || result.generation != self.core.action_generation {
            return Ok(());
        }
        self.dtmf_router.record_info_send_result(result.succeeded);
        out.push(CallEffect::PublishView);
        Ok(())
    }

    fn capability_fits(&self, collector_id: &str, ready: &CapabilityReady) -> (fits: bool)
        ensures
            fits == self@.capability_matches(self.plan, collector_id@, *ready),
    {
        let expected = lease_id(self.plan.call_id.as_str(), collector_id);
        if !ready.lease_id.eq(&expected) {
            return false;
        }
        let ghost list = self@.collection.collectors;
        proof {
            lemma_index(list, collector_id@);
        }
        let mut i: usize = 0;
        while i < self.collection.collectors.len()
            invariant
                i <= self.collection.collectors.len(),
                list == self@.collection.collectors,
                ready.lease_id@ == lease_name(self.plan.call_id@, collector_id@),
                forall|k: int| 0 <= k < i ==> (#[trigger] list[k]).id() != collector_id@,
            decreases self.collection.collectors.len() - i,
        {
            assert(list[i as int] == self.collection.collectors@[i as int]@);
            if same_text(self.collection.collectors[i].spec.collector_id.as_str(), collector_id) {
                proof {
                    lemma_index(list, collector_id@);
                    assert(index_of(list, collector_id@) == Some(i as int));
                }
                return self.collection.collectors[i].spec.source_session_id.eq(
                    &ready.source_session_id,
                );
            }
            i = i + 1;
        }
        false
    }

    pub fn handle_media_action_result(
        &mut self,
        out: &mut Outbox,
        result: MediaActionResult,
        now_ms: u64,
        now: u64,
    ) -> (done: Result<(), CallError>)
        requires
            old(self).wf(),
        ensures
            final(self).wf(),
            final(self).plan == old(self).plan,
            (final(self)@, final(out)@, done) == old(self)@.media_result(
                old(self).plan,
                old(out)@,
                result,
                now_ms,
                now,
            ),
    {
        proof {
            reveal(ActorState::media_result);
        }
        match result {
            MediaActionResult::SdpPrepared { generation, purpose, prepared } => {
                self.core.handle_sdp_prepared(out, generation, purpose, prepared, now)
            },
            MediaActionResult::AnswerMediaStarted { generation, recording_error } => {
                self.core.handle_answer_media_started(out, generation, recording_error, now_ms)
            },
            MediaActionResult::DtmfCapabilityAcquired { generation, collector_id, result } => {
                if generation != self.core.media_generation || self.core.is_terminating() {
                    return Ok(());
                }
                let current: u64 = self.core.media_generation;
                match result {
                    Ok(ready) => {
                        let matching = self.capability_fits(collector_id.as_str(), &ready);
                        self.collection.handle_dtmf_capability_acquired(
                            out,
                            collector_id.as_str(),
                            matching,
                            ready.media_generation,
                            current,
                            now,
                        );
                    },
                    Err(error) => {
                        self.collection.handle_dtmf_capability_refused(
                            out,
                            collector_id.as_str(),
                            error.as_str(),
                        );
                    },
                }
                Ok(())
            },
            MediaActionResult::DtmfCapabilityReleased { generation, collector_id, failure } => {
                if generation != self.core.media_generation {
                    return Ok(());
                }
                self.collection.handle_dtmf_capability_released(
                    out,
                    collector_id.as_str(),
                    failure,
                );
                Ok(())
            },
        }
    }

    pub fn handle_attempt_registration_result(
        &mut self,
        out: &mut Outbox,
        result: &AttemptRegistrationResult,
        now: u64,
    ) -> (done: Result<(), CallError>)
        requires
            old(self).wf(),
        ensures
            final(self).wf(),
            final(self).plan == old(self).plan,
            (final(self)@, final(out)@, done) == old(self)@.registration(
                old(self).plan,
                old(out)@,
                *result,
                now,
            ),
    {
        proof {
            reveal(ActorState::registration);
        }
        let attempt = SessionRef::CalleeAttempt(result.attempt_seq);
        let session = if result.session_id.eq(&self.named(attempt)) {
            Some(attempt)
        } else {
            None
        };
        if result.registered {
            self.core.handle_attempt_registered(out, result.attempt_seq, session, now)
        } else {
            self.core.handle_attempt_rejected(out, result.attempt_seq, session, now)
        }
    }

    pub(crate) fn settle(&mut self, out: &mut Outbox, ending_before: bool)
        requires
            old(self).wf(),
        ensures
            final(self).wf(),
            final(self).plan == old(self).plan,
            (final(self)@, final(out)@) == old(self)@.settled(ending_before, old(out)@),
    {
        proof {
            reveal(ActorState::settled);
        }
        if !ending_before && self.core.finalization_started {
            let generation: u64 = self.core.closing_generation;
            self.collection.abort_digit_collection(out, "call_terminated", generation);
            out.push(CallEffect::Topology(TopologyChange::Released));
            out.push(CallEffect::Finish);
        }
    }

    /// Looks at the call as a whole after a step.
    pub fn complete_step(
        &mut self,
        out: &mut Outbox,
        ending_before: bool,
        result: Result<(), CallError>,
    ) -> (goes_on: bool)
        requires
            old(self).wf(),
        ensures
            final(self).wf(),
            final(self).plan == old(self).plan,
            (final(self)@, final(out)@, goes_on) == old(self)@.step_completed(
                ending_before,
                old(out)@,
                result,
            ),
    {
        let goes_on = self.core.complete_processing(result);
        self.settle(out, ending_before);
        goes_on
    }

    pub fn start(&mut self, out: &mut Outbox, callee_offer: SdpBody, now: u64)
        requires
            old(self).wf(),
        ensures
            final(self).wf(),
            final(self).plan == old(self).plan,
            ({
                let (core, o) = old(self)@.core.begun(old(out)@, callee_offer, now);
                (final(self)@, final(out)@) == (ActorState { core, ..old(self)@ }).settled(
                    old(self)@.core.finalization_started,
                    o,
                )
            }),
    {
        let ending_before = self.core.finalization_started;
        self.core.start(out, callee_offer, now);
        self.settle(out, ending_before);
    }

    fn handle_message(
        &mut self,
        out: &mut Outbox,
        message: ControlMessage,
        source: ControlSource,
        now_ms: u64,
        now: u64,
    ) -> (result: Result<(), CallError>)
        requires
            old(self).wf(),
        ensures
            final(self).wf(),
            final(self).plan == old(self).plan,
            (final(self)@, final(out)@, result) == old(self)@.message_handled(
                old(self).plan,
                old(out)@,
                message,
                source,
                now_ms,
                now,
            ),
    {
        let owned_by_caller = self.plan.owner == SessionRef::Caller;
        let owns_other_leg = source == ControlSource::OwnedLeg && !owned_by_caller;
        match message {
            ControlMessage::LegEvent { frame_type, event, payload_types } => {
                if owned_by_caller {
                    self.handle_caller_leg_event(out, frame_type.as_str(), event, now)
                } else {
                    self.handle_peer_leg_event(out, frame_type.as_str(), event, payload_types, now)
                }
            },
            ControlMessage::PeerLegEvent { frame_type, event, payload_types } => {
                self.handle_peer_leg_event(out, frame_type.as_str(), event, payload_types, now)
            },
            ControlMessage::ActionDeliveryFailed(failure) => {
                self.handle_action_failure(out, &failure.identity, owns_other_leg, now)
            },
            ControlMessage::PeerActionFailed(failure) => {
                self.handle_action_failure(out, &failure.identity, true, now)
            },
            ControlMessage::CallActionAck(ack) => {
                if owns_other_leg {
                    self.handle_owned_leg_action_ack(out, &ack, now)
                } else {
                    self.handle_action_ack(out, &ack, now_ms, now)
                }
            },
            ControlMessage::MediaActionResult(result) => {
                self.handle_media_action_result(out, result, now_ms, now)
            },
            ControlMessage::MediaDtmfObserved(event) => self.handle_source_digit(out, &event, now),
            ControlMessage::SipDtmfReceived(event) => self.handle_source_digit(out, &event, now),
            ControlMessage::PeerDigitEvent(event) => self.handle_peer_digit(out, &event, now),
            ControlMessage::DtmfInfoSendResult(result) => {
                self.handle_dtmf_info_send_result(out, &result)
            },
            ControlMessage::AttemptRegistrationResult(result) => {
                self.handle_attempt_registration_result(out, &result, now)
            },
            ControlMessage::CoordinatorHandoff => Ok(()),
            ControlMessage::CallFinalized => Ok(()),
            ControlMessage::Shutdown => Ok(()),
        }
    }

    /// Takes a message. Says whether the owner goes on.
    pub fn handle_control(
        &mut self,
        out: &mut Outbox,
        message: ControlMessage,
        source: ControlSource,
        now_ms: u64,
        now: u64,
    ) -> (goes_on: bool)
        requires
            old(self).wf(),
        ensures
            final(self).wf(),
            final(self).plan == old(self).plan,
            (final(self)@, final(out)@, goes_on) == old(self)@.controlled(
                old(self).plan,
                old(out)@,
                message,
                source,
                now_ms,
                now,
            ),
    {
        match &message {
            ControlMessage::CallFinalized => {
                self.core.finalized = true;
                return false;
            },
            _ => {},
        }
        if self.core.finalization_started {
            return true;
        }
        match &message {
            ControlMessage::Shutdown => {
                let owner = self.plan.owner;
                self.core.shutdown(owner);
                self.settle(out, false);
                return true;
            },
            _ => {},
        }
        let result = self.handle_message(out, message, source, now_ms, now);
        self.complete_step(out, false, result)
    }

    /// A timer of the call ran out.
    pub fn handle_timer_expiry(
        &mut self,
        out: &mut Outbox,
        kind: CallTimerKind,
        generation: u64,
        now: u64,
    ) -> (goes_on: bool)
        requires
            old(self).wf(),
        ensures
            final(self).wf(),
            final(self).plan == old(self).plan,
            ({
                let (s, o, r) = old(self)@.with_core(
                    old(self)@.core.timer_expired(old(out)@, kind, generation, now),
                );
                (final(self)@, final(out)@, goes_on) == s.step_completed(
                    old(self)@.core.finalization_started,
                    o,
                    r,
                )
            }),
    {
        let ending_before = self.core.finalization_started;
        let result = self.core.handle_timer_expiry(out, kind, generation, now);
        self.complete_step(out, ending_before, result)
    }

    /// The deadline of a collection passed.
    pub fn handle_digit_collector_timeout(
        &mut self,
        out: &mut Outbox,
        generation: u64,
        collector_id: &str,
        deadline: DigitCollectorDeadline,
    ) -> (goes_on: bool)
        requires
            old(self).wf(),
        ensures
            final(self).wf(),
            final(self).plan == old(self).plan,
            ({
                let (collection, o) = old(self)@.collection.timed_out(
                    old(out)@,
                    generation,
                    collector_id@,
                    deadline,
                    old(self)@.core.media_generation,
                );
                (final(self)@, final(out)@, goes_on) == (ActorState {
                    collection,
                    ..old(self)@
                }).step_completed(old(self)@.core.finalization_started, o, Ok(()))
            }),
    {
        let ending_before = self.core.finalization_started;
        let media_generation: u64 = self.core.media_generation;
        self.collection.handle_digit_collector_timeout(
            out,
            generation,
            collector_id,
            deadline,
            media_generation,
        );
        self.complete_step(out, ending_before, Ok(()))
    }

    pub fn start_digit_collection(&mut self, out: &mut Outbox, spec: DigitCollectionSpec)
        requires
            old(self).wf(),
        ensures
            final(self).wf(),
            final(self).plan == old(self).plan,
            ({
                let s = old(self)@;
                let p = old(self).plan;
                let (collection, o) = s.collection.started(
                    old(out)@,
                    spec,
                    s.core.answered() && !s.core.terminating(),
                    session_of(p, s.core.callee(), Some(spec.source_session_id@)) is Some,
                    s.core.media_generation,
                );
                final(self)@ == (ActorState { collection, ..s }) && final(out)@ == o
            }),
    {
        let active = self.core.is_answered() && !self.core.is_terminating();
        let callee = self.core.callee_session();
        let member = spec.source_session_id.eq(&self.named(SessionRef::Caller))
            || spec.source_session_id.eq(&self.named(callee));
        let media_generation: u64 = self.core.media_generation;
        self.collection.start_digit_collection(out, spec, active, member, media_generation);
    }

    pub fn cancel_digit_collection(&mut self, out: &mut Outbox, collector_id: &str) -> (found: bool)
        requires
            old(self).wf(),
        ensures
            final(self).wf(),
            final(self).plan == old(self).plan,
            ({
                let (collection, o, known) = old(self)@.collection.cancelled(
                    old(out)@,
                    collector_id@,
                    old(self)@.core.media_generation,
                );
                &&& final(self)@ == (ActorState { collection, ..old(self)@ })
                &&& final(out)@ == o
                &&& found == known
            }),
    {
        let media_generation: u64 = self.core.media_generation;
        self.collection.cancel_digit_collection(out, collector_id, media_generation)
    }
}

} // verus!
