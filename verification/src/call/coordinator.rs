//! The coordinator of a call: a state machine that takes what happens to the two
//! legs, to timers and to media, and answers with what is to be done.
//!
//! The machine never waits. What it wants done goes, in order, into an [`Outbox`]
//! whose queues may be full or closed; a queue that refuses ends the call.

use crate::call::model::{CallState, HangupCause, SdpBody, SessionRef};
use vstd::prelude::*;

verus! {

#[derive(Debug, Clone, Copy, PartialEq, Eq, Structural)]
pub enum CallTimerKind {
    Dial,
    Ring,
    Cleanup,
}

/// Time limits of a call, in nanoseconds.
#[derive(Debug, Clone, Copy, PartialEq, Eq, Structural)]
pub struct CallTimeouts {
    pub route: u64,
    pub dial: u64,
    pub ring: u64,
    pub cleanup: u64,
    pub route_budget: u64,
    pub min_attempt_window: u64,
}

/// An armed timer.
#[derive(Debug, Clone, Copy, PartialEq, Eq, Structural)]
pub struct CallTimerSlot {
    pub generation: u64,
    pub deadline: u128,
}

/// One timer: how often it was armed or cancelled, and when it expires.
#[derive(Debug, Clone, Copy, PartialEq, Eq)]
pub struct TimerState {
    pub generation: u64,
    pub slot: Option<CallTimerSlot>,
}

impl TimerState {
    /// The generation rises, so that an expiry under way comes too late.
    pub open spec fn cancelled(self) -> Self {
        TimerState { generation: bumped(self.generation), slot: None }
    }

    pub open spec fn started(self, deadline: u128) -> Self {
        TimerState {
            generation: bumped(self.generation),
            slot: Some(CallTimerSlot { generation: bumped(self.generation), deadline }),
        }
    }

    pub open spec fn fired(self) -> Self {
        TimerState { slot: None, ..self }
    }
}

/// The timers of a call.
#[derive(Debug, Clone, Copy, PartialEq, Eq)]
pub struct CallTimers {
    pub dial: TimerState,
    pub ring: TimerState,
    pub cleanup: TimerState,
}

impl CallTimers {
    pub open spec fn of(self, kind: CallTimerKind) -> TimerState {
        match kind {
            CallTimerKind::Dial => self.dial,
            CallTimerKind::Ring => self.ring,
            CallTimerKind::Cleanup => self.cleanup,
        }
    }

    pub open spec fn with(self, kind: CallTimerKind, timer: TimerState) -> Self {
        match kind {
            CallTimerKind::Dial => CallTimers { dial: timer, ..self },
            CallTimerKind::Ring => CallTimers { ring: timer, ..self },
            CallTimerKind::Cleanup => CallTimers { cleanup: timer, ..self },
        }
    }

    pub open spec fn cancelled(self, kind: CallTimerKind) -> Self {
        self.with(kind, self.of(kind).cancelled())
    }

    pub open spec fn started(self, kind: CallTimerKind, deadline: u128) -> Self {
        self.with(kind, self.of(kind).started(deadline))
    }

    pub open spec fn fired(self, kind: CallTimerKind) -> Self {
        self.with(kind, self.of(kind).fired())
    }

    pub open spec fn all_cancelled(self) -> Self {
        CallTimers {
            dial: self.dial.cancelled(),
            ring: self.ring.cancelled(),
            cleanup: self.cleanup.cancelled(),
        }
    }

    fn get(&self, kind: CallTimerKind) -> (timer: TimerState)
        ensures
            timer == self.of(kind),
    {
        match kind {
            CallTimerKind::Dial => self.dial,
            CallTimerKind::Ring => self.ring,
            CallTimerKind::Cleanup => self.cleanup,
        }
    }

    fn set(&mut self, kind: CallTimerKind, timer: TimerState)
        ensures
            *final(self) == old(self).with(kind, timer),
    {
        match kind {
            CallTimerKind::Dial => {
                self.dial = timer;
            },
            CallTimerKind::Ring => {
                self.ring = timer;
            },
            CallTimerKind::Cleanup => {
                self.cleanup = timer;
            },
        }
    }
}

/// What an action is for; together with the call it names the action.
#[derive(Debug, Clone, Copy, PartialEq, Eq, Structural)]
pub enum ActionLabel {
    Adopt,
    Originate { attempt: u16 },
    Provisional { status: u16 },
    Answer,
    Reject,
    Cancel,
    Hangup,
    HangupAfterCancel,
    HangupLateAnswer,
    DialTimeoutCancel,
    DialTimeoutReject,
    RingTimeoutCancel,
    RingTimeoutReject,
    CleanupHangupCaller,
    CleanupHangupCallee,
    RetryCancel { attempt: u16 },
    RetryLateAnswerHangup { attempt: u16 },
    RetryCleanupHangup { attempt: u16 },
    RejectRouteBudget,
    RejectAttemptMedia,
    RejectAttemptOverload,
    RejectAttemptRegistration,
    RejectActionFailure,
    MediaFailureCallee,
    MediaFailureCaller,
    DtmfInfo { dialog_generation: u64, cseq: u32 },
}

/// What the adapter is asked to do. How an `Originate` is sent depends on the
/// candidate.
#[derive(Debug, Clone, Copy, PartialEq, Eq, Structural)]
pub enum ActionKind {
    AdoptInboundInvite,
    Originate,
    ForwardProvisional,
    AnswerInboundInvite,
    RejectInboundInvite,
    CancelOutbound,
    HangupDialog,
    SendDtmfInfo,
}

#[derive(Debug, Clone, Copy, PartialEq, Eq, Structural)]
pub enum CancelReason {
    DialTimeout,
    RingTimeout,
    SequentialHuntRetry,
    CallerCancelled,
}

/// What an action carries.
#[allow(inconsistent_fields)]
pub enum ActionBody {
    Empty,
    Reason(CancelReason),
    Status(u16),
    Provisional { status: u16, sdp: Option<SdpBody> },
    Answer { sdp: SdpBody },
    Originate { candidate: usize, sdp: SdpBody },
    Digit {
        target: SessionRef,
        digit: crate::dtmf::DtmfDigit,
        duration_ms: u32,
        relay: bool,
    },
}

/// An action for one of the two legs.
pub struct CallAction {
    pub session: SessionRef,
    pub kind: ActionKind,
    pub label: ActionLabel,
    pub generation: u64,
    pub body: ActionBody,
}

/// What a prepared session description is for.
#[derive(Debug, Clone)]
pub enum PrepareSdpPurpose {
    Provisional { status_code: u16, start_ring_timer: bool },
    Answer { payload_types: Vec<u8> },
    CalleeAttemptOffer { attempt_seq: u16 },
}

/// Work for the media worker.
pub enum MediaRequest {
    /// Rewrites a description of the callee for the caller.
    PrepareCallerSdp { generation: u64, purpose: PrepareSdpPurpose, sdp: SdpBody },
    /// Rewrites the caller's offer for the next attempt.
    PrepareCalleeOffer { generation: u64, attempt_seq: u16, candidate: usize },
    /// Starts what begins with the answer: recording, where one was asked for,
    /// from the given time, and the fast path.
    StartAnswerMedia {
        generation: u64,
        recording_from_ms: Option<u64>,
        payload_types: Vec<u8>,
        allow_fast_path: bool,
    },
    AcquireDtmf { generation: u64, collector_id: String },
    ReleaseDtmf { generation: u64, collector_id: String },
}

/// A change to the call's topology.
#[derive(Debug, Clone, Copy, PartialEq, Eq, Structural)]
pub enum TopologyChange {
    AttemptFailed { attempt: u16, cause: HangupCause },
    AttemptRegistered { attempt: u16, candidate: usize },
    Answered { attempt: u16, at_ms: u64, media_generation: u64 },
    BridgeActive { generation: u64, at_ms: u64 },
    /// The call is over: its bridges are released, and its legs have left.
    Released,
}

/// Something to be done outside.
pub enum CallEffect {
    Submit(CallAction),
    Media(MediaRequest),
    Topology(TopologyChange),
    RegisterAttempt { attempt: u16, candidate: usize, action_generation: u64 },
    ShutdownAttempt { attempt: u16 },
    FollowAttempt { attempt: u16 },
    PublishView,
    /// The call is over: its record is to be written.
    Finish,
}

/// How many requests wait for the media worker of a call at most.
pub const MEDIA_ACTION_QUEUE_CAPACITY: usize = 16;

/// How many attempts wait to be registered at most.
pub const ATTEMPT_REGISTRATION_CAPACITY: usize = 1024;

/// A bounded queue as its sender sees it.
#[derive(Debug, Clone, Copy, PartialEq, Eq, Structural)]
pub struct LaneState {
    pub room: usize,
    pub open: bool,
}

#[derive(Debug, Clone, Copy, PartialEq, Eq, Structural)]
pub enum CallError {
    AdapterFull,
    AdapterClosed,
    MediaFull,
    MediaClosed,
    RegistrarFull,
    RegistrarClosed,
    BridgeMissing,
    NumberRefused,
    TopologyRefused,
}

impl CallError {
    pub open spec fn says(self) -> Seq<char> {
        match self {
            CallError::AdapterFull => "adapter action queue full"@,
            CallError::AdapterClosed => "adapter runtime writer stopped"@,
            CallError::MediaFull => "media action queue full"@,
            CallError::MediaClosed => "media action executor stopped"@,
            CallError::RegistrarFull => "attempt registration queue full"@,
            CallError::RegistrarClosed => "attempt registration service stopped"@,
            CallError::BridgeMissing => "current bridge missing"@,
            CallError::NumberRefused => "endpoint number refused"@,
            CallError::TopologyRefused => "call topology change refused"@,
        }
    }

    pub fn text(self) -> (text: String)
        ensures
            text@ == self.says(),
    {
        match self {
            CallError::AdapterFull => "adapter action queue full".to_owned(),
            CallError::AdapterClosed => "adapter runtime writer stopped".to_owned(),
            CallError::MediaFull => "media action queue full".to_owned(),
            CallError::MediaClosed => "media action executor stopped".to_owned(),
            CallError::RegistrarFull => "attempt registration queue full".to_owned(),
            CallError::RegistrarClosed => "attempt registration service stopped".to_owned(),
            CallError::BridgeMissing => "current bridge missing".to_owned(),
            CallError::NumberRefused => "endpoint number refused".to_owned(),
            CallError::TopologyRefused => "call topology change refused".to_owned(),
        }
    }
}

/// What the books of the topology say to an answered call: that it is fine, that the
/// attempt cannot have been answered, or that its legs cannot be bridged.
#[derive(Debug, Clone, Copy, PartialEq, Eq, Structural)]
pub enum AnswerRuling {
    Accepted,
    AttemptRefused,
    BridgeRefused,
}

/// Which changes of its topology a call can make in a step. A step that asks for another
/// fails where it does.
#[derive(Debug, Clone, Copy, PartialEq, Eq, Structural)]
pub struct TopologyAnswers {
    pub attempt_failed: bool,
    pub attempt_registered: bool,
    pub answered: AnswerRuling,
    pub bridge_active: bool,
}

impl TopologyAnswers {
    pub open spec fn all(self) -> bool {
        self.attempt_failed && self.attempt_registered && self.answered == AnswerRuling::Accepted
            && self.bridge_active
    }

    pub fn all_accepted() -> (answers: Self)
        ensures
            answers.all(),
    {
        TopologyAnswers {
            attempt_failed: true,
            attempt_registered: true,
            answered: AnswerRuling::Accepted,
            bridge_active: true,
        }
    }
}

pub struct OutboxState {
    pub effects: Seq<CallEffect>,
    pub adapter: LaneState,
    pub media: LaneState,
    pub registrar: LaneState,
    pub topology: TopologyAnswers,
}

/// A queue with one place less.
pub open spec fn taken(lane: LaneState) -> LaneState {
    LaneState { room: (lane.room - 1) as usize, open: lane.open }
}

impl OutboxState {
    pub open spec fn with(self, effect: CallEffect) -> Self {
        OutboxState { effects: self.effects.push(effect), ..self }
    }

    /// What becomes of an action for the adapter.
    #[verifier::opaque]
    pub open spec fn submitted(self, action: CallAction) -> (Self, Result<(), CallError>) {
        if !self.adapter.open {
            (self, Err(CallError::AdapterClosed))
        } else if self.adapter.room == 0 {
            (self, Err(CallError::AdapterFull))
        } else {
            (
                OutboxState {
                    adapter: taken(self.adapter),
                    ..self.with(CallEffect::Submit(action))
                },
                Ok(()),
            )
        }
    }

    /// What becomes of work for the media worker.
    #[verifier::opaque]
    pub open spec fn requested(self, request: MediaRequest) -> (Self, Result<(), CallError>) {
        if !self.media.open {
            (self, Err(CallError::MediaClosed))
        } else if self.media.room == 0 {
            (self, Err(CallError::MediaFull))
        } else {
            (
                OutboxState { media: taken(self.media), ..self.with(CallEffect::Media(request)) },
                Ok(()),
            )
        }
    }

    /// What becomes of the registration of an attempt.
    #[verifier::opaque]
    pub open spec fn registered(self, attempt: u16, candidate: usize, action_generation: u64) -> (
        Self,
        Result<(), CallError>,
    ) {
        if !self.registrar.open {
            (self, Err(CallError::RegistrarClosed))
        } else if self.registrar.room == 0 {
            (self, Err(CallError::RegistrarFull))
        } else {
            (
                OutboxState {
                    registrar: taken(self.registrar),
                    ..self.with(
                        CallEffect::RegisterAttempt { attempt, candidate, action_generation },
                    )
                },
                Ok(()),
            )
        }
    }
}

/// Where the coordinator puts what is to be done.
pub struct Outbox {
    pub effects: Vec<CallEffect>,
    pub adapter: LaneState,
    pub media: LaneState,
    pub registrar: LaneState,
    pub topology: TopologyAnswers,
}

impl Outbox {
    pub open spec fn view(&self) -> OutboxState {
        OutboxState {
            effects: self.effects@,
            adapter: self.adapter,
            media: self.media,
            registrar: self.registrar,
            topology: self.topology,
        }
    }

    pub fn new(
        adapter: LaneState,
        media: LaneState,
        registrar: LaneState,
        topology: TopologyAnswers,
    ) -> (outbox: Self)
        ensures
            outbox@ == (OutboxState { effects: Seq::empty(), adapter, media, registrar, topology }),
    {
        Outbox { effects: Vec::new(), adapter, media, registrar, topology }
    }

    pub fn push(&mut self, effect: CallEffect)
        ensures
            final(self)@ == old(self)@.with(effect),
    {
        self.effects.push(effect);
    }

    pub fn submit(&mut self, action: CallAction) -> (result: Result<(), CallError>)
        ensures
            (final(self)@, result) == old(self)@.submitted(action),
    {
        proof {
            reveal(OutboxState::submitted);
        }
        if !self.adapter.open {
            return Err(CallError::AdapterClosed);
        }
        if self.adapter.room == 0 {
            return Err(CallError::AdapterFull);
        }
        self.effects.push(CallEffect::Submit(action));
        self.adapter = LaneState { room: self.adapter.room - 1, open: self.adapter.open };
        Ok(())
    }

    pub fn request(&mut self, request: MediaRequest) -> (result: Result<(), CallError>)
        ensures
            (final(self)@, result) == old(self)@.requested(request),
    {
        proof {
            reveal(OutboxState::requested);
        }
        if !self.media.open {
            return Err(CallError::MediaClosed);
        }
        if self.media.room == 0 {
            return Err(CallError::MediaFull);
        }
        self.effects.push(CallEffect::Media(request));
        self.media = LaneState { room: self.media.room - 1, open: self.media.open };
        Ok(())
    }

    pub fn register(&mut self, attempt: u16, candidate: usize, action_generation: u64) -> (result:
        Result<(), CallError>)
        ensures
            (final(self)@, result) == old(self)@.registered(attempt, candidate, action_generation),
    {
        proof {
            reveal(OutboxState::registered);
        }
        if !self.registrar.open {
            return Err(CallError::RegistrarClosed);
        }
        if self.registrar.room == 0 {
            return Err(CallError::RegistrarFull);
        }
        self.effects.push(CallEffect::RegisterAttempt { attempt, candidate, action_generation });
        self.registrar = LaneState { room: self.registrar.room - 1, open: self.registrar.open };
        Ok(())
    }
}

/// The statuses after which another candidate is tried.
pub open spec fn retryable(status: u16) -> bool {
    status == 408 || status == 480 || status == 500 || status == 502 || status == 503 || status
        == 504
}

pub fn retryable_status(status_code: u16) -> (retry: bool)
    ensures
        retry == retryable(status_code),
{
    status_code == 408 || status_code == 480 || status_code == 500 || status_code == 502
        || status_code == 503 || status_code == 504
}

/// Why an attempt that ended with `status` failed.
pub open spec fn cause_of_status(status: u16) -> HangupCause {
    if status == 408 || status == 504 {
        HangupCause::RecoveryOnTimerExpire
    } else if status == 480 {
        HangupCause::NoUserResponse
    } else if status == 486 || status == 600 {
        HangupCause::UserBusy
    } else if status == 503 {
        HangupCause::TemporaryFailure
    } else {
        HangupCause::NetworkFailure
    }
}

pub fn hangup_cause_for_status(status_code: u16) -> (cause: HangupCause)
    ensures
        cause == cause_of_status(status_code),
{
    match status_code {
        408 | 504 => HangupCause::RecoveryOnTimerExpire,
        480 => HangupCause::NoUserResponse,
        486 | 600 => HangupCause::UserBusy,
        503 => HangupCause::TemporaryFailure,
        _ => HangupCause::NetworkFailure,
    }
}

/// One more, up to the largest number.
pub open spec fn bumped(n: u64) -> u64 {
    if n < u64::MAX {
        (n + 1) as u64
    } else {
        n
    }
}

pub open spec fn next_attempt(n: u16) -> u16 {
    if n < u16::MAX {
        (n + 1) as u16
    } else {
        n
    }
}

/// A candidate whose offer is being prepared.
#[derive(Debug, Clone, Copy, PartialEq, Eq, Structural)]
pub struct PendingAttemptCandidate {
    pub attempt_seq: u16,
    pub candidate: usize,
}

/// A candidate whose session is being registered.
pub struct PendingAttemptRegistration {
    pub attempt_seq: u16,
    pub candidate: usize,
    pub callee_offer: SdpBody,
}

/// A hang-up of a callee's leg that waits for the answer to be confirmed.
#[derive(Debug, Clone, Copy, PartialEq, Eq, Structural)]
pub struct DeferredDisconnect {
    pub attempt_seq: u16,
    pub status_code: Option<u16>,
}

/// The state of a call.
pub struct CallCore {
    pub timeouts: CallTimeouts,
    /// When the search for the callee ends, in nanoseconds.
    pub route_deadline: u128,
    pub state: CallState,
    pub last_status: Option<u16>,
    pub hangup_cause: Option<HangupCause>,
    pub answered_at_ms: Option<u64>,
    /// Whether the answered legs are bridged in the topology.
    pub has_bridge: bool,
    pub recording_start_error: Option<String>,
    pub has_media: bool,
    pub timers: CallTimers,
    pub late_answer_cleanup_sent: bool,
    pub caller_terminated: bool,
    pub callee_terminated: bool,
    pub actor_started: bool,
    pub finalized: bool,
    pub finalization_started: bool,
    pub action_generation: u64,
    pub media_generation: u64,
    /// The media generation at which the call began to end.
    pub closing_generation: u64,
    /// The payload types of an answer that the adapter has not confirmed yet.
    pub pending_answer: Option<Vec<u8>>,
    pub answer_in_progress: bool,
    /// A hang-up of the callee's that waits for that answer.
    pub deferred_callee_disconnect: Option<DeferredDisconnect>,
    pub current_attempt_seq: u16,
    /// The candidate of the current attempt.
    pub current_candidate: usize,
    /// The candidate to be tried next.
    pub next_candidate: usize,
    pub candidate_count: usize,
    /// For each candidate, whether its extension has a number that extensions can have.
    pub numbers_accepted: Vec<bool>,
    pub pending_attempt_candidate: Option<PendingAttemptCandidate>,
    pub pending_attempt_registration: Option<PendingAttemptRegistration>,
    /// The status to go on with once the current attempt is cleaned up.
    pub retry_after_cleanup: Option<u16>,
}

/// A step of the machine: where it goes, what it puts out, and how it ended.
pub type Step<T> = (CallCore, OutboxState, Result<T, CallError>);

impl CallCore {
    pub open spec fn terminating(self) -> bool {
        self.state == CallState::Terminating || self.state == CallState::Completed
    }

    pub open spec fn answered(self) -> bool {
        self.answered_at_ms is Some
    }

    pub open spec fn callee(self) -> SessionRef {
        SessionRef::CalleeAttempt(self.current_attempt_seq)
    }

    /// Indices stay in bounds: the current candidate was tried, and the next one
    /// is not beyond the last.
    pub open spec fn wf(self) -> bool {
        &&& self.current_candidate < self.next_candidate <= self.candidate_count
        &&& self.numbers_accepted@.len() == self.candidate_count
        &&& self.pending_attempt_candidate matches Some(p) ==> p.candidate < self.next_candidate
        &&& self.pending_attempt_registration matches Some(p) ==> p.candidate < self.next_candidate
    }

    /// What is left of the time to find the callee.
    pub open spec fn budget(self, now: u64) -> int {
        if self.route_deadline >= now {
            self.route_deadline - now
        } else {
            0
        }
    }

    pub open spec fn limited(self, delay: u64, now: u64) -> int {
        if delay <= self.budget(now) {
            delay as int
        } else {
            self.budget(now)
        }
    }

    /// Forgets a timer.
    pub open spec fn timer_cancelled(self, kind: CallTimerKind) -> Self {
        CallCore { timers: self.timers.cancelled(kind), ..self }
    }

    /// When a timer armed at `now` expires. Dialling and ringing end with the
    /// search at the latest.
    pub open spec fn timer_deadline(self, kind: CallTimerKind, now: u64) -> u128 {
        match kind {
            CallTimerKind::Dial => (now + self.limited(self.timeouts.dial, now)) as u128,
            CallTimerKind::Ring => (now + self.limited(self.timeouts.ring, now)) as u128,
            CallTimerKind::Cleanup => (now + self.timeouts.cleanup) as u128,
        }
    }

    /// Arms a timer.
    pub open spec fn timer_started(self, kind: CallTimerKind, now: u64) -> Self {
        CallCore { timers: self.timers.started(kind, self.timer_deadline(kind, now)), ..self }
    }

    /// The call is on its way out; the first cause given stands.
    pub open spec fn ending(self, cause: HangupCause) -> Self {
        CallCore {
            state: if self.terminating() {
                self.state
            } else {
                CallState::Terminating
            },
            hangup_cause: match self.hangup_cause {
                Some(known) => Some(known),
                None => Some(cause),
            },
            ..self
        }
    }

    pub open spec fn action(
        self,
        session: SessionRef,
        kind: ActionKind,
        label: ActionLabel,
        body: ActionBody,
    ) -> CallAction {
        CallAction { session, kind, label, generation: self.action_generation, body }
    }

    /// Whether another candidate may be tried after `status`.
    pub open spec fn can_retry(self, status: u16, now: u64) -> bool {
        &&& !self.answered()
        &&& !self.terminating()
        &&& self.pending_attempt_candidate is None
        &&& self.pending_attempt_registration is None
        &&& self.retry_after_cleanup is None
        &&& self.next_candidate < self.candidate_count
        &&& retryable(status)
        &&& self.budget(now) >= self.timeouts.min_attempt_window
    }

    /// The end of the call: everything stops. A second time nothing happens.
    #[verifier::opaque]
    pub open spec fn finishing(self) -> CallCore {
        if self.finalization_started {
            self
        } else {
            CallCore {
                finalization_started: true,
                closing_generation: self.media_generation,
                media_generation: bumped(self.media_generation),
                has_media: false,
                timers: self.timers.all_cancelled(),
                ..self
            }
        }
    }

    /// The caller is refused, and the cleanup begins.
    #[verifier::opaque]
    pub open spec fn refused(self, o: OutboxState, label: ActionLabel, status: u16, now: u64) -> Step<
        (),
    > {
        let (o1, r) = o.submitted(
            self.action(
                SessionRef::Caller,
                ActionKind::RejectInboundInvite,
                label,
                ActionBody::Status(status),
            ),
        );
        match r {
            Err(e) => (self, o1, Err(e)),
            Ok(_) => (
                self.timer_started(CallTimerKind::Cleanup, now),
                o1.with(CallEffect::PublishView),
                Ok(()),
            ),
        }
    }

    /// The next attempt could not be set up.
    #[verifier::opaque]
    pub open spec fn retry_setup_failed(self, o: OutboxState, label: ActionLabel, now: u64) -> Step<
        (),
    > {
        CallCore {
            state: CallState::Terminating,
            last_status: Some(503),
            hangup_cause: Some(HangupCause::InternalError),
            callee_terminated: true,
            ..self
        }.refused(o, label, 503, now)
    }

    /// No candidate or no time is left.
    #[verifier::opaque]
    pub open spec fn retry_exhausted(self, o: OutboxState, status: u16, now: u64) -> Step<()> {
        CallCore {
            state: CallState::Terminating,
            last_status: Some(status),
            hangup_cause: Some(HangupCause::NoRoute),
            callee_terminated: true,
            ..self
        }.refused(o, ActionLabel::RejectRouteBudget, status, now)
    }

    /// The current attempt is cancelled, and the next one waits for its cleanup.
    #[verifier::opaque]
    pub open spec fn waiting_for_cleanup(self, o: OutboxState, status: u16, now: u64) -> Step<bool> {
        if !self.can_retry(status, now) {
            (self, o, Ok(false))
        } else {
            let s = CallCore {
                retry_after_cleanup: Some(status),
                last_status: Some(status),
                timers: self.timers.cancelled(CallTimerKind::Dial).cancelled(CallTimerKind::Ring),
                ..self
            };
            let (o1, r) = o.submitted(
                s.action(
                    s.callee(),
                    ActionKind::CancelOutbound,
                    ActionLabel::RetryCancel { attempt: s.current_attempt_seq },
                    ActionBody::Reason(CancelReason::SequentialHuntRetry),
                ),
            );
            match r {
                Err(e) => (s, o1, Err(e)),
                Ok(_) => (
                    s.timer_started(CallTimerKind::Cleanup, now),
                    o1.with(CallEffect::PublishView),
                    Ok(true),
                ),
            }
        }
    }

    /// The next candidate's offer is asked for, where a candidate and time are
    /// left.
    #[verifier::opaque]
    pub open spec fn next_begun(self, o: OutboxState, previous: u16, now: u64) -> Step<bool> {
        if !retryable(previous) || self.budget(now) < self.timeouts.min_attempt_window
            || self.next_candidate >= self.candidate_count {
            (self, o, Ok(false))
        } else if !o.topology.attempt_failed {
            (
                CallCore { next_candidate: (self.next_candidate + 1) as usize, ..self },
                o,
                Err(CallError::TopologyRefused),
            )
        } else {
            let attempt = next_attempt(self.current_attempt_seq);
            let s = CallCore {
                next_candidate: (self.next_candidate + 1) as usize,
                pending_attempt_candidate: Some(
                    PendingAttemptCandidate {
                        attempt_seq: attempt,
                        candidate: self.next_candidate,
                    },
                ),
                last_status: Some(previous),
                media_generation: bumped(self.media_generation),
                timers: self.timers.all_cancelled(),
                    ..self
            };
            let o1 = o.with(
                CallEffect::Topology(
                    TopologyChange::AttemptFailed {
                        attempt: self.current_attempt_seq,
                        cause: cause_of_status(previous),
                    },
                ),
            );
            let (o2, r) = o1.requested(
                MediaRequest::PrepareCalleeOffer {
                    generation: s.media_generation,
                    attempt_seq: attempt,
                    candidate: self.next_candidate,
                },
            );
            match r {
                Err(e) => (s, o2, Err(e)),
                Ok(_) => (s, o2.with(CallEffect::PublishView), Ok(true)),
            }
        }
    }

    /// The next attempt, or the end of the search.
    #[verifier::opaque]
    pub open spec fn next_or_exhausted(self, o: OutboxState, status: u16, now: u64) -> Step<bool> {
        let (s, o1, r) = self.next_begun(o, status, now);
        match r {
            Err(e) => (s, o1, Err(e)),
            Ok(true) => (s, o1, Ok(true)),
            Ok(false) => {
                let (s2, o2, r2) = s.retry_exhausted(o1, status, now);
                match r2 {
                    Err(e) => (s2, o2, Err(e)),
                    Ok(_) => (s2, o2, Ok(true)),
                }
            },
        }
    }

    /// The current attempt ended with `status`: whether the search goes on.
    #[verifier::opaque]
    pub open spec fn attempt_ended(self, o: OutboxState, status: u16, now: u64) -> Step<bool> {
        match self.retry_after_cleanup {
            Some(waiting) => CallCore {
                callee_terminated: true,
                retry_after_cleanup: None,
                timers: self.timers.cancelled(CallTimerKind::Cleanup),
                ..self
            }.next_or_exhausted(o, waiting, now),
            None => if !self.can_retry(status, now) {
                (self, o, Ok(false))
            } else {
                CallCore { callee_terminated: true, ..self }.next_begun(o, status, now)
            },
        }
    }

    /// The attempt that was given up is hung up, and the search goes on.
    #[verifier::opaque]
    pub open spec fn given_up(
        self,
        o: OutboxState,
        label: ActionLabel,
        status: u16,
        now: u64,
    ) -> Step<bool> {
        let (o1, r) = o.submitted(
            self.action(self.callee(), ActionKind::HangupDialog, label, ActionBody::Empty),
        );
        match r {
            Err(e) => (self, o1, Err(e)),
            Ok(_) => CallCore { callee_terminated: true, ..self }.next_or_exhausted(
                o1,
                status,
                now,
            ),
        }
    }

    /// An answer of an attempt that was already given up.
    #[verifier::opaque]
    pub open spec fn late_answer_retried(self, o: OutboxState, now: u64) -> Step<bool> {
        match self.retry_after_cleanup {
            None => (self, o, Ok(false)),
            Some(status) => CallCore {
                retry_after_cleanup: None,
                timers: self.timers.cancelled(CallTimerKind::Cleanup),
                ..self
            }.given_up(
                o,
                ActionLabel::RetryLateAnswerHangup { attempt: self.current_attempt_seq },
                status,
                now,
            ),
        }
    }

    /// The cleanup of an attempt took too long.
    #[verifier::opaque]
    pub open spec fn cleanup_forced(self, o: OutboxState, now: u64) -> Step<bool> {
        match self.retry_after_cleanup {
            None => (self, o, Ok(false)),
            Some(status) => CallCore { retry_after_cleanup: None, ..self }.given_up(
                o,
                ActionLabel::RetryCleanupHangup { attempt: self.current_attempt_seq },
                status,
                now,
            ),
        }
    }

    /// The offer of the next attempt is there, or could not be made.
    #[verifier::opaque]
    pub open spec fn offer_prepared(
        self,
        o: OutboxState,
        attempt: u16,
        offer: Option<SdpBody>,
        now: u64,
    ) -> Step<()> {
        match self.pending_attempt_candidate {
            None => (self, o, Ok(())),
            Some(pending) => {
                let s = CallCore { pending_attempt_candidate: None, ..self };
                if pending.attempt_seq != attempt || s.terminating() {
                    (s, o, Ok(()))
                } else {
                    match offer {
                        None => s.retry_setup_failed(o, ActionLabel::RejectAttemptMedia, now),
                        Some(sdp) => if !self.numbers_accepted@[pending.candidate as int] {
                            (
                                CallCore {
                                    action_generation: bumped(s.action_generation),
                                    ..s
                                },
                                o,
                                Err(CallError::NumberRefused),
                            )
                        } else {
                            let t = CallCore {
                                action_generation: bumped(s.action_generation),
                                pending_attempt_registration: Some(
                                    PendingAttemptRegistration {
                                        attempt_seq: attempt,
                                        candidate: pending.candidate,
                                        callee_offer: sdp,
                                    },
                                ),
                                ..s
                            };
                            let (o1, r) = o.registered(
                                attempt,
                                pending.candidate,
                                t.action_generation,
                            );
                            match r {
                                Ok(_) => (t, o1, Ok(())),
                                Err(_) => CallCore {
                                    pending_attempt_registration: None,
                                    ..t
                                }.retry_setup_failed(o1, ActionLabel::RejectAttemptOverload, now),
                            }
                        },
                    }
                }
            },
        }
    }

    /// The session of the next attempt is registered.
    #[verifier::opaque]
    pub open spec fn attempt_registered(
        self,
        o: OutboxState,
        attempt: u16,
        session: Option<SessionRef>,
        now: u64,
    ) -> Step<()> {
        match self.pending_attempt_registration {
            None => (self, o, Ok(())),
            Some(pending) => {
                let s = CallCore { pending_attempt_registration: None, ..self };
                if pending.attempt_seq != attempt || session != Some(
                    SessionRef::CalleeAttempt(pending.attempt_seq),
                ) || s.terminating() {
                    (
                        s,
                        o.with(CallEffect::ShutdownAttempt { attempt: pending.attempt_seq }),
                        Ok(()),
                    )
                } else if !o.topology.attempt_registered {
                    (s, o, Err(CallError::TopologyRefused))
                } else {
                    let t = CallCore {
                        current_attempt_seq: attempt,
                        current_candidate: pending.candidate,
                        recording_start_error: None,
                        last_status: None,
                        hangup_cause: None,
                        callee_terminated: false,
                        late_answer_cleanup_sent: false,
                        ..s
                    };
                    let o1 = o.with(
                        CallEffect::Topology(
                            TopologyChange::AttemptRegistered {
                                attempt,
                                candidate: pending.candidate,
                            },
                        ),
                    ).with(CallEffect::FollowAttempt { attempt });
                    let (o2, r) = o1.submitted(
                        t.action(
                            t.callee(),
                            ActionKind::Originate,
                            ActionLabel::Originate { attempt },
                            ActionBody::Originate {
                                candidate: pending.candidate,
                                sdp: pending.callee_offer,
                            },
                        ),
                    );
                    match r {
                        Err(e) => (t, o2, Err(e)),
                        Ok(_) => (
                            t.timer_started(CallTimerKind::Dial, now),
                            o2.with(CallEffect::PublishView),
                            Ok(()),
                        ),
                    }
                }
            },
        }
    }

    /// The session of the next attempt was refused.
    #[verifier::opaque]
    pub open spec fn attempt_rejected(
        self,
        o: OutboxState,
        attempt: u16,
        session: Option<SessionRef>,
        now: u64,
    ) -> Step<()> {
        match self.pending_attempt_registration {
            None => (self, o, Ok(())),
            Some(pending) => if pending.attempt_seq == attempt && session == Some(
                SessionRef::CalleeAttempt(pending.attempt_seq),
            ) {
                CallCore { pending_attempt_registration: None, ..self }.retry_setup_failed(
                    o,
                    ActionLabel::RejectAttemptRegistration,
                    now,
                )
            } else {
                (self, o, Ok(()))
            },
        }
    }

    /// The callee did not answer in time: another candidate is tried, or the call
    /// ends on both sides.
    #[verifier::opaque]
    pub open spec fn unanswered(
        self,
        o: OutboxState,
        kind: CallTimerKind,
        status: u16,
        cause: HangupCause,
        cancel: ActionLabel,
        reason: CancelReason,
        reject: ActionLabel,
        now: u64,
    ) -> Step<()> {
        let (s, o1, r) = self.waiting_for_cleanup(o, status, now);
        match r {
            Err(e) => (s, o1, Err(e)),
            Ok(true) => (s, o1, Ok(())),
            Ok(false) => {
                let t = CallCore {
                    state: CallState::Terminating,
                    last_status: Some(status),
                    hangup_cause: Some(cause),
                    timers: s.timers.cancelled(kind),
                ..s
                };
                let (o2, r2) = o1.submitted(
                    t.action(
                        t.callee(),
                        ActionKind::CancelOutbound,
                        cancel,
                        ActionBody::Reason(reason),
                    ),
                );
                match r2 {
                    Err(e) => (t, o2, Err(e)),
                    Ok(_) => t.refused(o2, reject, status, now),
                }
            },
        }
    }

    /// The cleanup of the call took too long: what is left is hung up, and the
    /// call ends.
    #[verifier::opaque]
    pub open spec fn cleanup_over(self, o: OutboxState) -> Step<()> {
        let (o1, r1) = if self.caller_terminated {
            (o, Ok(()))
        } else {
            o.submitted(
                self.action(
                    SessionRef::Caller,
                    ActionKind::HangupDialog,
                    ActionLabel::CleanupHangupCaller,
                    ActionBody::Empty,
                ),
            )
        };
        match r1 {
            Err(e) => (self, o1, Err(e)),
            Ok(_) => {
                let (o2, r2) = if self.callee_terminated {
                    (o1, Ok(()))
                } else {
                    o1.submitted(
                        self.action(
                            self.callee(),
                            ActionKind::HangupDialog,
                            ActionLabel::CleanupHangupCallee,
                            ActionBody::Empty,
                        ),
                    )
                };
                match r2 {
                    Err(e) => (self, o2, Err(e)),
                    Ok(_) => {
                        let s = CallCore {
                            hangup_cause: match self.hangup_cause {
                                Some(known) => Some(known),
                                None => Some(HangupCause::InternalError),
                            },
                            ..self
                        }.finishing();
                        (s, o2, Ok(()))
                    },
                }
            },
        }
    }

    /// A timer of the given generation has expired. One that was replaced or
    /// cancelled since says nothing.
    #[verifier::opaque]
    pub open spec fn timer_fired(
        self,
        o: OutboxState,
        kind: CallTimerKind,
        generation: u64,
        now: u64,
    ) -> Step<()> {
        match kind {
            CallTimerKind::Dial => if self.timers.dial.generation != generation || self.answered()
                || self.terminating() {
                (self, o, Ok(()))
            } else {
                self.unanswered(
                    o,
                    CallTimerKind::Dial,
                    408,
                    HangupCause::RecoveryOnTimerExpire,
                    ActionLabel::DialTimeoutCancel,
                    CancelReason::DialTimeout,
                    ActionLabel::DialTimeoutReject,
                    now,
                )
            },
            CallTimerKind::Ring => if self.timers.ring.generation != generation || self.answered()
                || self.terminating() {
                (self, o, Ok(()))
            } else {
                self.unanswered(
                    o,
                    CallTimerKind::Ring,
                    480,
                    HangupCause::NoUserResponse,
                    ActionLabel::RingTimeoutCancel,
                    CancelReason::RingTimeout,
                    ActionLabel::RingTimeoutReject,
                    now,
                )
            },
            CallTimerKind::Cleanup => if self.timers.cleanup.generation != generation {
                (self, o, Ok(()))
            } else if self.retry_after_cleanup is Some {
                let (s, o1, r) = self.cleanup_forced(o, now);
                match r {
                    Err(e) => (s, o1, Err(e)),
                    Ok(_) => (s, o1, Ok(())),
                }
            } else if !self.terminating() {
                (self, o, Ok(()))
            } else {
                self.cleanup_over(o)
            },
        }
    }

    /// A timer's expiry takes it out of its place first.
    #[verifier::opaque]
    pub open spec fn timer_expired(
        self,
        o: OutboxState,
        kind: CallTimerKind,
        generation: u64,
        now: u64,
    ) -> Step<()> {
        let s = CallCore { timers: self.timers.fired(kind), ..self };
        s.timer_fired(o, kind, generation, now)
    }

    /// The media of the two sides do not go together: the call ends on both.
    #[verifier::opaque]
    pub open spec fn media_failed(self, o: OutboxState, kind: ActionKind, now: u64) -> Step<()> {
        if self.terminating() {
            (self, o, Ok(()))
        } else {
            let s = CallCore {
                answer_in_progress: false,
                state: CallState::Terminating,
                last_status: Some(488),
                hangup_cause: Some(HangupCause::IncompatibleDestination),
                media_generation: bumped(self.media_generation),
                timers: self.timers.cancelled(CallTimerKind::Dial).cancelled(CallTimerKind::Ring),
                ..self
            };
            let (o1, r) = o.submitted(
                s.action(s.callee(), kind, ActionLabel::MediaFailureCallee, ActionBody::Empty),
            );
            match r {
                Err(e) => (s, o1, Err(e)),
                Ok(_) => s.refused(o1, ActionLabel::MediaFailureCaller, 488, now),
            }
        }
    }

    /// A provisional response is passed on to the caller.
    #[verifier::opaque]
    pub open spec fn provisional_forwarded(
        self,
        o: OutboxState,
        status: u16,
        sdp: Option<SdpBody>,
        ring: bool,
        now: u64,
    ) -> Step<()> {
        let (o1, r) = o.submitted(
            self.action(
                SessionRef::Caller,
                ActionKind::ForwardProvisional,
                ActionLabel::Provisional { status },
                ActionBody::Provisional { status, sdp },
            ),
        );
        match r {
            Err(e) => (self, o1, Err(e)),
            Ok(_) => (
                if ring {
                    self.timer_started(CallTimerKind::Ring, now)
                } else {
                    self
                },
                o1,
                Ok(()),
            ),
        }
    }

    /// The callee's side reports progress.
    #[verifier::opaque]
    pub open spec fn provisional(
        self,
        o: OutboxState,
        status: Option<u16>,
        sdp: Option<SdpBody>,
        now: u64,
    ) -> Step<()> {
        let code: u16 = match status {
            Some(code) => code,
            None => 180,
        };
        let s = CallCore {
            last_status: Some(code),
            state: CallState::Establishing,
            timers: self.timers.cancelled(CallTimerKind::Dial),
                ..self
        };
        s.progress_passed(
            o,
            code,
            (code == 180 || code == 183) && s.timers.ring.generation == 0,
            sdp,
            now,
        )
    }

    /// Progress is passed on to the caller: as it is, or after its session
    /// description was rewritten.
    #[verifier::opaque]
    pub open spec fn progress_passed(
        self,
        o: OutboxState,
        code: u16,
        ring: bool,
        sdp: Option<SdpBody>,
        now: u64,
    ) -> Step<()> {
        match sdp {
            Some(body) => if !self.has_media {
                self.media_failed(o, ActionKind::CancelOutbound, now)
            } else {
                let t = CallCore { media_generation: bumped(self.media_generation), ..self };
                let (o1, r) = o.requested(
                    MediaRequest::PrepareCallerSdp {
                        generation: t.media_generation,
                        purpose: PrepareSdpPurpose::Provisional {
                            status_code: code,
                            start_ring_timer: ring,
                        },
                        sdp: body,
                    },
                );
                match r {
                    Err(e) => (t, o1, Err(e)),
                    Ok(_) => (t, o1.with(CallEffect::PublishView), Ok(())),
                }
            },
            None => {
                let (t, o1, r) = self.provisional_forwarded(o, code, None, ring, now);
                match r {
                    Err(e) => (t, o1, Err(e)),
                    Ok(_) => (t, o1.with(CallEffect::PublishView), Ok(())),
                }
            },
        }
    }

    /// The callee has answered.
    #[verifier::opaque]
    pub open spec fn callee_answered(
        self,
        o: OutboxState,
        sdp: Option<SdpBody>,
        payload_types: Vec<u8>,
        now: u64,
    ) -> Step<()> {
        let (s, o1, r) = self.timer_cancelled(CallTimerKind::Dial).late_answer_retried(o, now);
        match r {
            Err(e) => (s, o1, Err(e)),
            Ok(true) => (s, o1, Ok(())),
            Ok(false) => if s.answered() || s.pending_answer is Some {
                (s, o1, Ok(()))
            } else if s.terminating() {
                if s.late_answer_cleanup_sent {
                    (s, o1, Ok(()))
                } else {
                    let t = CallCore { late_answer_cleanup_sent: true, ..s };
                    let (o2, r2) = o1.submitted(
                        t.action(
                            t.callee(),
                            ActionKind::HangupDialog,
                            ActionLabel::HangupLateAnswer,
                            ActionBody::Empty,
                        ),
                    );
                    (t, o2, r2)
                }
            } else {
                match sdp {
                    None => s.media_failed(o1, ActionKind::HangupDialog, now),
                    Some(body) => if !s.has_media {
                        s.media_failed(o1, ActionKind::HangupDialog, now)
                    } else {
                        let t = CallCore {
                            media_generation: bumped(s.media_generation),
                            answer_in_progress: true,
                            ..s
                        };
                        let (o2, r2) = o1.requested(
                            MediaRequest::PrepareCallerSdp {
                                generation: t.media_generation,
                                purpose: PrepareSdpPurpose::Answer { payload_types },
                                sdp: body,
                            },
                        );
                        (t, o2, r2)
                    },
                }
            },
        }
    }

    /// The caller's answer is sent.
    #[verifier::opaque]
    pub open spec fn answer_sent(self, o: OutboxState, sdp: SdpBody, payload_types: Vec<u8>) -> Step<
        (),
    > {
        let (o1, r) = o.submitted(
            self.action(
                SessionRef::Caller,
                ActionKind::AnswerInboundInvite,
                ActionLabel::Answer,
                ActionBody::Answer { sdp },
            ),
        );
        match r {
            Err(e) => (self, o1, Err(e)),
            Ok(_) => (
                CallCore {
                    state: CallState::Answering,
                    pending_answer: Some(payload_types),
                    ..self
                },
                o1.with(CallEffect::PublishView),
                Ok(()),
            ),
        }
    }

    /// The adapter has confirmed an answer; `current` says whether it is the one
    /// that was sent.
    #[verifier::opaque]
    pub open spec fn answer_confirmed(
        self,
        o: OutboxState,
        current: bool,
        recording_requested: bool,
        ai_capture: bool,
        now_ms: u64,
        now: u64,
    ) -> Step<()> {
        match self.pending_answer {
            None => (self, o, Ok(())),
            Some(payload_types) => if !current || self.terminating() {
                (
                    CallCore { pending_answer: None, answer_in_progress: false, ..self },
                    o,
                    Ok(()),
                )
            } else if o.topology.answered != AnswerRuling::Accepted {
                (
                    CallCore {
                        pending_answer: None,
                        state: CallState::Connected,
                        answered_at_ms: if o.topology.answered == AnswerRuling::BridgeRefused {
                            Some(now_ms)
                        } else {
                            self.answered_at_ms
                        },
                        ..self
                    },
                    o,
                    Err(CallError::TopologyRefused),
                )
            } else {
                let s = CallCore {
                    pending_answer: None,
                    state: CallState::Connected,
                    answered_at_ms: Some(now_ms),
                    has_bridge: true,
                    last_status: Some(200),
                    timers: self.timers.cancelled(CallTimerKind::Ring),
                ..self
                };
                let o1 = o.with(
                    CallEffect::Topology(
                        TopologyChange::Answered {
                            attempt: s.current_attempt_seq,
                            at_ms: now_ms,
                            media_generation: s.media_generation,
                        },
                    ),
                );
                let (o2, r) = o1.requested(
                    MediaRequest::StartAnswerMedia {
                        generation: s.media_generation,
                        recording_from_ms: if recording_requested {
                            Some(now_ms)
                        } else {
                            None
                        },
                        payload_types,
                        allow_fast_path: !recording_requested && !ai_capture,
                    },
                );
                match r {
                    Err(e) => (s, o2, Err(e)),
                    Ok(_) => {
                        let t = CallCore { answer_in_progress: false, ..s };
                        let o3 = o2.with(CallEffect::PublishView);
                        match t.deferred_callee_disconnect {
                            None => (t, o3, Ok(())),
                            Some(waiting) => CallCore {
                                deferred_callee_disconnect: None,
                                ..t
                            }.disconnected(
                                o3,
                                Some(SessionRef::CalleeAttempt(waiting.attempt_seq)),
                                waiting.status_code,
                                now,
                            ),
                        }
                    },
                }
            },
        }
    }

    /// Ends the call where both legs are gone; otherwise the cleanup begins,
    /// where it was asked for.
    #[verifier::opaque]
    pub open spec fn settled(self, o: OutboxState, start_cleanup: bool, now: u64) -> (
        CallCore,
        OutboxState,
    ) {
        if self.caller_terminated && self.callee_terminated {
            (self.finishing(), o)
        } else if start_cleanup {
            (self.timer_started(CallTimerKind::Cleanup, now), o.with(CallEffect::PublishView))
        } else {
            (self, o.with(CallEffect::PublishView))
        }
    }

    /// The other leg is told, where the call was not already ending, and nobody
    /// waits for an answer any more.
    #[verifier::opaque]
    pub open spec fn told_and_settled(
        self,
        o: OutboxState,
        tell: bool,
        action: CallAction,
        now: u64,
    ) -> Step<()> {
        if tell {
            let s = self.timer_cancelled(CallTimerKind::Ring);
            let (o1, r) = o.submitted(action);
            match r {
                Err(e) => (s, o1, Err(e)),
                Ok(_) => {
                    let (t, o2) = s.settled(o1, true, now);
                    (t, o2, Ok(()))
                },
            }
        } else {
            let (s, o1) = self.settled(o, false, now);
            (s, o1, Ok(()))
        }
    }

    /// The callee's side refused the call.
    #[verifier::opaque]
    pub open spec fn callee_failed(
        self,
        o: OutboxState,
        from_callee: bool,
        status: Option<u16>,
        now: u64,
    ) -> Step<()> {
        let code: u16 = match status {
            Some(code) => code,
            None => 480,
        };
        let (s, o1, r) = self.timer_cancelled(CallTimerKind::Dial).attempt_ended(o, code, now);
        match r {
            Err(e) => (s, o1, Err(e)),
            Ok(true) => (s, o1, Ok(())),
            Ok(false) => {
                let tell = !s.terminating();
                let t = CallCore {
                    last_status: status,
                    state: CallState::Terminating,
                    hangup_cause: Some(HangupCause::CallRejected),
                    callee_terminated: s.callee_terminated || from_callee,
                    ..s
                };
                t.told_and_settled(
                    o1,
                    tell,
                    t.action(
                        SessionRef::Caller,
                        ActionKind::RejectInboundInvite,
                        ActionLabel::Reject,
                        ActionBody::Status(code),
                    ),
                    now,
                )
            },
        }
    }

    /// The caller gave up.
    #[verifier::opaque]
    pub open spec fn caller_cancelled(self, o: OutboxState, now: u64) -> Step<()> {
        let tell = !self.terminating();
        let t = CallCore {
            caller_terminated: true,
            state: CallState::Terminating,
            hangup_cause: Some(HangupCause::OriginatorCancel),
            timers: self.timers.cancelled(CallTimerKind::Dial),
                ..self
        };
        t.told_and_settled(
            o,
            tell,
            t.action(
                t.callee(),
                if t.answered() {
                    ActionKind::HangupDialog
                } else {
                    ActionKind::CancelOutbound
                },
                if t.answered() {
                    ActionLabel::HangupAfterCancel
                } else {
                    ActionLabel::Cancel
                },
                ActionBody::Reason(CancelReason::CallerCancelled),
            ),
            now,
        )
    }

    /// A leg was hung up.
    #[verifier::opaque]
    pub open spec fn disconnected(
        self,
        o: OutboxState,
        session: Option<SessionRef>,
        status: Option<u16>,
        now: u64,
    ) -> Step<()> {
        if session == Some(self.callee()) && self.retry_after_cleanup is Some {
            let (s, o1, r) = self.attempt_ended(
                o,
                match status {
                    Some(code) => code,
                    None => 487,
                },
                now,
            );
            match r {
                Err(e) => (s, o1, Err(e)),
                Ok(_) => (s, o1, Ok(())),
            }
        } else {
            let tell = !self.terminating();
            let t = CallCore {
                state: CallState::Terminating,
                last_status: match status {
                    Some(code) => Some(code),
                    None => self.last_status,
                },
                hangup_cause: match self.hangup_cause {
                    Some(known) => Some(known),
                    None => Some(HangupCause::NormalClearing),
                },
                caller_terminated: self.caller_terminated || session == Some(SessionRef::Caller),
                callee_terminated: self.callee_terminated || session == Some(self.callee()),
                timers: self.timers.cancelled(CallTimerKind::Dial),
                ..self
            };
            t.told_and_settled(
                o,
                tell,
                t.action(
                    if session == Some(SessionRef::Caller) {
                        t.callee()
                    } else {
                        SessionRef::Caller
                    },
                    ActionKind::HangupDialog,
                    ActionLabel::Hangup,
                    ActionBody::Empty,
                ),
                now,
            )
        }
    }

    /// A session description is ready, or could not be made.
    #[verifier::opaque]
    pub open spec fn sdp_prepared(
        self,
        o: OutboxState,
        generation: u64,
        purpose: PrepareSdpPurpose,
        prepared: Option<SdpBody>,
        now: u64,
    ) -> Step<()> {
        if generation != self.media_generation || self.terminating() {
            (self, o, Ok(()))
        } else {
            match (purpose, prepared) {
                (PrepareSdpPurpose::CalleeAttemptOffer { attempt_seq }, offer) => self.offer_prepared(
                    o,
                    attempt_seq,
                    offer,
                    now,
                ),
                (PrepareSdpPurpose::Provisional { .. }, None) => self.media_failed(
                    o,
                    ActionKind::CancelOutbound,
                    now,
                ),
                (PrepareSdpPurpose::Answer { .. }, None) => self.media_failed(
                    o,
                    ActionKind::HangupDialog,
                    now,
                ),
                (
                    PrepareSdpPurpose::Provisional { status_code, start_ring_timer },
                    Some(sdp),
                ) => self.provisional_forwarded(o, status_code, Some(sdp), start_ring_timer, now),
                (PrepareSdpPurpose::Answer { payload_types }, Some(sdp)) => self.answer_sent(
                    o,
                    sdp,
                    payload_types,
                ),
            }
        }
    }

    /// The media of an answered call runs. A call that was not answered has no bridge
    /// that it could run on.
    #[verifier::opaque]
    pub open spec fn answer_media_started(
        self,
        o: OutboxState,
        generation: u64,
        recording_error: Option<String>,
        now_ms: u64,
    ) -> Step<()> {
        if generation != self.media_generation {
            (self, o, Ok(()))
        } else {
            let s = CallCore {
                recording_start_error: match recording_error {
                    Some(error) => Some(error),
                    None => self.recording_start_error,
                },
                ..self
            };
            if !self.has_bridge {
                (s, o, Err(CallError::BridgeMissing))
            } else if !o.topology.bridge_active {
                (s, o, Err(CallError::TopologyRefused))
            } else {
                (
                    s,
                    o.with(
                        CallEffect::Topology(
                            TopologyChange::BridgeActive { generation, at_ms: now_ms },
                        ),
                    ).with(CallEffect::PublishView),
                    Ok(()),
                )
            }
        }
    }

    /// An action was refused or could not be delivered.
    #[verifier::opaque]
    pub open spec fn action_failed(
        self,
        o: OutboxState,
        originate: bool,
        peer_failure: bool,
        now: u64,
    ) -> Step<()> {
        if peer_failure && originate && self.can_retry(503, now) {
            let (s, o1, r) = CallCore { callee_terminated: true, ..self }.next_begun(o, 503, now);
            match r {
                Err(e) => (s, o1, Err(e)),
                Ok(true) => (s, o1, Ok(())),
                Ok(false) => s.failure_ended(o1, originate, peer_failure, now),
            }
        } else {
            self.failure_ended(o, originate, peer_failure, now)
        }
    }

    /// The call ends because an action failed; without an attempt under way the
    /// caller is refused.
    #[verifier::opaque]
    pub open spec fn failure_ended(
        self,
        o: OutboxState,
        originate: bool,
        peer_failure: bool,
        now: u64,
    ) -> Step<()> {
        if self.terminating() {
            (self, o, Ok(()))
        } else {
            let t = CallCore {
                state: CallState::Terminating,
                last_status: match self.last_status {
                    Some(known) => Some(known),
                    None => Some(503),
                },
                hangup_cause: Some(HangupCause::InternalError),
                callee_terminated: self.callee_terminated || peer_failure,
                timers: self.timers.cancelled(CallTimerKind::Dial).cancelled(CallTimerKind::Ring),
                ..self
            };
            if originate {
                t.refused(o, ActionLabel::RejectActionFailure, 503, now)
            } else {
                (
                    t.timer_started(CallTimerKind::Cleanup, now),
                    o.with(CallEffect::PublishView),
                    Ok(()),
                )
            }
        }
    }

    /// The owner of the coordinator is told to stop.
    #[verifier::opaque]
    pub open spec fn shut_down(self, owner: SessionRef) -> CallCore {
        let s = self.ending(HangupCause::InternalError);
        CallCore {
            caller_terminated: s.caller_terminated || owner == SessionRef::Caller,
            callee_terminated: s.callee_terminated || owner == s.callee(),
            ..s
        }.finishing()
    }

    /// After every event: a failure ends the call, and so does the loss of both
    /// legs. Says whether the coordinator goes on.
    #[verifier::opaque]
    pub open spec fn processed(self, result: Result<(), CallError>) -> (CallCore, bool) {
        if result is Err {
            (self.ending(HangupCause::InternalError).finishing(), true)
        } else if self.finalized {
            (self, false)
        } else if self.caller_terminated && self.callee_terminated {
            (self.finishing(), true)
        } else {
            (self, true)
        }
    }

    /// The first steps of a call: the caller's leg is taken over and the first
    /// attempt is made.
    #[verifier::opaque]
    pub open spec fn begun(self, o: OutboxState, callee_offer: SdpBody, now: u64) -> (
        CallCore,
        OutboxState,
    ) {
        if self.actor_started {
            (self, o)
        } else {
            let s = CallCore { actor_started: true, ..self };
            let (o1, r1) = o.submitted(
                s.action(
                    SessionRef::Caller,
                    ActionKind::AdoptInboundInvite,
                    ActionLabel::Adopt,
                    ActionBody::Empty,
                ),
            );
            let (o2, r2) = match r1 {
                Err(e) => (o1, Err(e)),
                Ok(_) => o1.submitted(
                    s.action(
                        s.callee(),
                        ActionKind::Originate,
                        ActionLabel::Originate { attempt: s.current_attempt_seq },
                        ActionBody::Originate { candidate: s.current_candidate, sdp: callee_offer },
                    ),
                ),
            };
            match r2 {
                Err(e) => (
                    CallCore {
                        hangup_cause: Some(HangupCause::InternalError),
                        ..s.ending(HangupCause::InternalError)
                    }.finishing(),
                    o2,
                ),
                Ok(_) => if s.finalization_started {
                    (s, o2)
                } else {
                    (
                        s.timer_started(CallTimerKind::Dial, now),
                        o2.with(CallEffect::PublishView),
                    )
                },
            }
        }
    }
}

impl CallCore {
    /// A call that has not started, at its first candidate.
    pub open spec fn fresh(timeouts: CallTimeouts, numbers_accepted: Vec<bool>, now: u64) -> Self {
        CallCore {
            timeouts,
            route_deadline: (now + timeouts.route_budget) as u128,
            state: CallState::Establishing,
            last_status: None,
            hangup_cause: None,
            answered_at_ms: None,
            has_bridge: false,
            recording_start_error: None,
            has_media: true,
            timers: CallTimers {
                dial: TimerState { generation: 0, slot: None },
                ring: TimerState { generation: 0, slot: None },
                cleanup: TimerState { generation: 0, slot: None },
            },
            late_answer_cleanup_sent: false,
            caller_terminated: false,
            callee_terminated: false,
            actor_started: false,
            finalized: false,
            finalization_started: false,
            action_generation: 1,
            media_generation: 0,
            closing_generation: 0,
            pending_answer: None,
            answer_in_progress: false,
            deferred_callee_disconnect: None,
            current_attempt_seq: 1,
            current_candidate: 0,
            next_candidate: 1,
            candidate_count: numbers_accepted@.len() as usize,
            numbers_accepted,
            pending_attempt_candidate: None,
            pending_attempt_registration: None,
            retry_after_cleanup: None,
        }
    }

    /// The call has a candidate for every answer in the list: whether its number is one
    /// that extensions can have.
    pub fn new(timeouts: CallTimeouts, numbers_accepted: Vec<bool>, now: u64) -> (core: Self)
        requires
            numbers_accepted@.len() > 0,
        ensures
            core.wf(),
            core == CallCore::fresh(timeouts, numbers_accepted, now),
    {
        CallCore {
            timeouts,
            route_deadline: now as u128 + timeouts.route_budget as u128,
            state: CallState::Establishing,
            last_status: None,
            hangup_cause: None,
            answered_at_ms: None,
            has_bridge: false,
            recording_start_error: None,
            has_media: true,
            timers: CallTimers {
                dial: TimerState { generation: 0, slot: None },
                ring: TimerState { generation: 0, slot: None },
                cleanup: TimerState { generation: 0, slot: None },
            },
            late_answer_cleanup_sent: false,
            caller_terminated: false,
            callee_terminated: false,
            actor_started: false,
            finalized: false,
            finalization_started: false,
            action_generation: 1,
            media_generation: 0,
            closing_generation: 0,
            pending_answer: None,
            answer_in_progress: false,
            deferred_callee_disconnect: None,
            current_attempt_seq: 1,
            current_candidate: 0,
            next_candidate: 1,
            candidate_count: numbers_accepted.len(),
            numbers_accepted,
            pending_attempt_candidate: None,
            pending_attempt_registration: None,
            retry_after_cleanup: None,
        }
    }

    pub fn is_terminating(&self) -> (terminating: bool)
        ensures
            terminating == self.terminating(),
    {
        self.state == CallState::Terminating || self.state == CallState::Completed
    }

    pub fn is_answered(&self) -> (answered: bool)
        ensures
            answered == self.answered(),
    {
        self.answered_at_ms.is_some()
    }

    pub fn callee_session(&self) -> (session: SessionRef)
        ensures
            session == self.callee(),
    {
        SessionRef::CalleeAttempt(self.current_attempt_seq)
    }

    pub fn route_budget_remaining(&self, now: u64) -> (left: u128)
        ensures
            left == self.budget(now),
    {
        if self.route_deadline >= now as u128 {
            self.route_deadline - now as u128
        } else {
            0
        }
    }

    pub fn cancel_timer(&mut self, kind: CallTimerKind)
        ensures
            *final(self) == old(self).timer_cancelled(kind),
    {
        let generation: u64 = self.timers.get(kind).generation.saturating_add(1);
        self.timers.set(kind, TimerState { generation, slot: None });
    }

    pub fn cancel_all_timers(&mut self)
        ensures
            *final(self) == (CallCore { timers: old(self).timers.all_cancelled(), ..*old(self) }),
    {
        self.cancel_timer(CallTimerKind::Dial);
        self.cancel_timer(CallTimerKind::Ring);
        self.cancel_timer(CallTimerKind::Cleanup);
    }

    fn limited_delay(&self, delay: u64, now: u64) -> (limit: u64)
        ensures
            limit == self.limited(delay, now),
    {
        let left = self.route_budget_remaining(now);
        if (delay as u128) <= left {
            delay
        } else {
            left as u64
        }
    }

    pub fn start_timer(&mut self, kind: CallTimerKind, now: u64)
        ensures
            *final(self) == old(self).timer_started(kind, now),
    {
        let delay: u64 = match kind {
            CallTimerKind::Dial => self.limited_delay(self.timeouts.dial, now),
            CallTimerKind::Ring => self.limited_delay(self.timeouts.ring, now),
            CallTimerKind::Cleanup => self.timeouts.cleanup,
        };
        let generation: u64 = self.timers.get(kind).generation.saturating_add(1);
        let deadline: u128 = now as u128 + delay as u128;
        self.timers.set(
            kind,
            TimerState { generation, slot: Some(CallTimerSlot { generation, deadline }) },
        );
    }

    pub fn begin_terminating(&mut self, cause: HangupCause)
        ensures
            *final(self) == old(self).ending(cause),
    {
        self.state = if self.is_terminating() {
            self.state
        } else {
            CallState::Terminating
        };
        self.hangup_cause = first_cause(self.hangup_cause, cause);
    }

    pub fn has_retry_candidate(&self, status_code: u16, now: u64) -> (retry: bool)
        ensures
            retry == self.can_retry(status_code, now),
    {
        !self.is_answered() && !self.is_terminating() && self.pending_attempt_candidate.is_none()
            && self.pending_attempt_registration.is_none() && self.retry_after_cleanup.is_none()
            && self.next_candidate < self.candidate_count && retryable_status(status_code)
            && self.route_budget_remaining(now) >= self.timeouts.min_attempt_window as u128
    }

    pub fn begin_finish_call(&mut self)
        ensures
            *final(self) == old(self).finishing(),
            old(self).wf() ==> final(self).wf(),
    {
        proof {
            reveal(CallCore::finishing);
        }
        if self.finalization_started {
            return;
        }
        self.finalization_started = true;
        self.cancel_all_timers();
        self.closing_generation = self.media_generation;
        self.media_generation = self.media_generation.saturating_add(1);
        self.has_media = false;
    }

    fn submit(
        &self,
        out: &mut Outbox,
        session: SessionRef,
        kind: ActionKind,
        label: ActionLabel,
        body: ActionBody,
    ) -> (result: Result<(), CallError>)
        ensures
            (final(out)@, result) == old(out)@.submitted(self.action(session, kind, label, body)),
    {
        out.submit(CallAction { session, kind, label, generation: self.action_generation, body })
    }

    fn refuse(&mut self, out: &mut Outbox, label: ActionLabel, status: u16, now: u64) -> (result:
        Result<(), CallError>)
        ensures
            (*final(self), final(out)@, result) == old(self).refused(old(out)@, label, status, now),
            old(self).wf() ==> final(self).wf(),
    {
        proof {
            reveal(CallCore::refused);
        }
        match self.submit(
            out,
            SessionRef::Caller,
            ActionKind::RejectInboundInvite,
            label,
            ActionBody::Status(status),
        ) {
            Err(error) => Err(error),
            Ok(_) => {
                self.start_timer(CallTimerKind::Cleanup, now);
                out.push(CallEffect::PublishView);
                Ok(())
            },
        }
    }

    fn terminate_retry_setup(&mut self, out: &mut Outbox, label: ActionLabel, now: u64) -> (result:
        Result<(), CallError>)
        ensures
            (*final(self), final(out)@, result) == old(self).retry_setup_failed(
                old(out)@,
                label,
                now,
            ),
            old(self).wf() ==> final(self).wf(),
    {
        proof {
            reveal(CallCore::retry_setup_failed);
        }
        self.state = CallState::Terminating;
        self.last_status = Some(503);
        self.hangup_cause = Some(HangupCause::InternalError);
        self.callee_terminated = true;
        self.refuse(out, label, 503, now)
    }

    fn terminate_exhausted_retry(&mut self, out: &mut Outbox, status: u16, now: u64) -> (result:
        Result<(), CallError>)
        ensures
            (*final(self), final(out)@, result) == old(self).retry_exhausted(
                old(out)@,
                status,
                now,
            ),
            old(self).wf() ==> final(self).wf(),
    {
        proof {
            reveal(CallCore::retry_exhausted);
        }
        self.state = CallState::Terminating;
        self.last_status = Some(status);
        self.hangup_cause = Some(HangupCause::NoRoute);
        self.callee_terminated = true;
        self.refuse(out, ActionLabel::RejectRouteBudget, status, now)
    }

    pub fn wait_for_retry_cleanup(&mut self, out: &mut Outbox, status_code: u16, now: u64) -> (result:
        Result<bool, CallError>)
        ensures
            (*final(self), final(out)@, result) == old(self).waiting_for_cleanup(
                old(out)@,
                status_code,
                now,
            ),
            old(self).wf() ==> final(self).wf(),
    {
        proof {
            reveal(CallCore::waiting_for_cleanup);
        }
        if !self.has_retry_candidate(status_code, now) {
            return Ok(false);
        }
        self.cancel_timer(CallTimerKind::Dial);
        self.cancel_timer(CallTimerKind::Ring);
        self.retry_after_cleanup = Some(status_code);
        self.last_status = Some(status_code);
        match self.submit(
            out,
            self.callee_session(),
            ActionKind::CancelOutbound,
            ActionLabel::RetryCancel { attempt: self.current_attempt_seq },
            ActionBody::Reason(CancelReason::SequentialHuntRetry),
        ) {
            Err(error) => Err(error),
            Ok(_) => {
                self.start_timer(CallTimerKind::Cleanup, now);
                out.push(CallEffect::PublishView);
                Ok(true)
            },
        }
    }

    pub fn begin_next_attempt(&mut self, out: &mut Outbox, previous_status: u16, now: u64) -> (result:
        Result<bool, CallError>)
        requires
            old(self).wf(),
        ensures
            (*final(self), final(out)@, result) == old(self).next_begun(
                old(out)@,
                previous_status,
                now,
            ),
            final(self).wf(),
    {
        proof {
            reveal(CallCore::next_begun);
        }
        if !retryable_status(previous_status) || self.route_budget_remaining(now)
            < self.timeouts.min_attempt_window as u128 {
            return Ok(false);
        }
        if self.next_candidate >= self.candidate_count {
            return Ok(false);
        }
        let candidate: usize = self.next_candidate;
        self.next_candidate = candidate + 1;
        if !out.topology.attempt_failed {
            return Err(CallError::TopologyRefused);
        }
        out.push(
            CallEffect::Topology(
                TopologyChange::AttemptFailed {
                    attempt: self.current_attempt_seq,
                    cause: hangup_cause_for_status(previous_status),
                },
            ),
        );
        self.cancel_all_timers();
        let attempt_seq: u16 = self.current_attempt_seq.saturating_add(1);
        self.pending_attempt_candidate = Some(PendingAttemptCandidate { attempt_seq, candidate });
        self.last_status = Some(previous_status);
        self.media_generation = self.media_generation.saturating_add(1);
        match out.request(
            MediaRequest::PrepareCalleeOffer {
                generation: self.media_generation,
                attempt_seq,
                candidate,
            },
        ) {
            Err(error) => Err(error),
            Ok(_) => {
                out.push(CallEffect::PublishView);
                Ok(true)
            },
        }
    }

    fn next_attempt_or_end(&mut self, out: &mut Outbox, status: u16, now: u64) -> (result: Result<
        bool,
        CallError,
    >)
        requires
            old(self).wf(),
        ensures
            (*final(self), final(out)@, result) == old(self).next_or_exhausted(
                old(out)@,
                status,
                now,
            ),
            final(self).wf(),
    {
        proof {
            reveal(CallCore::next_or_exhausted);
        }
        match self.begin_next_attempt(out, status, now) {
            Err(error) => Err(error),
            Ok(begun) => {
                if begun {
                    return Ok(true);
                }
                match self.terminate_exhausted_retry(out, status, now) {
                    Err(error) => Err(error),
                    Ok(_) => Ok(true),
                }
            },
        }
    }

    pub fn retry_after_attempt_ended(&mut self, out: &mut Outbox, status_code: u16, now: u64) -> (result:
        Result<bool, CallError>)
        requires
            old(self).wf(),
        ensures
            (*final(self), final(out)@, result) == old(self).attempt_ended(
                old(out)@,
                status_code,
                now,
            ),
            final(self).wf(),
    {
        proof {
            reveal(CallCore::attempt_ended);
        }
        match self.retry_after_cleanup {
            Some(waiting) => {
                self.retry_after_cleanup = None;
                self.cancel_timer(CallTimerKind::Cleanup);
                self.callee_terminated = true;
                self.next_attempt_or_end(out, waiting, now)
            },
            None => {
                if !self.has_retry_candidate(status_code, now) {
                    return Ok(false);
                }
                self.callee_terminated = true;
                self.begin_next_attempt(out, status_code, now)
            },
        }
    }

    fn give_up_attempt(&mut self, out: &mut Outbox, label: ActionLabel, status: u16, now: u64) -> (result:
        Result<bool, CallError>)
        requires
            old(self).wf(),
        ensures
            (*final(self), final(out)@, result) == old(self).given_up(
                old(out)@,
                label,
                status,
                now,
            ),
            final(self).wf(),
    {
        proof {
            reveal(CallCore::given_up);
        }
        match self.submit(
            out,
            self.callee_session(),
            ActionKind::HangupDialog,
            label,
            ActionBody::Empty,
        ) {
            Err(error) => Err(error),
            Ok(_) => {
                self.callee_terminated = true;
                self.next_attempt_or_end(out, status, now)
            },
        }
    }

    pub fn retry_after_late_answer(&mut self, out: &mut Outbox, now: u64) -> (result: Result<
        bool,
        CallError,
    >)
        requires
            old(self).wf(),
        ensures
            (*final(self), final(out)@, result) == old(self).late_answer_retried(old(out)@, now),
            final(self).wf(),
    {
        proof {
            reveal(CallCore::late_answer_retried);
        }
        match self.retry_after_cleanup {
            None => Ok(false),
            Some(status) => {
                self.retry_after_cleanup = None;
                self.cancel_timer(CallTimerKind::Cleanup);
                let label = ActionLabel::RetryLateAnswerHangup { attempt: self.current_attempt_seq };
                self.give_up_attempt(out, label, status, now)
            },
        }
    }

    pub fn force_retry_after_cleanup(&mut self, out: &mut Outbox, now: u64) -> (result: Result<
        bool,
        CallError,
    >)
        requires
            old(self).wf(),
        ensures
            (*final(self), final(out)@, result) == old(self).cleanup_forced(old(out)@, now),
            final(self).wf(),
    {
        proof {
            reveal(CallCore::cleanup_forced);
        }
        match self.retry_after_cleanup {
            None => Ok(false),
            Some(status) => {
                self.retry_after_cleanup = None;
                let label = ActionLabel::RetryCleanupHangup { attempt: self.current_attempt_seq };
                self.give_up_attempt(out, label, status, now)
            },
        }
    }

    pub fn handle_attempt_offer_prepared(
        &mut self,
        out: &mut Outbox,
        attempt_seq: u16,
        offer: Option<SdpBody>,
        now: u64,
    ) -> (result: Result<(), CallError>)
        requires
            old(self).wf(),
        ensures
            (*final(self), final(out)@, result) == old(self).offer_prepared(
                old(out)@,
                attempt_seq,
                offer,
                now,
            ),
            final(self).wf(),
    {
        proof {
            reveal(CallCore::offer_prepared);
        }
        let pending = match self.pending_attempt_candidate {
            None => return Ok(()),
            Some(pending) => pending,
        };
        self.pending_attempt_candidate = None;
        if pending.attempt_seq != attempt_seq || self.is_terminating() {
            return Ok(());
        }
        match offer {
            None => self.terminate_retry_setup(out, ActionLabel::RejectAttemptMedia, now),
            Some(sdp) => {
                self.action_generation = self.action_generation.saturating_add(1);
                if !self.numbers_accepted[pending.candidate] {
                    return Err(CallError::NumberRefused);
                }
                self.pending_attempt_registration = Some(
                    PendingAttemptRegistration {
                        attempt_seq,
                        candidate: pending.candidate,
                        callee_offer: sdp,
                    },
                );
                match out.register(attempt_seq, pending.candidate, self.action_generation) {
                    Ok(_) => Ok(()),
                    Err(_) => {
                        self.pending_attempt_registration = None;
                        self.terminate_retry_setup(out, ActionLabel::RejectAttemptOverload, now)
                    },
                }
            },
        }
    }

    #[verifier::rlimit(60)]
    #[verifier::spinoff_prover]
    pub fn handle_attempt_registered(
        &mut self,
        out: &mut Outbox,
        attempt_seq: u16,
        session: Option<SessionRef>,
        now: u64,
    ) -> (result: Result<(), CallError>)
        requires
            old(self).wf(),
        ensures
            (*final(self), final(out)@, result) == old(self).attempt_registered(
                old(out)@,
                attempt_seq,
                session,
                now,
            ),
            final(self).wf(),
    {
        proof {
            reveal(CallCore::attempt_registered);
        }
        let pending = match self.pending_attempt_registration.take() {
            None => return Ok(()),
            Some(pending) => pending,
        };
        if pending.attempt_seq != attempt_seq || !is_session(
            session,
            SessionRef::CalleeAttempt(pending.attempt_seq),
        ) || self.is_terminating() {
            out.push(CallEffect::ShutdownAttempt { attempt: pending.attempt_seq });
            return Ok(());
        }
        if !out.topology.attempt_registered {
            return Err(CallError::TopologyRefused);
        }
        out.push(
            CallEffect::Topology(
                TopologyChange::AttemptRegistered {
                    attempt: attempt_seq,
                    candidate: pending.candidate,
                },
            ),
        );
        self.current_attempt_seq = attempt_seq;
        self.current_candidate = pending.candidate;
        self.recording_start_error = None;
        self.last_status = None;
        self.hangup_cause = None;
        self.callee_terminated = false;
        self.late_answer_cleanup_sent = false;
        out.push(CallEffect::FollowAttempt { attempt: attempt_seq });
        match self.submit(
            out,
            self.callee_session(),
            ActionKind::Originate,
            ActionLabel::Originate { attempt: attempt_seq },
            ActionBody::Originate { candidate: pending.candidate, sdp: pending.callee_offer },
        ) {
            Err(error) => Err(error),
            Ok(_) => {
                self.start_timer(CallTimerKind::Dial, now);
                out.push(CallEffect::PublishView);
                Ok(())
            },
        }
    }

    pub fn handle_attempt_rejected(
        &mut self,
        out: &mut Outbox,
        attempt_seq: u16,
        session: Option<SessionRef>,
        now: u64,
    ) -> (result: Result<(), CallError>)
        requires
            old(self).wf(),
        ensures
            (*final(self), final(out)@, result) == old(self).attempt_rejected(
                old(out)@,
                attempt_seq,
                session,
                now,
            ),
            final(self).wf(),
    {
        proof {
            reveal(CallCore::attempt_rejected);
        }
        let matches_pending = match &self.pending_attempt_registration {
            None => false,
            Some(pending) => pending.attempt_seq == attempt_seq && is_session(
                session,
                SessionRef::CalleeAttempt(pending.attempt_seq),
            ),
        };
        if !matches_pending {
            return Ok(());
        }
        self.pending_attempt_registration = None;
        self.terminate_retry_setup(out, ActionLabel::RejectAttemptRegistration, now)
    }

    fn end_unanswered(
        &mut self,
        out: &mut Outbox,
        kind: CallTimerKind,
        status: u16,
        cause: HangupCause,
        cancel: ActionLabel,
        reason: CancelReason,
        reject: ActionLabel,
        now: u64,
    ) -> (result: Result<(), CallError>)
        requires
            old(self).wf(),
        ensures
            (*final(self), final(out)@, result) == old(self).unanswered(
                old(out)@,
                kind,
                status,
                cause,
                cancel,
                reason,
                reject,
                now,
            ),
            final(self).wf(),
    {
        proof {
            reveal(CallCore::unanswered);
        }
        match self.wait_for_retry_cleanup(out, status, now) {
            Err(error) => return Err(error),
            Ok(waiting) => {
                if waiting {
                    return Ok(());
                }
            },
        }
        self.cancel_timer(kind);
        self.state = CallState::Terminating;
        self.last_status = Some(status);
        self.hangup_cause = Some(cause);
        match self.submit(
            out,
            self.callee_session(),
            ActionKind::CancelOutbound,
            cancel,
            ActionBody::Reason(reason),
        ) {
            Err(error) => Err(error),
            Ok(_) => self.refuse(out, reject, status, now),
        }
    }

    fn end_cleanup(&mut self, out: &mut Outbox) -> (result: Result<(), CallError>)
        requires
            old(self).wf(),
        ensures
            (*final(self), final(out)@, result) == old(self).cleanup_over(old(out)@),
            final(self).wf(),
    {
        proof {
            reveal(CallCore::cleanup_over);
        }
        if !self.caller_terminated {
            match self.submit(
                out,
                SessionRef::Caller,
                ActionKind::HangupDialog,
                ActionLabel::CleanupHangupCaller,
                ActionBody::Empty,
            ) {
                Err(error) => return Err(error),
                Ok(_) => {},
            }
        }
        if !self.callee_terminated {
            match self.submit(
                out,
                self.callee_session(),
                ActionKind::HangupDialog,
                ActionLabel::CleanupHangupCallee,
                ActionBody::Empty,
            ) {
                Err(error) => return Err(error),
                Ok(_) => {},
            }
        }
        self.hangup_cause = first_cause(self.hangup_cause, HangupCause::InternalError);
        self.begin_finish_call();
        Ok(())
    }

    pub fn handle_timer(
        &mut self,
        out: &mut Outbox,
        kind: CallTimerKind,
        generation: u64,
        now: u64,
    ) -> (result: Result<(), CallError>)
        requires
            old(self).wf(),
        ensures
            (*final(self), final(out)@, result) == old(self).timer_fired(
                old(out)@,
                kind,
                generation,
                now,
            ),
            final(self).wf(),
    {
        proof {
            reveal(CallCore::timer_fired);
        }
        match kind {
            CallTimerKind::Dial => {
                if self.timers.dial.generation != generation || self.is_answered()
                    || self.is_terminating() {
                    return Ok(());
                }
                self.end_unanswered(
                    out,
                    CallTimerKind::Dial,
                    408,
                    HangupCause::RecoveryOnTimerExpire,
                    ActionLabel::DialTimeoutCancel,
                    CancelReason::DialTimeout,
                    ActionLabel::DialTimeoutReject,
                    now,
                )
            },
            CallTimerKind::Ring => {
                if self.timers.ring.generation != generation || self.is_answered()
                    || self.is_terminating() {
                    return Ok(());
                }
                self.end_unanswered(
                    out,
                    CallTimerKind::Ring,
                    480,
                    HangupCause::NoUserResponse,
                    ActionLabel::RingTimeoutCancel,
                    CancelReason::RingTimeout,
                    ActionLabel::RingTimeoutReject,
                    now,
                )
            },
            CallTimerKind::Cleanup => {
                if self.timers.cleanup.generation != generation {
                    return Ok(());
                }
                if self.retry_after_cleanup.is_some() {
                    return match self.force_retry_after_cleanup(out, now) {
                        Err(error) => Err(error),
                        Ok(_) => Ok(()),
                    };
                }
                if !self.is_terminating() {
                    return Ok(());
                }
                self.end_cleanup(out)
            },
        }
    }

    pub fn handle_timer_expiry(
        &mut self,
        out: &mut Outbox,
        kind: CallTimerKind,
        generation: u64,
        now: u64,
    ) -> (result: Result<(), CallError>)
        requires
            old(self).wf(),
        ensures
            (*final(self), final(out)@, result) == old(self).timer_expired(
                old(out)@,
                kind,
                generation,
                now,
            ),
            final(self).wf(),
    {
        proof {
            reveal(CallCore::timer_expired);
        }
        let timer = self.timers.get(kind);
        self.timers.set(kind, TimerState { generation: timer.generation, slot: None });
        self.handle_timer(out, kind, generation, now)
    }

    pub fn fail_media_negotiation(&mut self, out: &mut Outbox, callee_command: ActionKind, now: u64) -> (result:
        Result<(), CallError>)
        requires
            old(self).wf(),
        ensures
            (*final(self), final(out)@, result) == old(self).media_failed(
                old(out)@,
                callee_command,
                now,
            ),
            final(self).wf(),
    {
        proof {
            reveal(CallCore::media_failed);
        }
        if self.is_terminating() {
            return Ok(());
        }
        self.answer_in_progress = false;
        self.state = CallState::Terminating;
        self.last_status = Some(488);
        self.hangup_cause = Some(HangupCause::IncompatibleDestination);
        self.cancel_timer(CallTimerKind::Dial);
        self.cancel_timer(CallTimerKind::Ring);
        self.media_generation = self.media_generation.saturating_add(1);
        match self.submit(
            out,
            self.callee_session(),
            callee_command,
            ActionLabel::MediaFailureCallee,
            ActionBody::Empty,
        ) {
            Err(error) => Err(error),
            Ok(_) => self.refuse(out, ActionLabel::MediaFailureCaller, 488, now),
        }
    }

    fn forward_provisional(
        &mut self,
        out: &mut Outbox,
        status: u16,
        sdp: Option<SdpBody>,
        ring: bool,
        now: u64,
    ) -> (result: Result<(), CallError>)
        requires
            old(self).wf(),
        ensures
            (*final(self), final(out)@, result) == old(self).provisional_forwarded(
                old(out)@,
                status,
                sdp,
                ring,
                now,
            ),
            final(self).wf(),
    {
        proof {
            reveal(CallCore::provisional_forwarded);
        }
        match self.submit(
            out,
            SessionRef::Caller,
            ActionKind::ForwardProvisional,
            ActionLabel::Provisional { status },
            ActionBody::Provisional { status, sdp },
        ) {
            Err(error) => Err(error),
            Ok(_) => {
                if ring {
                    self.start_timer(CallTimerKind::Ring, now);
                    Ok(())
                } else {
                    Ok(())
                }
            },
        }
    }

    pub fn handle_provisional(
        &mut self,
        out: &mut Outbox,
        status_code: Option<u16>,
        sdp: Option<SdpBody>,
        now: u64,
    ) -> (result: Result<(), CallError>)
        requires
            old(self).wf(),
        ensures
            (*final(self), final(out)@, result) == old(self).provisional(
                old(out)@,
                status_code,
                sdp,
                now,
            ),
            final(self).wf(),
    {
        proof {
            reveal(CallCore::provisional);
        }
        self.cancel_timer(CallTimerKind::Dial);
        let status: u16 = match status_code {
            Some(code) => code,
            None => 180,
        };
        self.last_status = Some(status);
        self.state = CallState::Establishing;
        let ring = (status == 180 || status == 183) && self.timers.ring.generation == 0;
        self.pass_progress(out, status, ring, sdp, now)
    }

    fn pass_progress(
        &mut self,
        out: &mut Outbox,
        status: u16,
        ring: bool,
        sdp: Option<SdpBody>,
        now: u64,
    ) -> (result: Result<(), CallError>)
        requires
            old(self).wf(),
        ensures
            (*final(self), final(out)@, result) == old(self).progress_passed(
                old(out)@,
                status,
                ring,
                sdp,
                now,
            ),
            final(self).wf(),
    {
        proof {
            reveal(CallCore::progress_passed);
        }
        match sdp {
            Some(body) => {
                if !self.has_media {
                    return self.fail_media_negotiation(out, ActionKind::CancelOutbound, now);
                }
                self.media_generation = self.media_generation.saturating_add(1);
                match out.request(
                    MediaRequest::PrepareCallerSdp {
                        generation: self.media_generation,
                        purpose: PrepareSdpPurpose::Provisional {
                            status_code: status,
                            start_ring_timer: ring,
                        },
                        sdp: body,
                    },
                ) {
                    Err(error) => Err(error),
                    Ok(_) => {
                        out.push(CallEffect::PublishView);
                        Ok(())
                    },
                }
            },
            None => match self.forward_provisional(out, status, None, ring, now) {
                Err(error) => Err(error),
                Ok(_) => {
                    out.push(CallEffect::PublishView);
                    Ok(())
                },
            },
        }
    }

    pub fn handle_answered(
        &mut self,
        out: &mut Outbox,
        sdp: Option<SdpBody>,
        payload_types: Vec<u8>,
        now: u64,
    ) -> (result: Result<(), CallError>)
        requires
            old(self).wf(),
        ensures
            (*final(self), final(out)@, result) == old(self).callee_answered(
                old(out)@,
                sdp,
                payload_types,
                now,
            ),
            final(self).wf(),
    {
        proof {
            reveal(CallCore::callee_answered);
        }
        self.cancel_timer(CallTimerKind::Dial);
        match self.retry_after_late_answer(out, now) {
            Err(error) => return Err(error),
            Ok(retried) => {
                if retried {
                    return Ok(());
                }
            },
        }
        if self.is_answered() || self.pending_answer.is_some() {
            return Ok(());
        }
        if self.is_terminating() {
            if self.late_answer_cleanup_sent {
                return Ok(());
            }
            self.late_answer_cleanup_sent = true;
            return self.submit(
                out,
                self.callee_session(),
                ActionKind::HangupDialog,
                ActionLabel::HangupLateAnswer,
                ActionBody::Empty,
            );
        }
        match sdp {
            None => self.fail_media_negotiation(out, ActionKind::HangupDialog, now),
            Some(body) => {
                if !self.has_media {
                    return self.fail_media_negotiation(out, ActionKind::HangupDialog, now);
                }
                self.media_generation = self.media_generation.saturating_add(1);
                self.answer_in_progress = true;
                out.request(
                    MediaRequest::PrepareCallerSdp {
                        generation: self.media_generation,
                        purpose: PrepareSdpPurpose::Answer { payload_types },
                        sdp: body,
                    },
                )
            },
        }
    }

    pub fn complete_answer(&mut self, out: &mut Outbox, caller_answer: SdpBody, payload_types: Vec<u8>) -> (result:
        Result<(), CallError>)
        requires
            old(self).wf(),
        ensures
            (*final(self), final(out)@, result) == old(self).answer_sent(
                old(out)@,
                caller_answer,
                payload_types,
            ),
            final(self).wf(),
    {
        proof {
            reveal(CallCore::answer_sent);
        }
        match self.submit(
            out,
            SessionRef::Caller,
            ActionKind::AnswerInboundInvite,
            ActionLabel::Answer,
            ActionBody::Answer { sdp: caller_answer },
        ) {
            Err(error) => Err(error),
            Ok(_) => {
                self.state = CallState::Answering;
                self.pending_answer = Some(payload_types);
                out.push(CallEffect::PublishView);
                Ok(())
            },
        }
    }

    fn settle(&mut self, out: &mut Outbox, start_cleanup: bool, now: u64)
        requires
            old(self).wf(),
        ensures
            (*final(self), final(out)@) == old(self).settled(old(out)@, start_cleanup, now),
            final(self).wf(),
    {
        proof {
            reveal(CallCore::settled);
        }
        if self.caller_terminated && self.callee_terminated {
            self.begin_finish_call();
        } else {
            out.push(CallEffect::PublishView);
            if start_cleanup {
                self.start_timer(CallTimerKind::Cleanup, now);
            }
        }
    }

    fn tell_and_settle(
        &mut self,
        out: &mut Outbox,
        tell: bool,
        session: SessionRef,
        kind: ActionKind,
        label: ActionLabel,
        body: ActionBody,
        now: u64,
    ) -> (result: Result<(), CallError>)
        requires
            old(self).wf(),
        ensures
            (*final(self), final(out)@, result) == old(self).told_and_settled(
                old(out)@,
                tell,
                old(self).action(session, kind, label, body),
                now,
            ),
            final(self).wf(),
    {
        proof {
            reveal(CallCore::told_and_settled);
        }
        if !tell {
            self.settle(out, false, now);
            return Ok(());
        }
        self.cancel_timer(CallTimerKind::Ring);
        match self.submit(out, session, kind, label, body) {
            Err(error) => Err(error),
            Ok(_) => {
                self.settle(out, true, now);
                Ok(())
            },
        }
    }

    pub fn handle_failed(
        &mut self,
        out: &mut Outbox,
        from_callee: bool,
        status_code: Option<u16>,
        now: u64,
    ) -> (result: Result<(), CallError>)
        requires
            old(self).wf(),
        ensures
            (*final(self), final(out)@, result) == old(self).callee_failed(
                old(out)@,
                from_callee,
                status_code,
                now,
            ),
            final(self).wf(),
    {
        proof {
            reveal(CallCore::callee_failed);
        }
        self.cancel_timer(CallTimerKind::Dial);
        let status: u16 = match status_code {
            Some(code) => code,
            None => 480,
        };
        match self.retry_after_attempt_ended(out, status, now) {
            Err(error) => return Err(error),
            Ok(retried) => {
                if retried {
                    return Ok(());
                }
            },
        }
        let tell = !self.is_terminating();
        self.last_status = status_code;
        self.state = CallState::Terminating;
        self.hangup_cause = Some(HangupCause::CallRejected);
        self.callee_terminated = self.callee_terminated || from_callee;
        self.tell_and_settle(
            out,
            tell,
            SessionRef::Caller,
            ActionKind::RejectInboundInvite,
            ActionLabel::Reject,
            ActionBody::Status(status),
            now,
        )
    }

    pub fn handle_cancelled(&mut self, out: &mut Outbox, now: u64) -> (result: Result<(), CallError>)
        requires
            old(self).wf(),
        ensures
            (*final(self), final(out)@, result) == old(self).caller_cancelled(old(out)@, now),
            final(self).wf(),
    {
        proof {
            reveal(CallCore::caller_cancelled);
        }
        self.cancel_timer(CallTimerKind::Dial);
        let tell = !self.is_terminating();
        self.caller_terminated = true;
        self.state = CallState::Terminating;
        self.hangup_cause = Some(HangupCause::OriginatorCancel);
        let (kind, label) = if self.is_answered() {
            (ActionKind::HangupDialog, ActionLabel::HangupAfterCancel)
        } else {
            (ActionKind::CancelOutbound, ActionLabel::Cancel)
        };
        self.tell_and_settle(
            out,
            tell,
            self.callee_session(),
            kind,
            label,
            ActionBody::Reason(CancelReason::CallerCancelled),
            now,
        )
    }

    pub fn handle_disconnected(
        &mut self,
        out: &mut Outbox,
        session: Option<SessionRef>,
        status_code: Option<u16>,
        now: u64,
    ) -> (result: Result<(), CallError>)
        requires
            old(self).wf(),
        ensures
            (*final(self), final(out)@, result) == old(self).disconnected(
                old(out)@,
                session,
                status_code,
                now,
            ),
            final(self).wf(),
    {
        proof {
            reveal(CallCore::disconnected);
        }
        let from_callee = is_session(session, self.callee_session());
        let from_caller = is_session(session, SessionRef::Caller);
        if from_callee && self.retry_after_cleanup.is_some() {
            let status: u16 = match status_code {
                Some(code) => code,
                None => 487,
            };
            return match self.retry_after_attempt_ended(out, status, now) {
                Err(error) => Err(error),
                Ok(_) => Ok(()),
            };
        }
        self.cancel_timer(CallTimerKind::Dial);
        let tell = !self.is_terminating();
        self.state = CallState::Terminating;
        self.last_status = if status_code.is_some() {
            status_code
        } else {
            self.last_status
        };
        self.hangup_cause = first_cause(self.hangup_cause, HangupCause::NormalClearing);
        self.caller_terminated = self.caller_terminated || from_caller;
        self.callee_terminated = self.callee_terminated || from_callee;
        let peer = if from_caller {
            self.callee_session()
        } else {
            SessionRef::Caller
        };
        self.tell_and_settle(
            out,
            tell,
            peer,
            ActionKind::HangupDialog,
            ActionLabel::Hangup,
            ActionBody::Empty,
            now,
        )
    }

    pub fn confirm_answer(
        &mut self,
        out: &mut Outbox,
        current: bool,
        recording_requested: bool,
        ai_capture: bool,
        now_ms: u64,
        now: u64,
    ) -> (result: Result<(), CallError>)
        requires
            old(self).wf(),
        ensures
            (*final(self), final(out)@, result) == old(self).answer_confirmed(
                old(out)@,
                current,
                recording_requested,
                ai_capture,
                now_ms,
                now,
            ),
            final(self).wf(),
    {
        proof {
            reveal(CallCore::answer_confirmed);
        }
        let payload_types = match self.pending_answer.take() {
            None => return Ok(()),
            Some(payload_types) => payload_types,
        };
        if !current || self.is_terminating() {
            self.answer_in_progress = false;
            return Ok(());
        }
        self.state = CallState::Connected;
        match out.topology.answered {
            AnswerRuling::Accepted => {},
            AnswerRuling::AttemptRefused => return Err(CallError::TopologyRefused),
            AnswerRuling::BridgeRefused => {
                self.answered_at_ms = Some(now_ms);
                return Err(CallError::TopologyRefused);
            },
        }
        out.push(
            CallEffect::Topology(
                TopologyChange::Answered {
                    attempt: self.current_attempt_seq,
                    at_ms: now_ms,
                    media_generation: self.media_generation,
                },
            ),
        );
        self.answered_at_ms = Some(now_ms);
        self.has_bridge = true;
        self.last_status = Some(200);
        self.cancel_timer(CallTimerKind::Ring);
        let recording_from_ms = if recording_requested {
            Some(now_ms)
        } else {
            None
        };
        match out.request(
            MediaRequest::StartAnswerMedia {
                generation: self.media_generation,
                recording_from_ms,
                payload_types,
                allow_fast_path: !recording_requested && !ai_capture,
            },
        ) {
            Err(error) => return Err(error),
            Ok(_) => {},
        }
        self.answer_in_progress = false;
        out.push(CallEffect::PublishView);
        match self.deferred_callee_disconnect {
            None => Ok(()),
            Some(waiting) => {
                self.deferred_callee_disconnect = None;
                let leg = SessionRef::CalleeAttempt(waiting.attempt_seq);
                self.handle_disconnected(out, Some(leg), waiting.status_code, now)
            },
        }
    }

    pub fn handle_sdp_prepared(
        &mut self,
        out: &mut Outbox,
        generation: u64,
        purpose: PrepareSdpPurpose,
        prepared: Option<SdpBody>,
        now: u64,
    ) -> (result: Result<(), CallError>)
        requires
            old(self).wf(),
        ensures
            (*final(self), final(out)@, result) == old(self).sdp_prepared(
                old(out)@,
                generation,
                purpose,
                prepared,
                now,
            ),
            final(self).wf(),
    {
        proof {
            reveal(CallCore::sdp_prepared);
        }
        if generation != self.media_generation || self.is_terminating() {
            return Ok(());
        }
        match purpose {
            PrepareSdpPurpose::CalleeAttemptOffer { attempt_seq } => {
                self.handle_attempt_offer_prepared(out, attempt_seq, prepared, now)
            },
            PrepareSdpPurpose::Provisional { status_code, start_ring_timer } => match prepared {
                None => self.fail_media_negotiation(out, ActionKind::CancelOutbound, now),
                Some(sdp) => self.forward_provisional(
                    out,
                    status_code,
                    Some(sdp),
                    start_ring_timer,
                    now,
                ),
            },
            PrepareSdpPurpose::Answer { payload_types } => match prepared {
                None => self.fail_media_negotiation(out, ActionKind::HangupDialog, now),
                Some(sdp) => self.complete_answer(out, sdp, payload_types),
            },
        }
    }

    pub fn handle_answer_media_started(
        &mut self,
        out: &mut Outbox,
        generation: u64,
        recording_error: Option<String>,
        now_ms: u64,
    ) -> (result: Result<(), CallError>)
        requires
            old(self).wf(),
        ensures
            (*final(self), final(out)@, result) == old(self).answer_media_started(
                old(out)@,
                generation,
                recording_error,
                now_ms,
            ),
            final(self).wf(),
    {
        proof {
            reveal(CallCore::answer_media_started);
        }
        if generation != self.media_generation {
            return Ok(());
        }
        self.recording_start_error = match recording_error {
            Some(error) => Some(error),
            None => self.recording_start_error.take(),
        };
        if !self.has_bridge {
            return Err(CallError::BridgeMissing);
        }
        if !out.topology.bridge_active {
            return Err(CallError::TopologyRefused);
        }
        out.push(
            CallEffect::Topology(TopologyChange::BridgeActive { generation, at_ms: now_ms }),
        );
        out.push(CallEffect::PublishView);
        Ok(())
    }

    pub fn handle_action_failure(
        &mut self,
        out: &mut Outbox,
        originate: bool,
        peer_failure: bool,
        now: u64,
    ) -> (result: Result<(), CallError>)
        requires
            old(self).wf(),
        ensures
            (*final(self), final(out)@, result) == old(self).action_failed(
                old(out)@,
                originate,
                peer_failure,
                now,
            ),
            final(self).wf(),
    {
        proof {
            reveal(CallCore::action_failed);
        }
        if peer_failure && originate && self.has_retry_candidate(503, now) {
            self.callee_terminated = true;
            return match self.begin_next_attempt(out, 503, now) {
                Err(error) => Err(error),
                Ok(begun) => {
                    if begun {
                        Ok(())
                    } else {
                        self.end_after_failure(out, originate, peer_failure, now)
                    }
                },
            };
        }
        self.end_after_failure(out, originate, peer_failure, now)
    }

    fn end_after_failure(
        &mut self,
        out: &mut Outbox,
        originate: bool,
        peer_failure: bool,
        now: u64,
    ) -> (result: Result<(), CallError>)
        requires
            old(self).wf(),
        ensures
            (*final(self), final(out)@, result) == old(self).failure_ended(
                old(out)@,
                originate,
                peer_failure,
                now,
            ),
            final(self).wf(),
    {
        proof {
            reveal(CallCore::failure_ended);
        }
        if self.is_terminating() {
            return Ok(());
        }
        self.state = CallState::Terminating;
        self.last_status = if self.last_status.is_some() {
            self.last_status
        } else {
            Some(503)
        };
        self.hangup_cause = Some(HangupCause::InternalError);
        self.cancel_timer(CallTimerKind::Dial);
        self.cancel_timer(CallTimerKind::Ring);
        self.callee_terminated = self.callee_terminated || peer_failure;
        if originate {
            return self.refuse(out, ActionLabel::RejectActionFailure, 503, now);
        }
        self.start_timer(CallTimerKind::Cleanup, now);
        out.push(CallEffect::PublishView);
        Ok(())
    }

    pub fn shutdown(&mut self, owner: SessionRef)
        requires
            old(self).wf(),
        ensures
            *final(self) == old(self).shut_down(owner),
            final(self).wf(),
    {
        proof {
            reveal(CallCore::shut_down);
        }
        self.begin_terminating(HangupCause::InternalError);
        self.caller_terminated = self.caller_terminated || owner == SessionRef::Caller;
        self.callee_terminated = self.callee_terminated || owner == self.callee_session();
        self.begin_finish_call();
    }

    pub fn complete_processing(&mut self, result: Result<(), CallError>) -> (goes_on: bool)
        requires
            old(self).wf(),
        ensures
            (*final(self), goes_on) == old(self).processed(result),
            final(self).wf(),
    {
        proof {
            reveal(CallCore::processed);
        }
        if result.is_err() {
            self.begin_terminating(HangupCause::InternalError);
            self.begin_finish_call();
            return true;
        }
        if self.finalized {
            return false;
        }
        if self.caller_terminated && self.callee_terminated {
            self.begin_finish_call();
        }
        true
    }

    pub fn start(&mut self, out: &mut Outbox, callee_offer: SdpBody, now: u64)
        requires
            old(self).wf(),
        ensures
            (*final(self), final(out)@) == old(self).begun(old(out)@, callee_offer, now),
            final(self).wf(),
    {
        proof {
            reveal(CallCore::begun);
        }
        if self.actor_started {
            return;
        }
        self.actor_started = true;
        let mut result = self.submit(
            out,
            SessionRef::Caller,
            ActionKind::AdoptInboundInvite,
            ActionLabel::Adopt,
            ActionBody::Empty,
        );
        if result.is_ok() {
            result =
            self.submit(
                out,
                self.callee_session(),
                ActionKind::Originate,
                ActionLabel::Originate { attempt: self.current_attempt_seq },
                ActionBody::Originate { candidate: self.current_candidate, sdp: callee_offer },
            );
        }
        if result.is_err() {
            self.begin_terminating(HangupCause::InternalError);
            self.hangup_cause = Some(HangupCause::InternalError);
            self.begin_finish_call();
            return;
        }
        if !self.finalization_started {
            self.start_timer(CallTimerKind::Dial, now);
            out.push(CallEffect::PublishView);
        }
    }
}

/// The first cause given stands.
fn first_cause(known: Option<HangupCause>, cause: HangupCause) -> (first: Option<HangupCause>)
    ensures
        first == (match known {
            Some(known) => Some(known),
            None => Some(cause),
        }),
{
    match known {
        Some(known) => Some(known),
        None => Some(cause),
    }
}

fn is_session(session: Option<SessionRef>, wanted: SessionRef) -> (same: bool)
    ensures
        same == (session == Some(wanted)),
{
    match session {
        Some(session) => session == wanted,
        None => false,
    }
}

} // verus!
