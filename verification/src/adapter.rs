//! The connection to the SIP adapter: what each frame that comes in is for, which
//! session it belongs to, and which offered calls are taken up.

use crate::call::actor::AttemptRegistrationResult;
use crate::call::event::{is_call_leg_event, names_leg_event, CallActionAck, CallLegEvent};
use crate::call::session::{ManagerState, Owner, SessionManager};
use crate::keyed::KeyedMap;
use crate::text::{
    begins_with, decimal, decimal_text, join2, join3, opt_text, same_text, starts_with,
};
use vstd::prelude::*;

verus! {

/// How many offered calls are taken up at a time.
pub const CALL_ADMISSION_CAPACITY: usize = 256;

pub const RUNTIME_INBOUND_QUEUE_CAPACITY: usize = 50_000;

pub const PROTOCOL_VERSION: u16 = 1;

pub const HEARTBEAT_INTERVAL_MS: u64 = 5_000;

pub const ADVERTISED_WRITE_TIMEOUT_MS: u64 = 100;

/// A frame between the switch and the adapter.
#[derive(Debug)]
pub struct RuntimeEnvelope {
    pub version: u16,
    pub kind: String,
    pub frame_type: String,
    pub request_id: Option<String>,
    pub domain_id: Option<String>,
    pub timestamp_ms: u64,
    pub body: serde_json::Value,
}

impl RuntimeEnvelope {
    pub fn new(
        kind: &str,
        frame_type: &str,
        request_id: Option<String>,
        body: serde_json::Value,
        timestamp_ms: u64,
    ) -> (envelope: Self)
        ensures
            envelope.version == PROTOCOL_VERSION,
            envelope.kind@ == kind@,
            envelope.frame_type@ == frame_type@,
            envelope.request_id == request_id,
            envelope.domain_id is None,
            envelope.timestamp_ms == timestamp_ms,
            envelope.body == body,
    {
        RuntimeEnvelope {
            version: PROTOCOL_VERSION,
            kind: kind.to_owned(),
            frame_type: frame_type.to_owned(),
            request_id,
            domain_id: None,
            timestamp_ms,
            body,
        }
    }
}

/// What the first frame of an adapter is answered.
pub enum HelloReply {
    Refused { code: String, message: String },
    Accepted(CoreHello),
}

pub struct CoreHello {
    pub core_instance_id: String,
    pub core_session_id: String,
    pub protocol_version: u16,
    pub heartbeat_interval_ms: u64,
    pub write_timeout_ms: u64,
}

/// Answers the first frame. An adapter has to introduce itself.
pub fn answer_hello(frame_type: &str, instance_id: &str, started_at_ms: u64) -> (reply: HelloReply)
    ensures
        match reply {
            HelloReply::Refused { code, message } => {
                &&& frame_type@ != "AdapterHello"@
                &&& code@ == "expected_adapter_hello"@
                &&& message@ == "first frame must be AdapterHello"@
            },
            HelloReply::Accepted(hello) => {
                &&& frame_type@ == "AdapterHello"@
                &&& hello.core_instance_id@ == instance_id@
                &&& hello.core_session_id@ == instance_id@ + "-"@ + decimal(started_at_ms as nat)
                &&& hello.protocol_version == PROTOCOL_VERSION
                &&& hello.heartbeat_interval_ms == HEARTBEAT_INTERVAL_MS
                &&& hello.write_timeout_ms == ADVERTISED_WRITE_TIMEOUT_MS
            },
        },
{
    if !same_text(frame_type, "AdapterHello") {
        return HelloReply::Refused {
            code: "expected_adapter_hello".to_owned(),
            message: "first frame must be AdapterHello".to_owned(),
        };
    }
    HelloReply::Accepted(
        CoreHello {
            core_instance_id: instance_id.to_owned(),
            core_session_id: join3(instance_id, "-", decimal_text(started_at_ms).as_str()),
            protocol_version: PROTOCOL_VERSION,
            heartbeat_interval_ms: HEARTBEAT_INTERVAL_MS,
            write_timeout_ms: ADVERTISED_WRITE_TIMEOUT_MS,
        },
    )
}

/// What a frame is for.
#[derive(Debug, Clone, Copy, PartialEq, Eq, Structural)]
pub enum FrameKind {
    InviteOffered,
    LegEvent,
    SipDtmfReceived,
    DtmfInfoSendResult,
    CallActionAck,
    ApplyRuntimeViewAck,
    AdapterReady,
    RegistrationSnapshotBegin,
    RegistrationChanged,
    RegistrationSnapshotEnd,
    TrunkRegistrationChanged,
    TrunkHealthChanged,
    SipTraceObserved,
    Other,
}

pub open spec fn kind_of(frame_type: Seq<char>) -> FrameKind {
    if frame_type == "InboundInviteOffered"@ {
        FrameKind::InviteOffered
    } else if names_leg_event(frame_type) {
        FrameKind::LegEvent
    } else if frame_type == "SipDtmfReceived"@ {
        FrameKind::SipDtmfReceived
    } else if frame_type == "DtmfInfoSendResult"@ {
        FrameKind::DtmfInfoSendResult
    } else if frame_type == "CallActionAck"@ {
        FrameKind::CallActionAck
    } else if frame_type == "ApplyRuntimeViewAck"@ {
        FrameKind::ApplyRuntimeViewAck
    } else if frame_type == "AdapterReady"@ {
        FrameKind::AdapterReady
    } else if frame_type == "RegistrationSnapshotBegin"@ {
        FrameKind::RegistrationSnapshotBegin
    } else if frame_type == "RegistrationChanged"@ {
        FrameKind::RegistrationChanged
    } else if frame_type == "RegistrationSnapshotEnd"@ {
        FrameKind::RegistrationSnapshotEnd
    } else if frame_type == "TrunkRegistrationChanged"@ {
        FrameKind::TrunkRegistrationChanged
    } else if frame_type == "TrunkHealthChanged"@ {
        FrameKind::TrunkHealthChanged
    } else if frame_type == "SipTraceObserved"@ {
        FrameKind::SipTraceObserved
    } else {
        FrameKind::Other
    }
}

pub fn frame_kind(frame_type: &str) -> (kind: FrameKind)
    ensures
        kind == kind_of(frame_type@),
{
    if same_text(frame_type, "InboundInviteOffered") {
        FrameKind::InviteOffered
    } else if is_call_leg_event(frame_type) {
        FrameKind::LegEvent
    } else if same_text(frame_type, "SipDtmfReceived") {
        FrameKind::SipDtmfReceived
    } else if same_text(frame_type, "DtmfInfoSendResult") {
        FrameKind::DtmfInfoSendResult
    } else if same_text(frame_type, "CallActionAck") {
        FrameKind::CallActionAck
    } else if same_text(frame_type, "ApplyRuntimeViewAck") {
        FrameKind::ApplyRuntimeViewAck
    } else if same_text(frame_type, "AdapterReady") {
        FrameKind::AdapterReady
    } else if same_text(frame_type, "RegistrationSnapshotBegin") {
        FrameKind::RegistrationSnapshotBegin
    } else if same_text(frame_type, "RegistrationChanged") {
        FrameKind::RegistrationChanged
    } else if same_text(frame_type, "RegistrationSnapshotEnd") {
        FrameKind::RegistrationSnapshotEnd
    } else if same_text(frame_type, "TrunkRegistrationChanged") {
        FrameKind::TrunkRegistrationChanged
    } else if same_text(frame_type, "TrunkHealthChanged") {
        FrameKind::TrunkHealthChanged
    } else if same_text(frame_type, "SipTraceObserved") {
        FrameKind::SipTraceObserved
    } else {
        FrameKind::Other
    }
}

/// What becomes of a frame whose body cannot be read: frames about digits and actions
/// are dropped, with the others the connection ends for the reason given.
pub fn unreadable_frame(frame_type: &str) -> (fault: Option<String>)
    ensures
        match kind_of(frame_type@) {
            FrameKind::SipDtmfReceived
            | FrameKind::DtmfInfoSendResult
            | FrameKind::CallActionAck
            | FrameKind::RegistrationSnapshotBegin
            | FrameKind::RegistrationSnapshotEnd
            | FrameKind::Other => fault is None,
            _ => opt_text(fault) == Some("decode "@ + frame_type@),
        },
{
    match frame_kind(frame_type) {
        FrameKind::SipDtmfReceived
        | FrameKind::DtmfInfoSendResult
        | FrameKind::CallActionAck
        | FrameKind::RegistrationSnapshotBegin
        | FrameKind::RegistrationSnapshotEnd
        | FrameKind::Other => None,
        _ => Some(join2("decode ", frame_type)),
    }
}

/// What is mirrored of the adapter, and whether it is complete.
#[derive(Debug, Clone, Copy, PartialEq, Eq, Structural)]
pub struct MirrorState {
    pub registrations_ready: bool,
    pub trunks_ready: bool,
}

impl MirrorState {
    /// An adapter that is ready has yet to send its registrations; the end of their
    /// list completes them.
    pub open spec fn after(self, kind: FrameKind) -> Self {
        match kind {
            FrameKind::AdapterReady => MirrorState {
                registrations_ready: false,
                trunks_ready: true,
            },
            FrameKind::RegistrationSnapshotEnd => MirrorState { registrations_ready: true, ..self },
            _ => self,
        }
    }

    pub fn take_frame(&mut self, kind: FrameKind)
        ensures
            *final(self) == old(self).after(kind),
    {
        match kind {
            FrameKind::AdapterReady => {
                self.registrations_ready = false;
                self.trunks_ready = true;
            },
            FrameKind::RegistrationSnapshotEnd => {
                self.registrations_ready = true;
            },
            _ => {},
        }
    }

    /// Once the last adapter has gone, nothing that is mirrored counts. Says whether
    /// it was the last.
    pub fn adapter_left(&mut self, remaining: usize) -> (last: bool)
        ensures
            last == (remaining == 0),
            *final(self) == (if last {
                MirrorState { registrations_ready: false, trunks_ready: false }
            } else {
                *old(self)
            }),
    {
        if remaining == 0 {
            self.registrations_ready = false;
            self.trunks_ready = false;
            true
        } else {
            false
        }
    }
}

/// What becomes of an offered call.
#[derive(Debug, Clone, Copy, PartialEq, Eq, Structural)]
pub enum InviteDecision {
    /// The same call is being taken up already.
    Duplicate,
    /// Too many calls are being taken up: it is refused with 503.
    Overloaded,
    TakeUp,
}

/// The offered calls that are being taken up.
pub struct InviteAdmission {
    pub inflight: KeyedMap<bool>,
    pub permits: usize,
}

pub struct AdmissionState {
    pub inflight: Set<Seq<char>>,
    pub permits: nat,
}

impl AdmissionState {
    pub open spec fn decision(self, leg: Seq<char>) -> InviteDecision {
        if self.inflight.contains(leg) {
            InviteDecision::Duplicate
        } else if self.permits == 0 {
            InviteDecision::Overloaded
        } else {
            InviteDecision::TakeUp
        }
    }

    pub open spec fn offered(self, leg: Seq<char>) -> Self {
        if self.decision(leg) == InviteDecision::TakeUp {
            AdmissionState {
                inflight: self.inflight.insert(leg),
                permits: (self.permits - 1) as nat,
            }
        } else {
            self
        }
    }
}

impl InviteAdmission {
    pub open spec fn view(&self) -> AdmissionState {
        AdmissionState { inflight: self.inflight@.dom(), permits: self.permits as nat }
    }

    pub open spec fn wf(self) -> bool {
        self.inflight.wf() && self.permits <= CALL_ADMISSION_CAPACITY
    }

    pub fn new() -> (admission: Self)
        ensures
            admission.wf(),
            admission@.inflight == Set::<Seq<char>>::empty(),
            admission@.permits == CALL_ADMISSION_CAPACITY,
    {
        let admission = InviteAdmission {
            inflight: KeyedMap::new(),
            permits: CALL_ADMISSION_CAPACITY,
        };
        assert(admission@.inflight =~= Set::<Seq<char>>::empty());
        admission
    }

    pub fn offer(&mut self, adapter_call_leg_id: &str) -> (decision: InviteDecision)
        requires
            old(self).wf(),
        ensures
            final(self).wf(),
            decision == old(self)@.decision(adapter_call_leg_id@),
            final(self)@ == old(self)@.offered(adapter_call_leg_id@),
    {
        if self.inflight.contains(adapter_call_leg_id) {
            return InviteDecision::Duplicate;
        }
        if self.permits == 0 {
            return InviteDecision::Overloaded;
        }
        self.inflight.insert(adapter_call_leg_id.to_owned(), true);
        self.permits = self.permits - 1;
        assert(self@.inflight =~= old(self)@.inflight.insert(adapter_call_leg_id@));
        InviteDecision::TakeUp
    }

    /// A call was taken up or refused: another may follow.
    pub fn release_permit(&mut self)
        requires
            old(self).wf(),
            old(self)@.permits < CALL_ADMISSION_CAPACITY,
        ensures
            final(self).wf(),
            final(self)@.inflight == old(self)@.inflight,
            final(self)@.permits == old(self)@.permits + 1,
    {
        self.permits = self.permits + 1;
    }

    /// The outcome of an offered call was noted.
    pub fn finished(&mut self, adapter_call_leg_id: &str)
        requires
            old(self).wf(),
        ensures
            final(self).wf(),
            final(self)@.inflight == old(self)@.inflight.remove(adapter_call_leg_id@),
            final(self)@.permits == old(self)@.permits,
    {
        let _ = self.inflight.remove(adapter_call_leg_id);
        assert(self@.inflight =~= old(self)@.inflight.remove(adapter_call_leg_id@));
    }
}

/// An offer that is repeated while the call is being taken up changes nothing, and one
/// that is repeated after that is a new call.
pub proof fn lemma_repeated_offer_is_ignored(before: AdmissionState, leg: Seq<char>)
    requires
        before.decision(leg) == InviteDecision::TakeUp,
    ensures
        before.offered(leg).decision(leg) == InviteDecision::Duplicate,
        before.offered(leg).offered(leg) == before.offered(leg),
        (AdmissionState {
            inflight: before.offered(leg).inflight.remove(leg),
            permits: before.permits,
        }).decision(leg) == InviteDecision::TakeUp,
{
}

/// Whom a frame is handed to.
pub enum Addressee {
    Session(String),
    Coordinator(String),
    Nobody,
}

impl Addressee {
    pub open spec fn view(&self) -> Destination {
        match self {
            Addressee::Session(session) => Destination::Session(session@),
            Addressee::Coordinator(call) => Destination::Coordinator(call@),
            Addressee::Nobody => Destination::Nobody,
        }
    }
}

pub enum Destination {
    Session(Seq<char>),
    Coordinator(Seq<char>),
    Nobody,
}

pub open spec fn to_session<H>(state: ManagerState<H>, session: Seq<char>) -> Destination {
    if state.sessions.contains_key(session) {
        Destination::Session(session)
    } else {
        Destination::Nobody
    }
}

pub open spec fn to_coordinator<H>(state: ManagerState<H>, call: Seq<char>) -> Destination {
    if state.reachable(call) {
        Destination::Coordinator(call)
    } else {
        Destination::Nobody
    }
}

/// A leg event goes to the session it names, and where it names none, to the session of
/// its leg.
pub open spec fn leg_event_destination<H>(state: ManagerState<H>, event: CallLegEvent) -> Destination {
    match event.session_id {
        Some(session) => to_session(state, session@),
        None => if state.legs.contains_key(event.adapter_call_leg_id@) {
            to_session(state, state.legs[event.adapter_call_leg_id@])
        } else {
            Destination::Nobody
        },
    }
}

fn address_session<H>(manager: &SessionManager<H>, session_id: &str) -> (addressee: Addressee)
    requires
        manager.wf(),
    ensures
        addressee@ == to_session(manager@, session_id@),
{
    match manager.lookup_by_session(session_id) {
        Some(_) => Addressee::Session(session_id.to_owned()),
        None => Addressee::Nobody,
    }
}

pub fn address_leg_event<H>(manager: &SessionManager<H>, event: &CallLegEvent) -> (addressee:
    Addressee)
    requires
        manager.wf(),
    ensures
        addressee@ == leg_event_destination(manager@, *event),
{
    match &event.session_id {
        Some(session) => address_session(manager, session.as_str()),
        None => match manager.lookup_by_adapter_leg(event.adapter_call_leg_id.as_str()) {
            Some(session) => address_session(manager, session),
            None => Addressee::Nobody,
        },
    }
}

/// A digit goes to the session it came in on.
pub fn address_digit<H>(manager: &SessionManager<H>, session_id: &str) -> (addressee: Addressee)
    requires
        manager.wf(),
    ensures
        addressee@ == to_session(manager@, session_id@),
{
    address_session(manager, session_id)
}

/// The outcome of a digit that was sent goes to the coordinator of the call.
pub fn address_info_result<H>(manager: &SessionManager<H>, call_id: &str) -> (addressee:
    Addressee)
    requires
        manager.wf(),
    ensures
        addressee@ == to_coordinator(manager@, call_id@),
{
    match manager.coordinator_handle(call_id) {
        Some(_) => Addressee::Coordinator(call_id.to_owned()),
        None => Addressee::Nobody,
    }
}

/// The leg that an acknowledgement makes known.
pub open spec fn originated_leg(ack: CallActionAck) -> Option<Seq<char>> {
    if ack.counts_as_accepted() && begins_with(ack.action_kind@, "Originate"@) {
        opt_text(ack.result.adapter_call_leg_id)
    } else {
        None
    }
}

pub open spec fn ack_taken<H>(state: ManagerState<H>, ack: CallActionAck) -> ManagerState<H> {
    match originated_leg(ack) {
        Some(leg) => if state.sessions.contains_key(ack.session_id@) {
            state.leg_bound(ack.session_id@, leg)
        } else {
            state
        },
        None => state,
    }
}

/// An acknowledgement of an action of the caller's session goes to the coordinator, any
/// other to its session.
pub open spec fn ack_destination<H>(state: ManagerState<H>, ack: CallActionAck) -> Destination {
    if state.originators.contains_key(ack.call_id@) && state.originators[ack.call_id@]
        == ack.session_id@ {
        to_coordinator(state, ack.call_id@)
    } else {
        to_session(state, ack.session_id@)
    }
}

/// Takes the acknowledgement of an action. One of an outbound call makes its leg known.
pub fn take_action_ack<H>(manager: &mut SessionManager<H>, ack: &CallActionAck) -> (addressee:
    Addressee)
    requires
        old(manager).wf(),
    ensures
        final(manager).wf(),
        final(manager)@ == ack_taken(old(manager)@, *ack),
        addressee@ == ack_destination(old(manager)@, *ack),
{
    if ack.accepted() && starts_with(ack.action_kind.as_str(), "Originate") {
        match ack.adapter_call_leg_id() {
            Some(leg) => {
                let _ = manager.bind_adapter_leg(ack.session_id.as_str(), leg);
            },
            None => {},
        }
    }
    let from_caller = match manager.caller_session(ack.call_id.as_str()) {
        Some(session) => same_text(session, ack.session_id.as_str()),
        None => false,
    };
    if from_caller {
        address_info_result(manager, ack.call_id.as_str())
    } else {
        address_session(manager, ack.session_id.as_str())
    }
}

/// The session of a new attempt, which the coordinator of a call wants registered.
pub struct AttemptRegistration<H> {
    pub call_id: String,
    pub coordinator_session_id: String,
    pub coordinator_generation: u64,
    pub previous_session_id: String,
    pub attempt_seq: u16,
    pub session_id: String,
    pub handle: H,
}

/// What follows a registration: the session that is to be shut down, and what the
/// coordinator is told, where there is one.
pub struct AttemptRegistered<H> {
    pub previous: Option<H>,
    pub result: Option<AttemptRegistrationResult>,
}

/// Whether the coordinator that asks is still there, and owns the call.
pub open spec fn asked_by_owner<H>(state: ManagerState<H>, registration: AttemptRegistration<H>) -> bool {
    &&& state.reachable(registration.call_id@)
    &&& state.owners.contains_key(registration.call_id@)
    &&& state.owners[registration.call_id@] == (Owner {
        session: registration.coordinator_session_id@,
        generation: registration.coordinator_generation,
    })
}

pub open spec fn attempt_registered<H>(
    state: ManagerState<H>,
    registration: AttemptRegistration<H>,
) -> ManagerState<H> {
    if asked_by_owner(state, registration) {
        state.unregistered(registration.previous_session_id@).callee_registered(
            registration.session_id@,
            registration.call_id@,
            registration.handle,
        )
    } else if state.reachable(registration.call_id@) {
        state
    } else {
        state.unregistered(registration.session_id@)
    }
}

/// Registers the session of a new attempt in place of the one before. Only the owner of
/// the call can have it done.
pub fn handle_attempt_registration<H>(
    manager: &mut SessionManager<H>,
    registration: AttemptRegistration<H>,
) -> (done: AttemptRegistered<H>)
    requires
        old(manager).wf(),
    ensures
        final(manager).wf(),
        final(manager)@ == attempt_registered(old(manager)@, registration),
        done.previous == (if asked_by_owner(old(manager)@, registration) && old(
            manager,
        )@.sessions.contains_key(registration.previous_session_id@) {
            Some(old(manager)@.sessions[registration.previous_session_id@])
        } else {
            None
        }),
        match done.result {
            Some(result) => {
                &&& old(manager)@.reachable(registration.call_id@)
                &&& result.attempt_seq == registration.attempt_seq
                &&& result.session_id == registration.session_id
                &&& result.registered == asked_by_owner(old(manager)@, registration)
            },
            None => !old(manager)@.reachable(registration.call_id@),
        },
{
    if manager.coordinator_handle(registration.call_id.as_str()).is_none() {
        let _ = manager.unregister_session(registration.session_id.as_str());
        return AttemptRegistered { previous: None, result: None };
    }
    let registered = match manager.coordinator_identity(registration.call_id.as_str()) {
        Some(identity) => {
            proof {
                let named = Owner {
                    session: registration.coordinator_session_id@,
                    generation: registration.coordinator_generation,
                };
                assert(identity@ == named <==> identity@.session == named.session
                    && identity@.generation == named.generation);
            }
            identity.session_id.eq(&registration.coordinator_session_id) && identity.generation
                == registration.coordinator_generation
        },
        None => false,
    };
    let attempt_seq = registration.attempt_seq;
    let session_id = registration.session_id.clone();
    let previous = if registered {
        let previous = manager.unregister_session(registration.previous_session_id.as_str());
        manager.register_callee(
            registration.session_id.as_str(),
            registration.call_id.as_str(),
            registration.handle,
        );
        previous
    } else {
        None
    };
    AttemptRegistered {
        previous,
        result: Some(AttemptRegistrationResult { attempt_seq, session_id, registered }),
    }
}

/// The coordinator could not be told that a session was registered: the session goes
/// again, and is to be shut down where it was there.
pub fn attempt_result_lost<H>(manager: &mut SessionManager<H>, session_id: &str) -> (handle: Option<
    H,
>)
    requires
        old(manager).wf(),
    ensures
        final(manager).wf(),
        final(manager)@ == old(manager)@.unregistered(session_id@),
        handle is Some <==> old(manager)@.sessions.contains_key(session_id@),
        handle matches Some(h) ==> h == old(manager)@.sessions[session_id@],
{
    manager.unregister_session(session_id)
}

/// A coordinator that has handed its call over can register nothing any more.
pub proof fn lemma_former_owner_registers_nothing<H>(
    state: ManagerState<H>,
    registration: AttemptRegistration<H>,
)
    requires
        state.reachable(registration.call_id@),
        state.owners[registration.call_id@].generation != registration.coordinator_generation,
    ensures
        attempt_registered(state, registration) == state,
{
}

/// A call whose outbound leg was acknowledged is found by that leg.
pub proof fn lemma_acknowledged_leg_is_found<H>(
    state: ManagerState<H>,
    ack: CallActionAck,
    event: CallLegEvent,
)
    requires
        originated_leg(ack) is Some,
        state.sessions.contains_key(ack.session_id@),
        event.session_id is None,
        Some(event.adapter_call_leg_id@) == originated_leg(ack),
    ensures
        leg_event_destination(ack_taken(state, ack), event) == Destination::Session(
            ack.session_id@,
        ),
{
}

} // verus!
