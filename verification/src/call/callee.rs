//! The session of one outbound leg. It never changes the call itself: what it
//! accepts, it reports to the owner of the call.

use crate::call::action::ActionIdentity;
use crate::call::actor::{ActionLog, ControlMessage};
use crate::call::dtmf::{
    from_source, valid_source_event, DigitEvent, DtmfSourceDecision, DtmfSourcePolicy,
    DtmfSourceState, SourceState,
};
use crate::call::event::{ActionDeliveryFailed, CallActionAck, CallLegEvent};
use crate::call::model::{session_id, session_name, LegState, SessionRef};
use crate::call::registry::{DeduperState, LegEventDeduper};
use crate::text::{opt_text, same_text};
use vstd::prelude::*;

verus! {

/// What the owner of the call is told.
pub enum PeerMessage {
    LegEvent { frame_type: String, event: CallLegEvent, payload_types: Vec<u8> },
    Digit(DigitEvent),
    ActionFailed(ActionDeliveryFailed),
}

#[derive(Debug, Clone, Copy, PartialEq, Eq, Structural)]
pub enum NextStep {
    GoOn,
    /// Goes on if the owner could be told.
    GoOnIfDelivered,
    Stop,
}

pub struct CalleeStep {
    pub message: Option<PeerMessage>,
    pub next: NextStep,
}

/// Why an action failed, in the adapter's words where it has any.
pub open spec fn rejection_text(ack: CallActionAck, otherwise: Seq<char>) -> Seq<char> {
    match (ack.result.message, ack.result.original_status) {
        (Some(message), _) => message@,
        (None, Some(status)) => status@,
        (None, None) => otherwise,
    }
}

pub fn rejection_reason(ack: &CallActionAck, otherwise: &str) -> (reason: String)
    ensures
        reason@ == rejection_text(*ack, otherwise@),
{
    match &ack.result.message {
        Some(message) => message.clone(),
        None => match &ack.result.original_status {
            Some(status) => status.clone(),
            None => otherwise.to_owned(),
        },
    }
}

#[verifier::ext_equal]
pub struct CalleeState {
    pub state: LegState,
    pub deduper: DeduperState,
    pub completed: Set<(Seq<char>, u64)>,
    pub source: SourceState,
}

impl CalleeState {
    /// A leg that is being dialled.
    pub open spec fn fresh() -> Self {
        CalleeState {
            state: LegState::Dialing,
            deduper: DeduperState::fresh(),
            completed: Set::empty(),
            source: SourceState::fresh(DtmfSourcePolicy::Auto),
        }
    }
}

pub struct CalleeSessionActor {
    pub session_id: String,
    pub call_id: String,
    pub domain_id: String,
    pub attempt_seq: u16,
    pub action_generation: u64,
    pub state: LegState,
    pub leg_event_deduper: LegEventDeduper,
    pub completed_actions: ActionLog,
    pub dtmf_source: DtmfSourceState,
}

/// The state of a leg after a frame of the given type.
pub open spec fn leg_state_after(state: LegState, frame: Seq<char>) -> LegState {
    if frame == "OutboundProvisional"@ {
        LegState::WaitForAnswer
    } else if frame == "OutboundAnswered"@ {
        LegState::Bridged
    } else if frame == "OutboundFailed"@ || frame == "DialogDisconnected"@ {
        LegState::Destroyed
    } else {
        state
    }
}

impl CalleeSessionActor {
    pub open spec fn view(&self) -> CalleeState {
        CalleeState {
            state: self.state,
            deduper: self.leg_event_deduper@,
            completed: self.completed_actions@,
            source: self.dtmf_source@,
        }
    }

    pub open spec fn wf(self) -> bool {
        self.leg_event_deduper@.wf() && self.dtmf_source@.wf()
    }

    /// The session of an attempt that begins.
    pub fn new(call_id: String, domain_id: String, attempt_seq: u16, action_generation: u64) -> (actor:
        Self)
        ensures
            actor.wf(),
            actor.call_id == call_id,
            actor.domain_id == domain_id,
            actor.attempt_seq == attempt_seq,
            actor.action_generation == action_generation,
            actor.session_id@ == session_name(call_id@, SessionRef::CalleeAttempt(attempt_seq)),
            actor@ == CalleeState::fresh(),
    {
        let session_id = session_id(call_id.as_str(), SessionRef::CalleeAttempt(attempt_seq));
        CalleeSessionActor {
            session_id,
            call_id,
            domain_id,
            attempt_seq,
            action_generation,
            state: LegState::Dialing,
            leg_event_deduper: LegEventDeduper::default(),
            completed_actions: ActionLog::new(),
            dtmf_source: DtmfSourceState::default(),
        }
    }

    /// Everything but what events change.
    pub open spec fn same_leg(self, other: Self) -> bool {
        self.session_id == other.session_id && self.call_id == other.call_id && self.domain_id
            == other.domain_id && self.attempt_seq == other.attempt_seq && self.action_generation
            == other.action_generation
    }

    pub open spec fn leg_event_counts(self, event: CallLegEvent) -> bool {
        &&& event.call_id is None || opt_text(event.call_id) == Some(self.call_id@)
        &&& self@.deduper.is_new(event.adapter_call_leg_id@, event.leg_event_seq)
    }

    pub fn accept_leg_event(&mut self, event: &CallLegEvent) -> (accepted: bool)
        requires
            old(self).wf(),
        ensures
            final(self).wf(),
            final(self).same_leg(*old(self)),
            accepted == old(self).leg_event_counts(*event),
            final(self)@ == (if accepted {
                CalleeState {
                    deduper: old(self)@.deduper.taken(
                        event.adapter_call_leg_id@,
                        event.leg_event_seq,
                    ),
                    ..old(self)@
                }
            } else {
                old(self)@
            }),
    {
        match &event.call_id {
            Some(call_id) => {
                if !call_id.eq(&self.call_id) {
                    return false;
                }
            },
            None => {},
        }
        self.leg_event_deduper.accept(event.adapter_call_leg_id.as_str(), event.leg_event_seq())
    }

    fn apply_leg_state(&mut self, frame_type: &str)
        ensures
            *final(self) == (CalleeSessionActor {
                state: leg_state_after(old(self).state, frame_type@),
                ..*old(self)
            }),
    {
        self.state = if same_text(frame_type, "OutboundProvisional") {
            LegState::WaitForAnswer
        } else if same_text(frame_type, "OutboundAnswered") {
            LegState::Bridged
        } else if same_text(frame_type, "OutboundFailed") || same_text(
            frame_type,
            "DialogDisconnected",
        ) {
            LegState::Destroyed
        } else {
            self.state
        };
    }

    /// The step that leaves everything as it is.
    pub open spec fn nothing_done(self, before: Self, step: CalleeStep) -> bool {
        self@ == before@ && step.message is None && step.next == NextStep::GoOn
    }

    /// A leg event that counts is reported; the session ends with its leg.
    pub open spec fn leg_event_reported(
        self,
        before: Self,
        step: CalleeStep,
        frame_type: String,
        event: CallLegEvent,
        payload_types: Vec<u8>,
    ) -> bool {
        if before.leg_event_counts(event) {
            let after = leg_state_after(before@.state, frame_type@);
            &&& self@ == (CalleeState {
                state: after,
                deduper: before@.deduper.taken(event.adapter_call_leg_id@, event.leg_event_seq),
                ..before@
            })
            &&& step.message == Some(PeerMessage::LegEvent { frame_type, event, payload_types })
            &&& step.next == (if after is Destroyed {
                NextStep::Stop
            } else {
                NextStep::GoOnIfDelivered
            })
        } else {
            self.nothing_done(before, step)
        }
    }

    /// A digit of this session is arbitrated, and reported where it counts.
    pub open spec fn digit_reported(self, before: Self, step: CalleeStep, event: DigitEvent) -> bool {
        if from_source(event, before.domain_id@, before.call_id@, before.session_id@) {
            &&& self@ == (CalleeState { source: before@.source.after(event), ..before@ })
            &&& if before@.source.decision(event) == DtmfSourceDecision::Accepted {
                step.message == Some(PeerMessage::Digit(event)) && step.next
                    == NextStep::GoOnIfDelivered
            } else {
                step.message is None && step.next == NextStep::GoOn
            }
        } else {
            self.nothing_done(before, step)
        }
    }

    /// A failed action of this leg is reported, and the session ends.
    pub open spec fn failure_reported(
        self,
        before: Self,
        step: CalleeStep,
        failure: ActionDeliveryFailed,
    ) -> bool {
        if before.result_is_current(failure.identity) {
            &&& self@ == (CalleeState { state: LegState::Destroyed, ..before@ })
            &&& step.message == Some(PeerMessage::ActionFailed(failure))
            &&& step.next == NextStep::Stop
        } else {
            self.nothing_done(before, step)
        }
    }

    /// The answer to an action of this leg counts once; a rejection is a failure.
    pub open spec fn ack_taken(self, before: Self, step: CalleeStep, ack: CallActionAck) -> bool {
        let key = (ack.action_id@, ack.generation);
        let completed = before@.completed.insert(key);
        if !before.result_is_current(ack.names()) || before@.completed.contains(key) {
            self.nothing_done(before, step)
        } else if ack.counts_as_accepted() {
            &&& self@ == (CalleeState { completed, ..before@ })
            &&& step.message is None
            &&& step.next == NextStep::GoOn
        } else {
            &&& self@ == (CalleeState { completed, state: LegState::Destroyed, ..before@ })
            &&& step.message matches Some(PeerMessage::ActionFailed(failure)) && failure.identity
                == ack.names() && failure.reason@ == rejection_text(
                ack,
                "adapter rejected call action"@,
            )
            &&& step.next == NextStep::Stop
        }
    }

    /// Reports a leg event that counts. The session ends with its leg.
    pub fn handle_leg_event(
        &mut self,
        frame_type: String,
        event: CallLegEvent,
        payload_types: Vec<u8>,
    ) -> (step: CalleeStep)
        requires
            old(self).wf(),
        ensures
            final(self).wf(),
            final(self).same_leg(*old(self)),
            final(self).leg_event_reported(*old(self), step, frame_type, event, payload_types),
    {
        if !self.accept_leg_event(&event) {
            return CalleeStep { message: None, next: NextStep::GoOn };
        }
        self.apply_leg_state(frame_type.as_str());
        let next = if self.state.is_terminal() {
            NextStep::Stop
        } else {
            NextStep::GoOnIfDelivered
        };
        CalleeStep {
            message: Some(PeerMessage::LegEvent { frame_type, event, payload_types }),
            next,
        }
    }

    /// Reports a digit that counts.
    pub fn handle_source_digit(&mut self, event: DigitEvent) -> (step: CalleeStep)
        requires
            old(self).wf(),
        ensures
            final(self).wf(),
            final(self).same_leg(*old(self)),
            final(self).digit_reported(*old(self), step, event),
    {
        if !valid_source_event(
            &event,
            self.domain_id.as_str(),
            self.call_id.as_str(),
            self.session_id.as_str(),
        ) {
            return CalleeStep { message: None, next: NextStep::GoOn };
        }
        match self.dtmf_source.accept(&event) {
            DtmfSourceDecision::Accepted => CalleeStep {
                message: Some(PeerMessage::Digit(event)),
                next: NextStep::GoOnIfDelivered,
            },
            _ => CalleeStep { message: None, next: NextStep::GoOn },
        }
    }

    pub open spec fn result_is_current(self, identity: ActionIdentity) -> bool {
        identity.call_id@ == self.call_id@ && identity.session_id@ == self.session_id@
            && identity.generation == self.action_generation
    }

    fn is_current(&self, identity: &ActionIdentity) -> (current: bool)
        ensures
            current == self.result_is_current(*identity),
    {
        identity.call_id.eq(&self.call_id) && identity.session_id.eq(&self.session_id)
            && identity.generation == self.action_generation
    }

    /// Reports a failed action of this leg, and ends the session.
    pub fn forward_action_failure(&mut self, failure: ActionDeliveryFailed) -> (step: CalleeStep)
        requires
            old(self).wf(),
        ensures
            final(self).wf(),
            final(self).same_leg(*old(self)),
            final(self).failure_reported(*old(self), step, failure),
    {
        if !self.is_current(&failure.identity) {
            return CalleeStep { message: None, next: NextStep::GoOn };
        }
        self.state = LegState::Destroyed;
        CalleeStep { message: Some(PeerMessage::ActionFailed(failure)), next: NextStep::Stop }
    }

    /// Takes the answer to an action of this leg, each only once.
    pub fn handle_action_ack(&mut self, ack: &CallActionAck) -> (step: CalleeStep)
        requires
            old(self).wf(),
        ensures
            final(self).wf(),
            final(self).same_leg(*old(self)),
            final(self).ack_taken(*old(self), step, *ack),
    {
        let identity = ack.identity();
        if !self.is_current(&identity) {
            return CalleeStep { message: None, next: NextStep::GoOn };
        }
        if !self.completed_actions.insert(identity.action_id.as_str(), identity.generation) {
            proof {
                let key = (ack.action_id@, ack.generation);
                assert(old(self)@.completed.insert(key) =~= old(self)@.completed);
            }
            return CalleeStep { message: None, next: NextStep::GoOn };
        }
        if ack.accepted() {
            return CalleeStep { message: None, next: NextStep::GoOn };
        }
        let reason = rejection_reason(ack, "adapter rejected call action");
        self.forward_action_failure(ActionDeliveryFailed { identity, reason })
    }

    /// Takes a message. What is meant for the owner of the call is ignored.
    pub fn handle_control(&mut self, message: ControlMessage) -> (step: CalleeStep)
        requires
            old(self).wf(),
        ensures
            final(self).wf(),
            final(self).same_leg(*old(self)),
            match message {
                ControlMessage::LegEvent { frame_type, event, payload_types } => final(self).leg_event_reported(*old(self), step, frame_type, event, payload_types),
                ControlMessage::CallActionAck(ack) => final(self).ack_taken(*old(self), step, ack),
                ControlMessage::ActionDeliveryFailed(failure) => final(self).failure_reported(
                    *old(self),
                    step,
                    failure,
                ),
                ControlMessage::MediaDtmfObserved(event) => final(self).digit_reported(
                    *old(self),
                    step,
                    event,
                ),
                ControlMessage::SipDtmfReceived(event) => final(self).digit_reported(
                    *old(self),
                    step,
                    event,
                ),
                ControlMessage::Shutdown => final(self)@ == old(self)@ && step.message is None
                    && step.next == NextStep::Stop,
                _ => final(self).nothing_done(*old(self), step),
            },
    {
        match message {
            ControlMessage::LegEvent { frame_type, event, payload_types } => {
                self.handle_leg_event(frame_type, event, payload_types)
            },
            ControlMessage::CallActionAck(ack) => self.handle_action_ack(&ack),
            ControlMessage::ActionDeliveryFailed(failure) => self.forward_action_failure(failure),
            ControlMessage::MediaDtmfObserved(event) => self.handle_source_digit(event),
            ControlMessage::SipDtmfReceived(event) => self.handle_source_digit(event),
            ControlMessage::Shutdown => CalleeStep { message: None, next: NextStep::Stop },
            _ => CalleeStep { message: None, next: NextStep::GoOn },
        }
    }
}

/// An event of a leg is reported at most once.
pub proof fn lemma_leg_event_is_reported_once(s: DeduperState, leg: Seq<char>, sequence: u64)
    requires
        s.wf(),
        s.capacity > 0,
        s.is_new(leg, sequence),
    ensures
        !s.taken(leg, sequence).is_new(leg, sequence),
{
}

} // verus!
