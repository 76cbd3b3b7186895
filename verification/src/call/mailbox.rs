//! The mailboxes of sessions and coordinators, and the dispatcher that messages wait in
//! while a mailbox is full. Control messages and events have mailboxes of their own, so
//! that events never take the room of control messages.

use crate::call::actor::ControlMessage;
use crate::call::dtmf::DigitCollectionSpec;
use crate::call::session::{
    submit_code, submit_error_code, Mailbox, SubmitError, CONTROL_MAILBOX_CAPACITY,
    COORDINATOR_CONTROL_MAILBOX_CAPACITY, COORDINATOR_EVENT_MAILBOX_CAPACITY,
    CRITICAL_DISPATCHER_CAPACITY, EVENT_MAILBOX_CAPACITY,
};
use std::collections::VecDeque;
use vstd::prelude::*;

verus! {

/// A bounded mailbox. What goes in comes out in the same order.
pub struct Postbox<T> {
    pub waiting: VecDeque<T>,
    pub capacity: usize,
    pub open: bool,
}

#[verifier::ext_equal]
pub struct PostboxState<T> {
    pub waiting: Seq<T>,
    pub capacity: nat,
    pub open: bool,
}

impl<T> PostboxState<T> {
    pub open spec fn fresh(capacity: nat) -> Self {
        PostboxState { waiting: Seq::empty(), capacity, open: true }
    }

    /// A message is taken where somebody listens and there is room.
    pub open spec fn submitted(self, item: T) -> (Self, Result<(), SubmitError>) {
        if !self.open {
            (self, Err(SubmitError::Closed))
        } else if self.waiting.len() >= self.capacity {
            (self, Err(SubmitError::Full))
        } else {
            (PostboxState { waiting: self.waiting.push(item), ..self }, Ok(()))
        }
    }

    pub open spec fn taken(self) -> (Self, Option<T>) {
        if self.waiting.len() == 0 {
            (self, None)
        } else {
            (
                PostboxState { waiting: self.waiting.drop_first(), ..self },
                Some(self.waiting[0]),
            )
        }
    }
}

impl<T> Postbox<T> {
    pub open spec fn view(&self) -> PostboxState<T> {
        PostboxState {
            waiting: self.waiting@,
            capacity: self.capacity as nat,
            open: self.open,
        }
    }

    pub fn new(capacity: usize) -> (postbox: Self)
        ensures
            postbox@ == PostboxState::<T>::fresh(capacity as nat),
    {
        Postbox { waiting: VecDeque::new(), capacity, open: true }
    }

    pub fn submit(&mut self, item: T) -> (result: Result<(), SubmitError>)
        ensures
            (final(self)@, result) == old(self)@.submitted(item),
    {
        if !self.open {
            return Err(SubmitError::Closed);
        }
        if self.waiting.len() >= self.capacity {
            return Err(SubmitError::Full);
        }
        self.waiting.push_back(item);
        Ok(())
    }

    pub fn take(&mut self) -> (item: Option<T>)
        ensures
            (final(self)@, item) == old(self)@.taken(),
    {
        let item = self.waiting.pop_front();
        proof {
            if item.is_some() {
                assert(self.waiting@ =~= old(self).waiting@.drop_first());
            }
        }
        item
    }

    /// Nobody listens any more; what waits is gone.
    pub fn close(&mut self)
        ensures
            final(self)@ == (PostboxState {
                waiting: Seq::empty(),
                open: false,
                ..old(self)@
            }),
    {
        self.waiting = VecDeque::new();
        self.open = false;
    }

    pub fn is_closed(&self) -> (closed: bool)
        ensures
            closed == !self@.open,
    {
        !self.open
    }

    fn is_full(&self) -> (full: bool)
        ensures
            full == (self@.waiting.len() >= self@.capacity),
    {
        self.waiting.len() >= self.capacity
    }
}

/// A mailbox never holds more than it has room for, and what is refused changes
/// nothing.
pub proof fn lemma_mailbox_stays_bounded<T>(s: PostboxState<T>, item: T)
    requires
        s.waiting.len() <= s.capacity,
    ensures
        s.submitted(item).0.waiting.len() <= s.capacity,
        s.submitted(item).1 is Err ==> s.submitted(item).0 == s,
{
}

/// What a session is asked besides its control messages. It may be refused.
pub enum EventMessage {
    QuerySessionSummary,
    StartDigitCollection { spec: DigitCollectionSpec },
    CancelDigitCollection { collector_id: String },
}

/// Whether a refusal is reported as it is to be.
pub open spec fn answers(
    mailbox: Mailbox,
    expected: Result<(), SubmitError>,
    result: Result<(), String>,
) -> bool {
    match (expected, result) {
        (Ok(()), Ok(())) => true,
        (Err(error), Err(code)) => code@ == submit_code(mailbox, error),
        _ => false,
    }
}

fn answer(mailbox: Mailbox, given: Result<(), SubmitError>) -> (result: Result<(), String>)
    ensures
        answers(mailbox, given, result),
{
    match given {
        Ok(()) => Ok(()),
        Err(error) => Err(submit_error_code(mailbox, error)),
    }
}

/// The mailboxes of a session.
pub struct SessionHandle {
    pub control: Postbox<ControlMessage>,
    pub event: Postbox<EventMessage>,
}

impl SessionHandle {
    pub fn new_pair() -> (handle: Self)
        ensures
            handle.control@ == PostboxState::<ControlMessage>::fresh(
                CONTROL_MAILBOX_CAPACITY as nat,
            ),
            handle.event@ == PostboxState::<EventMessage>::fresh(EVENT_MAILBOX_CAPACITY as nat),
    {
        SessionHandle {
            control: Postbox::new(CONTROL_MAILBOX_CAPACITY),
            event: Postbox::new(EVENT_MAILBOX_CAPACITY),
        }
    }

    pub fn try_post_event(&mut self, message: EventMessage) -> (result: Result<(), SubmitError>)
        ensures
            (final(self).event@, result) == old(self).event@.submitted(message),
            final(self).control == old(self).control,
    {
        self.event.submit(message)
    }

    pub fn start_digit_collection(&mut self, spec: DigitCollectionSpec) -> (result: Result<
        (),
        String,
    >)
        ensures
            ({
                let message = EventMessage::StartDigitCollection { spec };
                let (event, expected) = old(self).event@.submitted(message);
                final(self).event@ == event && answers(Mailbox::Session, expected, result)
            }),
            final(self).control == old(self).control,
    {
        let given = self.event.submit(EventMessage::StartDigitCollection { spec });
        answer(Mailbox::Session, given)
    }

    pub fn cancel_digit_collection(&mut self, collector_id: String) -> (result: Result<(), String>)
        ensures
            ({
                let message = EventMessage::CancelDigitCollection { collector_id };
                let (event, expected) = old(self).event@.submitted(message);
                final(self).event@ == event && answers(Mailbox::Session, expected, result)
            }),
            final(self).control == old(self).control,
    {
        let given = self.event.submit(EventMessage::CancelDigitCollection { collector_id });
        answer(Mailbox::Session, given)
    }
}

/// The mailboxes of the coordinator of a call. They stay when another session takes
/// the call over.
pub struct CallCoordinatorHandle {
    pub call_id: String,
    pub control: Postbox<ControlMessage>,
    pub event: Postbox<EventMessage>,
}

impl CallCoordinatorHandle {
    /// Whether both mailboxes take what they are sent.
    pub open spec fn open(self) -> bool {
        self.control@.open && self.event@.open
    }

    pub fn new_pair(call_id: &str) -> (handle: Self)
        ensures
            handle.call_id@ == call_id@,
            handle.control@ == PostboxState::<ControlMessage>::fresh(
                COORDINATOR_CONTROL_MAILBOX_CAPACITY as nat,
            ),
            handle.event@ == PostboxState::<EventMessage>::fresh(
                COORDINATOR_EVENT_MAILBOX_CAPACITY as nat,
            ),
    {
        CallCoordinatorHandle {
            call_id: call_id.to_owned(),
            control: Postbox::new(COORDINATOR_CONTROL_MAILBOX_CAPACITY),
            event: Postbox::new(COORDINATOR_EVENT_MAILBOX_CAPACITY),
        }
    }

    pub fn call_id(&self) -> (call_id: &str)
        ensures
            call_id@ == self.call_id@,
    {
        self.call_id.as_str()
    }

    pub fn is_closed(&self) -> (closed: bool)
        ensures
            closed == !self.open(),
    {
        self.control.is_closed() || self.event.is_closed()
    }

    pub fn start_digit_collection(&mut self, spec: DigitCollectionSpec) -> (result: Result<
        (),
        String,
    >)
        ensures
            ({
                let message = EventMessage::StartDigitCollection { spec };
                let (event, expected) = old(self).event@.submitted(message);
                final(self).event@ == event && answers(Mailbox::Coordinator, expected, result)
            }),
            final(self).control == old(self).control,
            final(self).call_id == old(self).call_id,
    {
        let given = self.event.submit(EventMessage::StartDigitCollection { spec });
        answer(Mailbox::Coordinator, given)
    }

    pub fn cancel_digit_collection(&mut self, collector_id: String) -> (result: Result<(), String>)
        ensures
            ({
                let message = EventMessage::CancelDigitCollection { collector_id };
                let (event, expected) = old(self).event@.submitted(message);
                final(self).event@ == event && answers(Mailbox::Coordinator, expected, result)
            }),
            final(self).control == old(self).control,
            final(self).call_id == old(self).call_id,
    {
        let given = self.event.submit(EventMessage::CancelDigitCollection { collector_id });
        answer(Mailbox::Coordinator, given)
    }
}

/// A control message on its way to a mailbox.
pub struct CriticalDispatch {
    pub target: String,
    pub message: ControlMessage,
}

#[verifier::ext_equal]
pub struct PendingDispatch {
    pub target: Seq<char>,
    pub message: ControlMessage,
}

impl CriticalDispatch {
    pub open spec fn view(&self) -> PendingDispatch {
        PendingDispatch { target: self.target@, message: self.message }
    }
}

pub open spec fn dispatches_of(list: Seq<CriticalDispatch>) -> Seq<PendingDispatch> {
    Seq::new(list.len(), |i: int| list[i]@)
}

/// What became of a message that was handed to the dispatcher.
pub enum DispatchResult {
    Queued,
    /// Its mailbox is closed.
    Gone,
    /// The dispatcher is full: who hands the message in has to wait.
    Wait(ControlMessage),
}

/// What became of the message that is next.
#[derive(Debug, Clone, Copy, PartialEq, Eq, Structural)]
pub enum Delivery {
    Nothing,
    Delivered,
    /// Its mailbox is closed, and the message gone.
    Dropped,
    /// Its mailbox is full: the message stays the next.
    Waiting,
}

/// Control messages on their way, in the order in which they were handed in.
pub struct CriticalControlDispatcher {
    pub waiting: VecDeque<CriticalDispatch>,
}

/// What waits for one mailbox, in order.
pub open spec fn meant_for(waiting: Seq<PendingDispatch>, target: Seq<char>) -> Seq<ControlMessage>
    decreases waiting.len(),
{
    if waiting.len() == 0 {
        Seq::empty()
    } else {
        let front = meant_for(waiting.drop_last(), target);
        if waiting.last().target == target {
            front.push(waiting.last().message)
        } else {
            front
        }
    }
}

/// What the delivery of the next message does to the dispatcher and to its mailbox.
pub open spec fn delivered(
    waiting: Seq<PendingDispatch>,
    mailbox: PostboxState<ControlMessage>,
) -> (Seq<PendingDispatch>, PostboxState<ControlMessage>, Delivery) {
    if waiting.len() == 0 {
        (waiting, mailbox, Delivery::Nothing)
    } else if !mailbox.open {
        (waiting.drop_first(), mailbox, Delivery::Dropped)
    } else if mailbox.waiting.len() >= mailbox.capacity {
        (waiting, mailbox, Delivery::Waiting)
    } else {
        (
            waiting.drop_first(),
            PostboxState { waiting: mailbox.waiting.push(waiting[0].message), ..mailbox },
            Delivery::Delivered,
        )
    }
}

proof fn lemma_first_is_meant(waiting: Seq<PendingDispatch>, target: Seq<char>)
    requires
        waiting.len() > 0,
    ensures
        meant_for(waiting, target) == (if waiting[0].target == target {
            seq![waiting[0].message] + meant_for(waiting.drop_first(), target)
        } else {
            meant_for(waiting.drop_first(), target)
        }),
    decreases waiting.len(),
{
    reveal_with_fuel(meant_for, 2);
    let rest = waiting.drop_first();
    if waiting.len() == 1 {
        assert(rest.len() == 0);
        assert(waiting.drop_last().len() == 0);
        assert(meant_for(waiting, target) =~= (if waiting[0].target == target {
            seq![waiting[0].message] + meant_for(rest, target)
        } else {
            meant_for(rest, target)
        }));
    } else {
        let front = waiting.drop_last();
        lemma_first_is_meant(front, target);
        assert(rest.drop_last() =~= front.drop_first());
        assert(rest.last() == waiting.last());
        assert(meant_for(waiting, target) =~= (if waiting[0].target == target {
            seq![waiting[0].message] + meant_for(rest, target)
        } else {
            meant_for(rest, target)
        }));
    }
}

/// However full a mailbox is, the messages for it keep their order and none is lost:
/// what is in it and what still waits for it is the same before and after a delivery.
/// Nothing that waits for another mailbox is touched.
pub proof fn lemma_dispatcher_keeps_order(
    waiting: Seq<PendingDispatch>,
    mailbox: PostboxState<ControlMessage>,
    other: Seq<char>,
)
    requires
        waiting.len() > 0,
        mailbox.open,
    ensures
        ({
            let (left, filled, _) = delivered(waiting, mailbox);
            let target = waiting[0].target;
            &&& filled.waiting + meant_for(left, target) == mailbox.waiting + meant_for(
                waiting,
                target,
            )
            &&& other != target ==> meant_for(left, other) == meant_for(waiting, other)
        }),
{
    let (left, filled, _) = delivered(waiting, mailbox);
    let target = waiting[0].target;
    lemma_first_is_meant(waiting, target);
    lemma_first_is_meant(waiting, other);
    if left != waiting {
        assert(filled.waiting + meant_for(left, target) =~= mailbox.waiting + (
        seq![waiting[0].message] + meant_for(left, target)));
    }
}

/// A message that is handed in comes behind all that wait for its mailbox.
pub proof fn lemma_dispatched_message_comes_last(
    waiting: Seq<PendingDispatch>,
    dispatch: PendingDispatch,
)
    ensures
        meant_for(waiting.push(dispatch), dispatch.target) == meant_for(
            waiting,
            dispatch.target,
        ).push(dispatch.message),
{
    assert(waiting.push(dispatch).drop_last() =~= waiting);
}

impl CriticalControlDispatcher {
    pub open spec fn view(&self) -> Seq<PendingDispatch> {
        dispatches_of(self.waiting@)
    }

    pub open spec fn wf(self) -> bool {
        self@.len() <= CRITICAL_DISPATCHER_CAPACITY
    }

    pub fn new() -> (dispatcher: Self)
        ensures
            dispatcher.wf(),
            dispatcher@ == Seq::<PendingDispatch>::empty(),
    {
        let dispatcher = CriticalControlDispatcher { waiting: VecDeque::new() };
        assert(dispatcher@ =~= Seq::<PendingDispatch>::empty());
        dispatcher
    }

    /// Hands in a message for a mailbox.
    pub fn dispatch(&mut self, target: &str, target_closed: bool, message: ControlMessage) -> (result:
        DispatchResult)
        requires
            old(self).wf(),
        ensures
            final(self).wf(),
            match result {
                DispatchResult::Gone => target_closed && final(self)@ == old(self)@,
                DispatchResult::Wait(kept) => !target_closed && old(self)@.len()
                    == CRITICAL_DISPATCHER_CAPACITY && kept == message && final(self)@ == old(self)@,
                DispatchResult::Queued => !target_closed && old(self)@.len()
                    < CRITICAL_DISPATCHER_CAPACITY && final(self)@ == old(self)@.push(
                    PendingDispatch { target: target@, message },
                ),
            },
    {
        if target_closed {
            return DispatchResult::Gone;
        }
        if self.waiting.len() >= CRITICAL_DISPATCHER_CAPACITY {
            return DispatchResult::Wait(message);
        }
        let ghost before = self@;
        self.waiting.push_back(CriticalDispatch { target: target.to_owned(), message });
        assert(self@ =~= before.push(PendingDispatch { target: target@, message }));
        DispatchResult::Queued
    }

    /// The mailbox that the next message is for.
    pub fn next_target(&self) -> (target: Option<String>)
        ensures
            match target {
                Some(target) => self@.len() > 0 && target@ == self@[0].target,
                None => self@.len() == 0,
            },
    {
        if self.waiting.len() == 0 {
            return None;
        }
        assert(self@[0] == self.waiting@[0]@);
        Some(self.waiting[0].target.clone())
    }

    /// Puts the next message into its mailbox, where there is room.
    pub fn deliver(&mut self, mailbox: &mut Postbox<ControlMessage>) -> (delivery: Delivery)
        requires
            old(self).wf(),
        ensures
            final(self).wf(),
            (final(self)@, final(mailbox)@, delivery) == delivered(old(self)@, old(mailbox)@),
    {
        if self.waiting.len() == 0 {
            return Delivery::Nothing;
        }
        if !mailbox.is_closed() && mailbox.is_full() {
            return Delivery::Waiting;
        }
        let ghost before = self@;
        let next = self.waiting.pop_front();
        assert(self@ =~= before.drop_first());
        match next {
            Some(dispatch) => {
                assert(before[0] == dispatch@);
                if mailbox.is_closed() {
                    return Delivery::Dropped;
                }
                let _ = mailbox.submit(dispatch.message);
                Delivery::Delivered
            },
            None => Delivery::Nothing,
        }
    }
}

} // verus!
