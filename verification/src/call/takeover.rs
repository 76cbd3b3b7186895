//! How an owner of a call begins in the place of a leg's session, and how it leaves.

use crate::call::actor::{ActorState, SessionActor};
use crate::call::callee::CalleeSessionActor;
use crate::call::coordinator::{CallCore, Outbox, OutboxState};
use crate::call::model::{HangupCause, SessionRef};
use vstd::prelude::*;

verus! {

impl ActorState {
    /// The owner after it took over a leg: what that leg's session had taken counts
    /// as taken from now on. The call itself stays as it was.
    pub open spec fn owning(self, target: CalleeSessionActor) -> Self {
        ActorState {
            deduper: target@.deduper,
            source: target@.source,
            owned_completed: target@.completed,
            ..self
        }
    }

    /// The owner stops: a call that is not finalized ends with it.
    #[verifier::opaque]
    pub open spec fn left(self, o: OutboxState) -> (Self, OutboxState) {
        if self.core.finalized {
            (self, o)
        } else {
            let core = CallCore {
                hangup_cause: match self.core.hangup_cause {
                    Some(known) => Some(known),
                    None => Some(HangupCause::InternalError),
                },
                ..self.core
            }.finishing();
            ActorState { core, ..self }.settled(self.core.finalization_started, o)
        }
    }
}

impl SessionActor {
    /// Goes on as the session of a callee's leg, with what that session knew.
    pub fn take_over(&mut self, target: CalleeSessionActor)
        requires
            old(self).wf(),
            target.wf(),
        ensures
            final(self).wf(),
            final(self)@ == old(self)@.owning(target),
            final(self).plan.owner == SessionRef::CalleeAttempt(target.attempt_seq),
            final(self).plan.owned_action_generation == target.action_generation,
            final(self).plan.call_id == old(self).plan.call_id,
            final(self).plan.domain_id == old(self).plan.domain_id,
            final(self).plan.recorded == old(self).plan.recorded,
    {
        self.plan.owner = SessionRef::CalleeAttempt(target.attempt_seq);
        self.plan.owned_action_generation = target.action_generation;
        self.leg_event_deduper = target.leg_event_deduper;
        self.dtmf_source = target.dtmf_source;
        self.owned_completed_actions = target.completed_actions;
    }

    /// Leaves the call. Says whether the callee's session is to be told to stop: it
    /// is, unless it is the one that leaves.
    pub fn leave(&mut self, out: &mut Outbox) -> (tell_callee: bool)
        requires
            old(self).wf(),
        ensures
            final(self).wf(),
            final(self).plan == old(self).plan,
            (final(self)@, final(out)@) == old(self)@.left(old(out)@),
            tell_callee == (old(self).plan.owner != old(self)@.core.callee()),
    {
        proof {
            reveal(ActorState::left);
            reveal(CallCore::finishing);
        }
        let callee = self.core.callee_session();
        if !self.core.finalized {
            let ending_before = self.core.finalization_started;
            if self.core.hangup_cause.is_none() {
                self.core.hangup_cause = Some(HangupCause::InternalError);
            }
            self.core.begin_finish_call();
            self.settle(out, ending_before);
        }
        self.plan.owner != callee
    }
}

/// Whatever happened before, a call whose owner has left is over, has a cause, and
/// collects no digits.
pub proof fn lemma_call_does_not_outlive_its_owner(s: ActorState, o: OutboxState)
    requires
        !s.core.finalization_started,
        !s.core.finalized,
    ensures
        s.left(o).0.core.finalization_started,
        s.left(o).0.core.hangup_cause is Some,
        s.left(o).0.collection.collectors.len() == 0,
{
    reveal(ActorState::left);
    reveal(CallCore::finishing);
    let core = CallCore {
        hangup_cause: match s.core.hangup_cause {
            Some(known) => Some(known),
            None => Some(HangupCause::InternalError),
        },
        ..s.core
    };
    let t = ActorState { core: core.finishing(), ..s };
    crate::call::actor_laws::lemma_end_of_call_ends_collections(t, o);
    reveal(ActorState::settled);
}

} // verus!
