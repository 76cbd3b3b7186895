//! The queue of frames to the adapter: bounded, in order, and given up as a whole once
//! a frame cannot be written.

use crate::text::{join2, opt_text};
use std::collections::VecDeque;
use vstd::prelude::*;

verus! {

pub const ADAPTER_ACTION_QUEUE_CAPACITY: usize = 50_000;

/// How long the writing of a frame may take, in milliseconds.
pub const ADAPTER_WRITE_TIMEOUT_MS: u64 = 5_000;

/// Why a frame was not queued.
#[derive(Debug, Clone, Copy, PartialEq, Eq, Structural)]
pub enum QueueRefusal {
    Full,
    Stopped,
}

impl QueueRefusal {
    pub fn text(self) -> (text: String)
        ensures
            text@ == (match self {
                QueueRefusal::Full => "adapter action queue full"@,
                QueueRefusal::Stopped => "adapter runtime writer stopped"@,
            }),
    {
        match self {
            QueueRefusal::Full => "adapter action queue full".to_owned(),
            QueueRefusal::Stopped => "adapter runtime writer stopped".to_owned(),
        }
    }
}

/// How the writing of a frame ended.
pub enum WriteOutcome {
    Written,
    /// It took longer than allowed; the time as it is shown.
    TimedOut { allowed: String },
    Failed,
}

/// Why a frame could not be written.
pub open spec fn fault_of(outcome: WriteOutcome) -> Option<Seq<char>> {
    match outcome {
        WriteOutcome::Written => None,
        WriteOutcome::TimedOut { allowed } => Some(
            "adapter runtime write timed out after "@ + allowed@,
        ),
        WriteOutcome::Failed => Some("write adapter runtime frame"@),
    }
}

/// What the sender of a frame learns.
pub struct Completion {
    pub ticket: u64,
    pub fault: Option<String>,
}

/// Whether the completions tell the senders of `tickets`, in order, the same thing.
pub open spec fn tells(completions: Seq<Completion>, tickets: Seq<u64>, fault: Option<Seq<char>>) -> bool {
    completions.len() == tickets.len() && forall|i: int|
        0 <= i < tickets.len() ==> (#[trigger] completions[i]).ticket == tickets[i]
            && opt_text(completions[i].fault) == fault
}

/// The frames that wait to be written, each known by a ticket.
pub struct AdapterRuntimeWriter {
    pub waiting: VecDeque<u64>,
    pub capacity: usize,
    pub stopped: bool,
}

impl AdapterRuntimeWriter {
    pub open spec fn wf(self) -> bool {
        self.waiting@.len() <= self.capacity && (self.stopped ==> self.waiting@.len() == 0)
    }

    pub fn new(capacity: usize) -> (writer: Self)
        ensures
            writer.wf(),
            writer.waiting@ == Seq::<u64>::empty(),
            writer.capacity == capacity,
            !writer.stopped,
    {
        AdapterRuntimeWriter { waiting: VecDeque::new(), capacity, stopped: false }
    }

    /// Queues a frame without waiting.
    pub fn try_send(&mut self, ticket: u64) -> (result: Result<(), QueueRefusal>)
        requires
            old(self).wf(),
        ensures
            final(self).wf(),
            final(self).capacity == old(self).capacity,
            final(self).stopped == old(self).stopped,
            if old(self).stopped {
                result == Err::<(), QueueRefusal>(QueueRefusal::Stopped) && final(self).waiting@
                    == old(self).waiting@
            } else if old(self).waiting@.len() == old(self).capacity {
                result == Err::<(), QueueRefusal>(QueueRefusal::Full) && final(self).waiting@ == old(
                    self,
                ).waiting@
            } else {
                result is Ok && final(self).waiting@ == old(self).waiting@.push(ticket)
            },
    {
        if self.stopped {
            return Err(QueueRefusal::Stopped);
        }
        if self.waiting.len() >= self.capacity {
            return Err(QueueRefusal::Full);
        }
        self.waiting.push_back(ticket);
        Ok(())
    }

    /// The frame to be written next.
    pub fn next(&mut self) -> (ticket: Option<u64>)
        requires
            old(self).wf(),
        ensures
            final(self).wf(),
            final(self).capacity == old(self).capacity,
            final(self).stopped == old(self).stopped,
            if old(self).waiting@.len() == 0 {
                ticket is None && final(self).waiting@ == old(self).waiting@
            } else {
                ticket == Some(old(self).waiting@[0]) && final(self).waiting@ == old(
                    self,
                ).waiting@.drop_first()
            },
    {
        let ticket = self.waiting.pop_front();
        assert(old(self).waiting@.len() > 0 ==> self.waiting@ =~= old(self).waiting@.drop_first());
        ticket
    }

    /// Notes how the writing of a frame ended, and says whom to tell what. With a frame
    /// that could not be written, every frame behind it is lost, and the writer stops.
    pub fn after_write(&mut self, ticket: u64, outcome: WriteOutcome) -> (completions: Vec<Completion>)
        requires
            old(self).wf(),
        ensures
            final(self).wf(),
            final(self).capacity == old(self).capacity,
            match fault_of(outcome) {
                None => tells(completions@, seq![ticket], None) && final(self).waiting@ == old(
                    self,
                ).waiting@ && final(self).stopped == old(self).stopped,
                Some(fault) => tells(
                    completions@,
                    seq![ticket] + old(self).waiting@,
                    Some(fault),
                ) && final(self).waiting@.len() == 0 && final(self).stopped,
            },
    {
        let mut completions: Vec<Completion> = Vec::new();
        let message = match outcome {
            WriteOutcome::Written => {
                completions.push(Completion { ticket, fault: None });
                return completions;
            },
            WriteOutcome::TimedOut { allowed } => join2(
                "adapter runtime write timed out after ",
                allowed.as_str(),
            ),
            WriteOutcome::Failed => "write adapter runtime frame".to_owned(),
        };
        completions.push(Completion { ticket, fault: Some(message.clone()) });
        let ghost lost = self.waiting@;
        let ghost tickets = seq![ticket] + lost;
        while self.waiting.len() > 0
            invariant
                self.capacity == old(self).capacity,
                self.waiting@.len() <= lost.len(),
                self.waiting@ == lost.skip(lost.len() - self.waiting@.len()),
                lost == old(self).waiting@,
                lost.len() <= self.capacity,
                tickets == seq![ticket] + lost,
                tells(
                    completions@,
                    tickets.take(1 + lost.len() - self.waiting@.len()),
                    Some(message@),
                ),
            decreases self.waiting@.len(),
        {
            let ghost before = self.waiting@;
            match self.waiting.pop_front() {
                Some(next) => {
                    completions.push(Completion { ticket: next, fault: Some(message.clone()) });
                    proof {
                        let n = 1 + lost.len() - before.len();
                        assert(next == lost[lost.len() - before.len()]);
                        assert(self.waiting@ =~= lost.skip(lost.len() - self.waiting@.len()));
                        assert(tickets.take(n + 1) =~= tickets.take(n).push(next));
                    }
                },
                None => {},
            }
        }
        self.stopped = true;
        assert(tickets.take(1 + lost.len() as int) =~= tickets);
        completions
    }
}

/// The frames that are left after `n` of them were taken.
pub open spec fn after_taking(waiting: Seq<u64>, n: nat) -> Seq<u64>
    decreases n,
{
    if n == 0 {
        waiting
    } else {
        after_taking(waiting, (n - 1) as nat).drop_first()
    }
}

/// Frames are written in the order in which they were queued: one that is queued now is
/// the next once exactly those before it were taken.
pub proof fn lemma_frames_keep_their_order(waiting: Seq<u64>, ticket: u64)
    ensures
        forall|n: nat|
            n < waiting.len() ==> #[trigger] after_taking(waiting.push(ticket), n)[0]
                == waiting[n as int],
        after_taking(waiting.push(ticket), waiting.len())[0] == ticket,
{
    assert forall|n: nat| n < waiting.len() implies #[trigger] after_taking(
        waiting.push(ticket),
        n,
    )[0] == waiting[n as int] by {
        lemma_taking_skips(waiting.push(ticket), n);
    }
    lemma_taking_skips(waiting.push(ticket), waiting.len());
}

proof fn lemma_taking_skips(waiting: Seq<u64>, n: nat)
    requires
        n <= waiting.len(),
    ensures
        after_taking(waiting, n) == waiting.skip(n as int),
    decreases n,
{
    if n == 0 {
        assert(waiting.skip(0) =~= waiting);
    } else {
        lemma_taking_skips(waiting, (n - 1) as nat);
        assert(waiting.skip(n - 1).drop_first() =~= waiting.skip(n as int));
    }
}

} // verus!
