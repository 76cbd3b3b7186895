//! A bounded queue to the adapter runtime, which comes and goes: each time it
//! attaches it gets a fresh, empty queue and a new generation.

use std::collections::VecDeque;
use vstd::prelude::*;

verus! {

/// One attached runtime: what waits for it, and whether it still listens.
pub struct RuntimeBinding<T> {
    pub generation: u64,
    pub open: bool,
    pub queue: VecDeque<T>,
}

#[derive(Debug, Clone, Copy, PartialEq, Eq, Structural)]
pub enum QueueError {
    Unconnected,
    Full,
    Closed,
}

pub struct RuntimeQueue<T> {
    pub runtime_generation: u64,
    pub runtime: Option<RuntimeBinding<T>>,
    pub capacity: usize,
}

#[verifier::ext_equal]
pub struct BindingState<T> {
    pub generation: u64,
    pub open: bool,
    pub queue: Seq<T>,
}

/// What a queue to the runtime holds.
#[verifier::ext_equal]
pub struct QueueState<T> {
    pub generation: u64,
    pub runtime: Option<BindingState<T>>,
    pub capacity: nat,
}

impl<T> QueueState<T> {
    /// What `offer` does: the item is queued, or refused; a queue nobody listens
    /// to is dropped.
    pub open spec fn offered(self, item: T) -> (Self, Result<(), QueueError>) {
        match self.runtime {
            None => (self, Err(QueueError::Unconnected)),
            Some(runtime) => if !runtime.open {
                (QueueState { runtime: None, ..self }, Err(QueueError::Closed))
            } else if runtime.queue.len() >= self.capacity {
                (self, Err(QueueError::Full))
            } else {
                (
                    QueueState {
                        runtime: Some(
                            BindingState { queue: runtime.queue.push(item), ..runtime },
                        ),
                        ..self
                    },
                    Ok(()),
                )
            },
        }
    }

    pub open spec fn attached(self) -> Self {
        let generation = if self.generation == u64::MAX {
            u64::MAX
        } else {
            (self.generation + 1) as u64
        };
        QueueState {
            generation,
            runtime: Some(BindingState { generation, open: true, queue: Seq::empty() }),
            ..self
        }
    }

    /// Only the runtime that is attached can detach itself.
    pub open spec fn detached(self, generation: u64) -> Self {
        match self.runtime {
            Some(runtime) => if runtime.generation == generation {
                QueueState { runtime: None, ..self }
            } else {
                self
            },
            None => self,
        }
    }
}

/// A runtime that was replaced cannot detach its successor.
pub proof fn lemma_replaced_runtime_cannot_detach<T>(s: QueueState<T>, generation: u64)
    requires
        generation <= s.generation,
        s.generation < u64::MAX,
    ensures
        s.attached().detached(generation) == s.attached(),
{
}

/// What is queued comes out in the order in which it went in, and no more than
/// the capacity ever waits.
pub proof fn lemma_queue_stays_bounded<T>(s: QueueState<T>, item: T)
    requires
        s.runtime matches Some(runtime) ==> runtime.queue.len() <= s.capacity,
    ensures
        s.offered(item).0.runtime matches Some(runtime) ==> runtime.queue.len() <= s.capacity,
        s.offered(item).1 is Ok ==> s.offered(item).0.runtime->Some_0.queue.last() == item
            && s.offered(item).0.runtime->Some_0.queue.drop_last() == s.runtime->Some_0.queue,
{
    if s.offered(item).1 is Ok {
        assert(s.runtime->Some_0.queue.push(item).drop_last() =~= s.runtime->Some_0.queue);
    }
}

impl<T> RuntimeQueue<T> {
    pub open spec fn view(&self) -> QueueState<T> {
        QueueState {
            generation: self.runtime_generation,
            runtime: match self.runtime {
                Some(runtime) => Some(
                    BindingState {
                        generation: runtime.generation,
                        open: runtime.open,
                        queue: runtime.queue@,
                    },
                ),
                None => None,
            },
            capacity: self.capacity as nat,
        }
    }

    pub fn new(capacity: usize) -> (queue: Self)
        ensures
            queue@ == (QueueState::<T> { generation: 0, runtime: None, capacity: capacity as nat }),
    {
        RuntimeQueue { runtime_generation: 0, runtime: None, capacity }
    }

    pub fn attach_runtime(&mut self) -> (generation: u64)
        ensures
            final(self)@ == old(self)@.attached(),
            generation == final(self)@.generation,
    {
        let generation: u64 = if self.runtime_generation == u64::MAX {
            u64::MAX
        } else {
            self.runtime_generation + 1
        };
        self.runtime_generation = generation;
        self.runtime = Some(RuntimeBinding { generation, open: true, queue: VecDeque::new() });
        assert(self@ =~= old(self)@.attached());
        generation
    }

    pub fn detach_runtime(&mut self, generation: u64)
        ensures
            final(self)@ == old(self)@.detached(generation),
    {
        let attached = match &self.runtime {
            Some(runtime) => runtime.generation == generation,
            None => false,
        };
        if attached {
            self.runtime = None;
        }
    }

    pub fn connected(&self) -> (connected: bool)
        ensures
            connected == (self@.runtime is Some),
    {
        self.runtime.is_some()
    }

    pub fn offer(&mut self, item: T) -> (result: Result<(), QueueError>)
        ensures
            (final(self)@, result) == old(self)@.offered(item),
    {
        match self.runtime.take() {
            None => Err(QueueError::Unconnected),
            Some(mut runtime) => {
                if !runtime.open {
                    return Err(QueueError::Closed);
                }
                if runtime.queue.len() >= self.capacity {
                    self.runtime = Some(runtime);
                    return Err(QueueError::Full);
                }
                runtime.queue.push_back(item);
                self.runtime = Some(runtime);
                assert(self@ =~= old(self)@.offered(item).0);
                Ok(())
            },
        }
    }

    /// The next item for the runtime of this generation.
    pub fn take(&mut self, generation: u64) -> (item: Option<T>)
        ensures
            match old(self)@.runtime {
                Some(runtime) => if runtime.generation == generation && runtime.queue.len() > 0 {
                    item == Some(runtime.queue[0]) && final(self)@ == (QueueState {
                        runtime: Some(
                            BindingState { queue: runtime.queue.drop_first(), ..runtime },
                        ),
                        ..old(self)@
                    })
                } else {
                    item is None && final(self)@ == old(self)@
                },
                None => item is None && final(self)@ == old(self)@,
            },
    {
        match self.runtime.take() {
            None => None,
            Some(mut runtime) => {
                if runtime.generation != generation {
                    self.runtime = Some(runtime);
                    return None;
                }
                let item = runtime.queue.pop_front();
                self.runtime = Some(runtime);
                proof {
                    let before = old(self)@.runtime->Some_0;
                    if before.queue.len() > 0 {
                        assert(self@.runtime->Some_0.queue =~= before.queue.drop_first());
                    } else {
                        assert(self@.runtime->Some_0.queue =~= before.queue);
                    }
                }
                item
            },
        }
    }

    /// The runtime no longer listens, but did not say so.
    pub fn close(&mut self)
        ensures
            final(self)@ == (QueueState {
                runtime: match old(self)@.runtime {
                    Some(runtime) => Some(BindingState { open: false, ..runtime }),
                    None => None,
                },
                ..old(self)@
            }),
    {
        match self.runtime.take() {
            None => {},
            Some(runtime) => {
                self.runtime = Some(
                    RuntimeBinding {
                        generation: runtime.generation,
                        open: false,
                        queue: runtime.queue,
                    },
                );
            },
        }
    }
}

} // verus!
