//! Which events of a call leg were already taken.

use crate::text::texts;
use std::collections::VecDeque;
use vstd::hash_map::StringHashMap;
use vstd::prelude::*;

verus! {

/// How many legs are remembered.
pub const LEG_CAPACITY: usize = 16_384;

#[verifier::ext_equal]
pub struct DeduperState {
    pub highest: Map<Seq<char>, u64>,
    /// The legs, the one first heard of in front.
    pub order: Seq<Seq<char>>,
    pub capacity: nat,
}

impl DeduperState {
    /// Nothing was seen of any leg.
    pub open spec fn fresh() -> Self {
        DeduperState { highest: Map::empty(), order: Seq::empty(), capacity: LEG_CAPACITY as nat }
    }

    /// The list holds the remembered legs, each once, and not too many.
    pub open spec fn wf(self) -> bool {
        &&& self.order.no_duplicates()
        &&& forall|leg: Seq<char>|
            #[trigger] self.highest.contains_key(leg) <==> self.order.contains(leg)
        &&& self.order.len() <= self.capacity
    }

    /// Whether an event is new: nothing as late was taken of its leg.
    pub open spec fn is_new(self, leg: Seq<char>, sequence: u64) -> bool {
        !(self.highest.contains_key(leg) && sequence <= self.highest[leg])
    }

    /// What is remembered once an event was taken. The leg first heard of makes
    /// room for another.
    pub open spec fn taken(self, leg: Seq<char>, sequence: u64) -> DeduperState {
        let order = if self.highest.contains_key(leg) {
            self.order
        } else {
            self.order.push(leg)
        };
        let highest = self.highest.insert(leg, sequence);
        if order.len() > self.capacity {
            DeduperState { highest: highest.remove(order[0]), order: order.skip(1), ..self }
        } else {
            DeduperState { highest, order, ..self }
        }
    }
}

/// Taking an event keeps the bounds.
pub proof fn lemma_taken_keeps_bounds(s: DeduperState, leg: Seq<char>, sequence: u64)
    requires
        s.wf(),
    ensures
        s.taken(leg, sequence).wf(),
{
    let known = s.highest.contains_key(leg);
    let order = if known {
        s.order
    } else {
        s.order.push(leg)
    };
    let t = s.taken(leg, sequence);
    assert(order.no_duplicates()) by {
        if !known {
            assert(!s.order.contains(leg));
        }
    }
    assert forall|k: Seq<char>| s.highest.insert(leg, sequence).contains_key(k)
        <==> #[trigger] order.contains(k) by {
        if !known {
            if order.contains(k) {
                let i = choose|i: int| 0 <= i < order.len() && order[i] == k;
                if i < s.order.len() {
                    assert(s.order[i] == k);
                }
            }
            if s.order.contains(k) {
                let i = choose|i: int| 0 <= i < s.order.len() && s.order[i] == k;
                assert(order[i] == k);
            }
            assert(order[s.order.len() as int] == leg);
        }
    }
    if order.len() > s.capacity {
        assert forall|k: Seq<char>| #[trigger] t.highest.contains_key(k) <==> t.order.contains(k) by {
            if t.order.contains(k) {
                let i = choose|i: int| 0 <= i < t.order.len() && t.order[i] == k;
                assert(order[i + 1] == k);
                assert(order.contains(k));
            }
            if t.highest.contains_key(k) {
                assert(order.contains(k));
                let i = choose|i: int| 0 <= i < order.len() && order[i] == k;
                assert(t.order[i - 1] == k);
            }
        }
        assert(t.order.no_duplicates()) by {
            assert forall|i: int, j: int| 0 <= i < t.order.len() && 0 <= j < t.order.len() && i
                != j implies t.order[i] != t.order[j] by {
                assert(order[i + 1] != order[j + 1]);
            }
        }
    } else {
        assert forall|k: Seq<char>| #[trigger] t.highest.contains_key(k) <==> t.order.contains(k) by {
            assert(s.highest.insert(leg, sequence).contains_key(k) <==> order.contains(k));
        }
    }
}

/// What was taken once is not taken again: afterwards an event of the same leg is
/// new only with a higher number, and what is known of other legs, the oldest
/// aside, stays.
pub proof fn lemma_taken_event_is_not_new(
    s: DeduperState,
    leg: Seq<char>,
    sequence: u64,
    other: Seq<char>,
    later: u64,
)
    requires
        s.wf(),
        s.capacity > 0,
    ensures
        s.taken(leg, sequence).is_new(leg, later) <==> later > sequence,
        other != leg && (s.highest.contains_key(leg) || s.order.len() < s.capacity || other
            != s.order[0]) ==> s.taken(leg, sequence).is_new(other, later) == s.is_new(other, later),
{
    let order = if s.highest.contains_key(leg) {
        s.order
    } else {
        s.order.push(leg)
    };
    if order.len() > s.capacity {
        assert(order[0] == s.order[0]);
        assert(s.order.contains(s.order[0]));
    }
}

pub struct LegEventDeduper {
    pub highest_sequences: StringHashMap<u64>,
    pub order: VecDeque<String>,
    pub capacity: usize,
}

impl LegEventDeduper {
    pub open spec fn view(&self) -> DeduperState {
        DeduperState {
            highest: self.highest_sequences@,
            order: texts(self.order@),
            capacity: self.capacity as nat,
        }
    }

    pub fn with_capacity(capacity: usize) -> (deduper: Self)
        ensures
            deduper@ == (DeduperState {
                highest: Map::empty(),
                order: Seq::empty(),
                capacity: capacity as nat,
            }),
            deduper@.wf(),
    {
        let deduper = LegEventDeduper {
            highest_sequences: StringHashMap::new(),
            order: VecDeque::new(),
            capacity,
        };
        assert(texts(deduper.order@) =~= Seq::empty());
        deduper
    }

    /// Takes an event of a leg unless one as late was taken before.
    pub fn accept(&mut self, adapter_call_leg_id: &str, sequence: u64) -> (accepted: bool)
        requires
            old(self)@.wf(),
        ensures
            final(self)@.wf(),
            accepted == old(self)@.is_new(adapter_call_leg_id@, sequence),
            final(self)@ == (if accepted {
                old(self)@.taken(adapter_call_leg_id@, sequence)
            } else {
                old(self)@
            }),
    {
        let ghost leg = adapter_call_leg_id@;
        proof {
            lemma_taken_keeps_bounds(self@, leg, sequence);
        }
        let known = match self.highest_sequences.get(adapter_call_leg_id) {
            Some(highest) => {
                if sequence <= *highest {
                    return false;
                }
                true
            },
            None => false,
        };
        if !known {
            let ghost before = texts(self.order@);
            self.order.push_back(adapter_call_leg_id.to_owned());
            assert(texts(self.order@) =~= before.push(leg));
        }
        self.highest_sequences.insert(adapter_call_leg_id.to_owned(), sequence);
        if self.order.len() > self.capacity {
            let ghost before = texts(self.order@);
            let expired = self.order.pop_front();
            match expired {
                Some(expired) => {
                    self.highest_sequences.remove(expired.as_str());
                    assert(texts(self.order@) =~= before.skip(1));
                },
                None => {},
            }
        }
        true
    }
}

impl Default for LegEventDeduper {
    fn default() -> (deduper: Self)
        ensures
            deduper@ == DeduperState::fresh(),
            deduper@.wf(),
    {
        LegEventDeduper::with_capacity(LEG_CAPACITY)
    }
}

} // verus!
