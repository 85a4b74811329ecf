//! Vector clocks: one logical counter per node, used to order chat events.

use vstd::prelude::*;

use crate::assoc::{assoc_map, keys_unique, lemma_assoc_lookup, lemma_assoc_push, lemma_assoc_update};
use crate::node::node_id::{NetAddress, NodeId};

verus! {

/// How two vector clocks relate.
#[derive(Debug, Clone, Copy, PartialEq, Eq, Structural)]
pub enum VectorClockOrdering {
    /// `self` happens before `other`.
    Before,
    /// `self` happens after `other`.
    After,
    /// The events are concurrent (not causally related).
    Concurrent,
    /// The clocks are equal.
    Equal,
}

/// The counter of node `k` in clock `m`; a node that the clock does not
/// know counts as zero.
pub open spec fn clock_value(m: Map<(NetAddress, Seq<u8>), u64>, k: (NetAddress, Seq<u8>)) -> nat {
    if m.contains_key(k) {
        m[k] as nat
    } else {
        0
    }
}

/// Every counter of `a` is at most the matching counter of `b`.
pub open spec fn clock_le(a: Map<(NetAddress, Seq<u8>), u64>, b: Map<(NetAddress, Seq<u8>), u64>) -> bool {
    forall|k: (NetAddress, Seq<u8>)| #[trigger] a.contains_key(k) ==> a[k] <= clock_value(b, k)
}

/// The causal relation of clock `a` to clock `b`.
pub open spec fn clock_order(a: Map<(NetAddress, Seq<u8>), u64>, b: Map<(NetAddress, Seq<u8>), u64>) -> VectorClockOrdering {
    if clock_le(a, b) && clock_le(b, a) {
        VectorClockOrdering::Equal
    } else if clock_le(a, b) {
        VectorClockOrdering::Before
    } else if clock_le(b, a) {
        VectorClockOrdering::After
    } else {
        VectorClockOrdering::Concurrent
    }
}

/// A vector clock of one node.
#[derive(Debug, Clone)]
pub struct VectorClock {
    node_id: NodeId,
    timestamps: Vec<(NodeId, u64)>,
}

impl View for VectorClock {
    type V = Map<(NetAddress, Seq<u8>), u64>;

    closed spec fn view(&self) -> Map<(NetAddress, Seq<u8>), u64> {
        assoc_map(self.entries())
    }
}

impl VectorClock {
    closed spec fn entries(&self) -> Seq<((NetAddress, Seq<u8>), u64)> {
        self.timestamps@.map_values(|e: (NodeId, u64)| (e.0@, e.1))
    }

    /// The node that owns this clock.
    pub closed spec fn owner(&self) -> (NetAddress, Seq<u8>) {
        self.node_id@
    }

    /// Well-formedness: no node occurs twice, and the owner has a counter.
    pub closed spec fn wf(&self) -> bool {
        &&& keys_unique(self.entries())
        &&& self@.contains_key(self.owner())
    }

    /// A clock of `node_id` whose only counter, its own, is zero.
    pub fn new(node_id: NodeId) -> (c: VectorClock)
        ensures
            c.wf(),
            c.owner() == node_id@,
            c@ == map![node_id@ => 0u64],
    {
        let mut timestamps: Vec<(NodeId, u64)> = Vec::new();
        timestamps.push((node_id, 0));
        let c = VectorClock { node_id, timestamps };
        proof {
            assert(c.entries() =~= seq![(node_id@, 0u64)]);
            lemma_assoc_lookup(c.entries(), 0);
            assert(c@ =~= map![node_id@ => 0u64]);
        }
        c
    }

    fn find(&self, id: &NodeId) -> (r: Option<usize>)
        requires
            self.wf(),
        ensures
            match r {
                Some(i) => i < self.timestamps@.len() && self.entries()[i as int].0 == id@,
                None => !self@.contains_key(id@),
            },
    {
        let mut i: usize = 0;
        while i < self.timestamps.len()
            invariant
                i <= self.timestamps@.len(),
                forall|j: int| 0 <= j < i ==> self.entries()[j].0 != id@,
            decreases self.timestamps@.len() - i,
        {
            if self.timestamps[i].0.same_as(id) {
                return Some(i);
            }
            i = i + 1;
        }
        proof {
            if self@.contains_key(id@) {
                let j = choose|j: int| 0 <= j < self.entries().len() && #[trigger] self.entries()[j].0 == id@;
                assert(self.entries()[j].0 != id@);
            }
        }
        None
    }

    /// The counter of `id`, zero when the clock does not know the node.
    pub fn lookup(&self, id: &NodeId) -> (v: u64)
        requires
            self.wf(),
        ensures
            v == clock_value(self@, id@),
    {
        match self.find(id) {
            Some(i) => {
                proof {
                    lemma_assoc_lookup(self.entries(), i as int);
                }
                self.timestamps[i].1
            },
            None => 0,
        }
    }

    /// Raises the counter of `sender` to `sender_timestamp` if that is larger.
    pub fn update_from(&mut self, sender: &NodeId, sender_timestamp: u64)
        requires
            old(self).wf(),
        ensures
            final(self).wf(),
            final(self).owner() == old(self).owner(),
            final(self)@ == old(self)@.insert(
                sender@,
                if clock_value(old(self)@, sender@) >= sender_timestamp {
                    clock_value(old(self)@, sender@) as u64
                } else {
                    sender_timestamp
                },
            ),
    {
        match self.find(sender) {
            Some(i) => {
                let current = self.timestamps[i].1;
                let value = if current >= sender_timestamp {
                    current
                } else {
                    sender_timestamp
                };
                let key = self.timestamps[i].0;
                proof {
                    lemma_assoc_lookup(self.entries(), i as int);
                    lemma_assoc_update(self.entries(), i as int, value);
                }
                let ghost before = self.entries();
                self.timestamps.set(i, (key, value));
                proof {
                    assert(self.entries() =~= before.update(i as int, (before[i as int].0, value)));
                    lemma_assoc_lookup(before.update(i as int, (before[i as int].0, value)), 0);
                }
            },
            None => {
                let ghost before = self.entries();
                self.timestamps.push((*sender, sender_timestamp));
                proof {
                    lemma_assoc_push(before, sender@, sender_timestamp);
                    assert(self.entries() =~= before.push((sender@, sender_timestamp)));
                }
            },
        }
    }

    /// Adds one to the owner's counter. The counter must not be at its maximum.
    pub fn increment(&mut self)
        requires
            old(self).wf(),
            clock_value(old(self)@, old(self).owner()) < u64::MAX,
        ensures
            final(self).wf(),
            final(self).owner() == old(self).owner(),
            final(self)@ == old(self)@.insert(old(self).owner(), (clock_value(old(self)@, old(self).owner()) + 1) as u64),
    {
        let own = self.node_id;
        match self.find(&own) {
            Some(i) => {
                proof {
                    lemma_assoc_lookup(self.entries(), i as int);
                }
                let value = self.timestamps[i].1 + 1;
                let key = self.timestamps[i].0;
                proof {
                    lemma_assoc_update(self.entries(), i as int, value);
                }
                let ghost before = self.entries();
                self.timestamps.set(i, (key, value));
                proof {
                    assert(self.entries() =~= before.update(i as int, (before[i as int].0, value)));
                }
            },
            None => {
                let ghost before = self.entries();
                self.timestamps.push((own, 1));
                proof {
                    lemma_assoc_push(before, own@, 1);
                    assert(self.entries() =~= before.push((own@, 1u64)));
                }
            },
        }
    }

    /// The owner's counter.
    pub fn get_own_timestamp(&self) -> (v: u64)
        requires
            self.wf(),
        ensures
            v == clock_value(self@, self.owner()),
    {
        self.lookup(&self.node_id)
    }

    /// Whether every counter of `self` is at most the matching one of `other`.
    fn le(&self, other: &VectorClock) -> (r: bool)
        requires
            self.wf(),
            other.wf(),
        ensures
            r == clock_le(self@, other@),
    {
        let mut i: usize = 0;
        while i < self.timestamps.len()
            invariant
                self.wf(),
                other.wf(),
                i <= self.timestamps@.len(),
                forall|j: int| 0 <= j < i ==> self.entries()[j].1 <= clock_value(other@, #[trigger] self.entries()[j].0),
            decreases self.timestamps@.len() - i,
        {
            let theirs = other.lookup(&self.timestamps[i].0);
            if self.timestamps[i].1 > theirs {
                proof {
                    lemma_assoc_lookup(self.entries(), i as int);
                    assert(self@.contains_key(self.entries()[i as int].0));
                }
                return false;
            }
            i = i + 1;
        }
        proof {
            assert forall|k: (NetAddress, Seq<u8>)| #[trigger] self@.contains_key(k) implies self@[k] <= clock_value(other@, k) by {
                let j = choose|j: int| 0 <= j < self.entries().len() && #[trigger] self.entries()[j].0 == k;
                lemma_assoc_lookup(self.entries(), j);
            }
        }
        true
    }

    /// How this clock relates to `other`: `Equal` when every counter matches
    /// (missing counters count as zero), `Before` when none of `self` exceeds
    /// `other`, `After` when none of `other` exceeds `self`, and `Concurrent`
    /// otherwise.
    pub fn compare_with(&self, other: &VectorClock) -> (r: VectorClockOrdering)
        requires
            self.wf(),
            other.wf(),
        ensures
            r == clock_order(self@, other@),
    {
        let self_le = self.le(other);
        let other_le = other.le(self);
        if self_le && other_le {
            VectorClockOrdering::Equal
        } else if self_le {
            VectorClockOrdering::Before
        } else if other_le {
            VectorClockOrdering::After
        } else {
            VectorClockOrdering::Concurrent
        }
    }
}

/// Comparing in the other direction swaps `Before` and `After` and keeps
/// `Equal` and `Concurrent`.
pub proof fn law_compare_converse(a: Map<(NetAddress, Seq<u8>), u64>, b: Map<(NetAddress, Seq<u8>), u64>)
    ensures
        (clock_order(a, b) == VectorClockOrdering::Before) == (clock_order(b, a) == VectorClockOrdering::After),
        (clock_order(a, b) == VectorClockOrdering::Equal) == (clock_order(b, a) == VectorClockOrdering::Equal),
        (clock_order(a, b) == VectorClockOrdering::Concurrent) == (clock_order(b, a) == VectorClockOrdering::Concurrent),
{
}

/// A clock is equal to itself.
pub proof fn law_compare_reflexive(a: Map<(NetAddress, Seq<u8>), u64>)
    ensures
        clock_order(a, a) == VectorClockOrdering::Equal,
{
}

/// After `increment`, the new clock happens after the old one.
pub proof fn law_increment_happens_after(c0: VectorClock, c1: VectorClock)
    requires
        c0.wf(),
        c1@ == c0@.insert(c0.owner(), (clock_value(c0@, c0.owner()) + 1) as u64),
        clock_value(c0@, c0.owner()) < u64::MAX,
    ensures
        clock_order(c1@, c0@) == VectorClockOrdering::After,
{
    let own = c0.owner();
    assert(c1@.contains_key(own));
    assert(!clock_le(c1@, c0@));
    assert forall|k: (NetAddress, Seq<u8>)| #[trigger] c0@.contains_key(k) implies c0@[k] <= clock_value(c1@, k) by {
        if k == own {
        } else {
            assert(c1@[k] == c0@[k]);
        }
    }
}

/// `update_from` never moves a clock back: the new clock is equal to or after the old one.
pub proof fn law_update_from_monotone(c0: VectorClock, c1: VectorClock, sender: (NetAddress, Seq<u8>), t: u64)
    requires
        c1@ == c0@.insert(
            sender,
            if clock_value(c0@, sender) >= t {
                clock_value(c0@, sender) as u64
            } else {
                t
            },
        ),
    ensures
        clock_order(c1@, c0@) == VectorClockOrdering::After || clock_order(c1@, c0@) == VectorClockOrdering::Equal,
        clock_value(c1@, sender) >= t,
{
    assert forall|k: (NetAddress, Seq<u8>)| #[trigger] c0@.contains_key(k) implies c0@[k] <= clock_value(c1@, k) by {
        if k == sender {
        } else {
            assert(c1@[k] == c0@[k]);
        }
    }
}

} // verus!
