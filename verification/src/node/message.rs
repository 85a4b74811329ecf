//! Identifiers of broadcast messages.

use vstd::prelude::*;

use crate::node::node_id::NodeId;

verus! {

/// The identifier of a broadcast message: who sent it, its sequence number
/// at the sender, and a timestamp.
#[derive(Debug, Clone, Copy, PartialEq, Eq, Hash, PartialOrd, Ord)]
pub struct MessageId {
    node: NodeId,
    seqno: u64,
    timestamp: u64,
}

impl MessageId {
    pub closed spec fn node_view(&self) -> NodeId {
        self.node
    }

    pub closed spec fn seqno_view(&self) -> u64 {
        self.seqno
    }

    pub closed spec fn timestamp_view(&self) -> u64 {
        self.timestamp
    }

    /// Returns the node identifier part of the message identifier.
    pub fn node(&self) -> (n: NodeId)
        ensures
            n == self.node_view(),
    {
        self.node
    }

    /// Returns the sequence number part of the message identifier.
    pub fn seqno(&self) -> (s: u64)
        ensures
            s == self.seqno_view(),
    {
        self.seqno
    }

    /// Returns the timestamp part of the message identifier.
    pub fn timestamp(&self) -> (t: u64)
        ensures
            t == self.timestamp_view(),
    {
        self.timestamp
    }

    pub fn new(node: NodeId, seqno: u64, timestamp: u64) -> (m: MessageId)
        ensures
            m.node_view() == node,
            m.seqno_view() == seqno,
            m.timestamp_view() == timestamp,
    {
        MessageId { node, seqno, timestamp }
    }
}

/// Hands out the identifiers of the messages a node broadcasts: sequence
/// numbers 0, 1, 2, ... in order.
#[derive(Debug, Clone, Default)]
pub struct MessageSequencer {
    next_seqno: u64,
}

impl MessageSequencer {
    pub closed spec fn next(&self) -> u64 {
        self.next_seqno
    }

    pub fn new() -> (s: MessageSequencer)
        ensures
            s.next() == 0,
    {
        MessageSequencer { next_seqno: 0 }
    }

    /// The sequence number of the next message.
    pub fn next_seqno(&self) -> (n: u64)
        ensures
            n == self.next(),
    {
        self.next_seqno
    }

    /// The identifier of the next message of `node`; the sequence number
    /// moves on by one.
    pub fn next_id(&mut self, node: NodeId, timestamp: u64) -> (id: MessageId)
        requires
            old(self).next() < u64::MAX,
        ensures
            id.node_view() == node,
            id.seqno_view() == old(self).next(),
            id.timestamp_view() == timestamp,
            final(self).next() == old(self).next() + 1,
    {
        let id = MessageId::new(node, self.next_seqno, timestamp);
        self.next_seqno = self.next_seqno + 1;
        id
    }
}

/// Two identifiers handed out one after the other by the same sequencer
/// differ: the later one has the larger sequence number.
pub proof fn law_sequence_numbers_increase(s0: MessageSequencer, s1: MessageSequencer, s2: MessageSequencer, a: MessageId, b: MessageId)
    requires
        a.seqno_view() == s0.next(),
        s1.next() == s0.next() + 1,
        b.seqno_view() == s1.next(),
        s2.next() == s1.next() + 1,
    ensures
        a.seqno_view() < b.seqno_view(),
        a != b,
{
}

/// The payload of a broadcast message.
pub trait MessagePayload: Sized + Clone + Send + Sync + 'static + std::fmt::Debug {

}

} // verus!
