//! Parameters of a gossip overlay and its cache of recent messages, kept in
//! history windows.

use vstd::prelude::*;

use crate::model::message_view_model::Message;
use crate::text::str_eq;
use crate::time::Timestamp;

verus! {

/// Parameters of the gossip overlay.
#[derive(Debug, Clone, Copy, PartialEq, Eq, Structural)]
pub struct GossipSub {
    /// Desired out-degree of the network.
    pub d: usize,
    /// Lower bound of the out-degree.
    pub d_low: usize,
    /// Upper bound of the out-degree.
    pub d_high: usize,
    /// Out-degree of gossip emission, if any.
    pub d_lazy: Option<usize>,
    /// Time between heartbeats, in seconds.
    pub heartbeat_interval_secs: u64,
    /// Time to live of the fan-out state of a topic, in seconds.
    pub fanout_ttl_secs: u64,
    /// Number of history windows in the message cache.
    pub mcache_len: usize,
    /// Number of history windows used when gossiping.
    pub mcache_gossip: usize,
    /// Expiry of the seen-message cache, in seconds.
    pub seen_ttl_secs: u64,
}

impl Default for GossipSub {
    fn default() -> (g: GossipSub)
        ensures
            g == (GossipSub {
                d: 6,
                d_low: 4,
                d_high: 12,
                d_lazy: Some(6),
                heartbeat_interval_secs: 1,
                fanout_ttl_secs: 60,
                mcache_len: 6,
                mcache_gossip: 3,
                seen_ttl_secs: 120,
            }),
    {
        GossipSub {
            d: 6,
            d_low: 4,
            d_high: 12,
            d_lazy: Some(6),
            heartbeat_interval_secs: 1,
            fanout_ttl_secs: 60,
            mcache_len: 6,
            mcache_gossip: 3,
            seen_ttl_secs: 120,
        }
    }
}

/// A cached message with its id and topic.
#[derive(Debug, Clone)]
pub struct MessageCacheInner {
    pub id: String,
    pub topic: String,
    pub cache_time: Timestamp,
    pub msg: Message,
}

/// The last `n` items of `s` (all of them when it has fewer).
pub open spec fn latest<T>(s: Seq<T>, n: nat) -> Seq<T> {
    if s.len() > n {
        s.skip(s.len() - n)
    } else {
        s
    }
}

/// Keeps only the last `n` items of `windows`, in order.
pub fn keep_latest<T>(windows: &mut Vec<T>, n: usize)
    ensures
        final(windows)@ == latest(old(windows)@, n as nat),
{
    let len = windows.len();
    let start = len.saturating_sub(n);
    let tail = windows.split_off(start);
    *windows = tail;
    assert(latest(old(windows)@, n as nat) =~= old(windows)@.subrange(start as int, len as int));
}

/// The cached messages of a topic, in cache order.
pub open spec fn with_topic(ws: Seq<MessageCacheInner>, topic: Seq<char>) -> Seq<MessageCacheInner>
    decreases ws.len(),
{
    if ws.len() == 0 {
        Seq::empty()
    } else {
        let r = with_topic(ws.drop_last(), topic);
        if ws.last().topic@ == topic {
            r.push(ws.last())
        } else {
            r
        }
    }
}

/// The recent messages, oldest first, one history window each.
#[derive(Debug, Clone)]
pub struct MessageCache {
    pub mcache_len: usize,
    pub windows: Vec<MessageCacheInner>,
}

impl MessageCache {
    /// An empty cache that keeps `mcache_len` windows.
    pub fn new(mcache_len: usize) -> (c: MessageCache)
        ensures
            c.mcache_len == mcache_len,
            c.windows@ == Seq::<MessageCacheInner>::empty(),
    {
        MessageCache { mcache_len, windows: Vec::new() }
    }

    /// Adds a message at the end.
    pub fn put(&mut self, m: MessageCacheInner)
        ensures
            final(self).windows@ == old(self).windows@.push(m),
            final(self).mcache_len == old(self).mcache_len,
    {
        self.windows.push(m);
    }

    /// The first cached message with id `id`.
    pub fn get(&self, id: &str) -> (r: Option<&MessageCacheInner>)
        ensures
            match r {
                Some(m) => exists|i: int|
                    0 <= i < self.windows@.len() && self.windows@[i] == *m && m.id@ == id@ && forall|j: int|
                        0 <= j < i ==> #[trigger] self.windows@[j].id@ != id@,
                None => forall|j: int| 0 <= j < self.windows@.len() ==> #[trigger] self.windows@[j].id@ != id@,
            },
    {
        let mut i: usize = 0;
        while i < self.windows.len()
            invariant
                i <= self.windows@.len(),
                forall|j: int| 0 <= j < i ==> #[trigger] self.windows@[j].id@ != id@,
            decreases self.windows@.len() - i,
        {
            if str_eq(self.windows[i].id.as_str(), id) {
                return Some(&self.windows[i]);
            }
            i = i + 1;
        }
        None
    }

    /// The cached messages of topic `topic`, in cache order; `None` when there is none.
    pub fn get_gossip_ids(&self, topic: &str) -> (r: Option<Vec<&MessageCacheInner>>)
        ensures
            match r {
                Some(v) => v@.len() > 0 && v@.map_values(|m: &MessageCacheInner| *m) == with_topic(self.windows@, topic@),
                None => with_topic(self.windows@, topic@).len() == 0,
            },
    {
        let mut res: Vec<&MessageCacheInner> = Vec::new();
        let mut i: usize = 0;
        assert(self.windows@.take(0) =~= Seq::<MessageCacheInner>::empty());
        while i < self.windows.len()
            invariant
                i <= self.windows@.len(),
                res@.map_values(|m: &MessageCacheInner| *m) == with_topic(self.windows@.take(i as int), topic@),
            decreases self.windows@.len() - i,
        {
            let inner = &self.windows[i];
            assert(self.windows@.take(i + 1).drop_last() =~= self.windows@.take(i as int));
            let ghost before = res@;
            if str_eq(inner.topic.as_str(), topic) {
                res.push(inner);
                assert(res@.map_values(|m: &MessageCacheInner| *m) =~= before.map_values(|m: &MessageCacheInner| *m).push(*inner));
            }
            i = i + 1;
        }
        assert(self.windows@.take(self.windows@.len() as int) =~= self.windows@);
        if res.len() == 0 {
            None
        } else {
            Some(res)
        }
    }

    /// Drops all but the last `mcache_len` windows.
    pub fn shift(&mut self)
        ensures
            final(self).windows@ == latest(old(self).windows@, old(self).mcache_len as nat),
            final(self).mcache_len == old(self).mcache_len,
    {
        keep_latest(&mut self.windows, self.mcache_len);
    }
}

/// After a shift the cache holds at most `mcache_len` windows, and it keeps
/// the newest ones in order: the shifted cache is a suffix of the old one.
pub proof fn law_shift_keeps_newest<T>(s: Seq<T>, n: nat)
    ensures
        latest(s, n).len() <= n || latest(s, n) == s,
        latest(s, n).len() == if s.len() > n { n } else { s.len() },
        forall|i: int| 0 <= i < latest(s, n).len() ==> #[trigger] latest(s, n)[i] == s[s.len() - latest(s, n).len() + i],
{
}

} // verus!
