use p2p::gossipsub::{keep_latest, GossipSub, MessageCache, MessageCacheInner};
use p2p::model::message_view_model::{Message, UserType};
use p2p::time::Timestamp;

#[test]
fn t() {
    let mcache_len = 13;
    let mut windows = vec![1, 2, 3, 4, 5, 6, 7, 8, 9, 10, 11, 12];
    keep_latest(&mut windows, mcache_len);
    assert_eq!(windows, vec![1, 2, 3, 4, 5, 6, 7, 8, 9, 10, 11, 12]);
}

#[test]
fn keep_latest_drops_oldest() {
    let mut w = vec![1, 2, 3, 4, 5];
    keep_latest(&mut w, 2);
    assert_eq!(w, vec![4, 5]);
    keep_latest(&mut w, 0);
    assert!(w.is_empty());
}

#[test]
fn gossipsub_defaults() {
    let g = GossipSub::default();
    assert_eq!(g.d, 6);
    assert_eq!(g.d_low, 4);
    assert_eq!(g.d_high, 12);
    assert_eq!(g.d_lazy, Some(6));
    assert_eq!(g.heartbeat_interval_secs, 1);
    assert_eq!(g.fanout_ttl_secs, 60);
    assert_eq!(g.mcache_len, 6);
    assert_eq!(g.mcache_gossip, 3);
    assert_eq!(g.seen_ttl_secs, 120);
}

fn entry(id: &str, topic: &str) -> MessageCacheInner {
    let t = Timestamp { secs: 0, nanos: 0 };
    MessageCacheInner {
        id: id.to_string(),
        topic: topic.to_string(),
        cache_time: t,
        msg: Message::new(t, 0, id.to_string(), UserType::System, None),
    }
}

#[test]
fn message_cache_put_get_and_gossip() {
    let mut c = MessageCache::new(2);
    assert!(c.get("a").is_none());
    c.put(entry("a", "t1"));
    c.put(entry("b", "t2"));
    c.put(entry("c", "t1"));
    assert_eq!(c.get("b").map(|m| m.topic.clone()), Some("t2".to_string()));
    let ids: Vec<String> = c.get_gossip_ids("t1").unwrap().iter().map(|m| m.id.clone()).collect();
    assert_eq!(ids, vec!["a".to_string(), "c".to_string()]);
    assert!(c.get_gossip_ids("t3").is_none());
}

#[test]
fn message_cache_shift_keeps_newest() {
    let mut c = MessageCache::new(2);
    c.put(entry("a", "t"));
    c.put(entry("b", "t"));
    c.put(entry("c", "t"));
    c.shift();
    let ids: Vec<String> = c.windows.iter().map(|m| m.id.clone()).collect();
    assert_eq!(ids, vec!["b".to_string(), "c".to_string()]);
    assert!(c.get("a").is_none());
}
