use ed25519_dalek::{Signer, SigningKey, SECRET_KEY_LENGTH};
use p2p::node::clock::{VectorClock, VectorClockOrdering};
use p2p::node::message::{MessageId, MessageSequencer};
use p2p::node::node_id::{KeyParsingError, LocalNodeId, NetAddress, NodeId, PublicKey, SecretKey};
use p2p::node::{
    gen_interval, gen_interval_with, handle_hyparview_action, interrupts_receive, leave, notify_self_disconnect,
    HyparviewAction, NodeEffect, Parameters, ProtocolKind, TickSchedule,
};
use rand::Rng;

fn key(seed: u8) -> PublicKey {
    SecretKey::from_secret_bytes([seed; 32]).public()
}

fn node(seed: u8, port: u16) -> NodeId {
    NodeId::new(NetAddress::V4 { ip: 0x7f000001, port }, LocalNodeId::new(key(seed)))
}

#[test]
fn test_sign() {
    let msg = "hello world".as_bytes();
    let msg2 = "hello world2".as_bytes();

    let mut secret_key_bytes: [u8; SECRET_KEY_LENGTH] = [0; SECRET_KEY_LENGTH];
    let mut rng = rand::thread_rng();
    for i in 0..SECRET_KEY_LENGTH {
        secret_key_bytes[i] = rng.gen::<u8>();
    }
    let secret = SecretKey::from_secret_bytes(secret_key_bytes);
    let signing_key = SigningKey::from_bytes(&secret.secret());
    let public_key = secret.public();
    assert_eq!(public_key.as_bytes(), signing_key.verifying_key().as_bytes());
    assert_eq!(public_key.to_hex(), data_encoding::HEXLOWER.encode(signing_key.verifying_key().as_bytes()));
    assert_eq!(secret.secret(), signing_key.to_bytes());

    let id = LocalNodeId::new(public_key);
    let signature = signing_key.sign(msg).to_bytes();
    assert!(id.verify(msg, &signature).is_ok());
    assert!(id.verify(msg2, &signature).is_err());
}

#[test]
fn public_key_hex_round_trip() {
    let k = key(7);
    let hex = k.to_hex();
    assert_eq!(hex.len(), 64);
    assert!(hex.chars().all(|c| c.is_ascii_digit() || ('a'..='f').contains(&c)));
    let back = PublicKey::from_str(&hex).unwrap();
    assert!(back.same_as(&k));
    assert_eq!(PublicKey::from_bytes(k.as_bytes()).unwrap(), k);
}

#[test]
fn public_key_parse_errors() {
    let upper = key(7).to_hex().to_uppercase();
    assert!(matches!(PublicKey::from_str(&upper), Err(KeyParsingError::DecodeError { .. })));
    let not_hex = "zz".repeat(32);
    assert!(matches!(PublicKey::from_str(&not_hex), Err(KeyParsingError::DecodeError { .. })));
    // y = 2 is not the y-coordinate of a curve point.
    let mut bad = [0u8; 32];
    bad[0] = 2;
    let bad_hex = data_encoding::HEXLOWER.encode(&bad);
    assert!(matches!(PublicKey::from_str(&bad_hex), Err(KeyParsingError::SignatureError { .. })));
    assert!(PublicKey::from_bytes(&bad).is_err());
}

#[test]
fn local_node_id_text() {
    let k = key(1);
    let id = LocalNodeId::new(k);
    assert_eq!(id.to_hex(), k.to_hex());
    assert_eq!(id.short(), k.to_hex()[..5].to_string());
    assert_eq!(id.as_bytes(), k.as_bytes());
    assert_eq!(id.public(), k);
    assert!(id.same_as(&LocalNodeId::new(key(1))));
    assert!(!id.same_as(&LocalNodeId::new(key(2))));
    assert_eq!(LocalNodeId::LENGTH, 32);
    let fresh = SecretKey::generate();
    assert_eq!(fresh.public().to_hex().len(), 64);
}

#[test]
fn node_id_parts() {
    let n = node(3, 4000);
    assert_eq!(n.address(), NetAddress::V4 { ip: 0x7f000001, port: 4000 });
    assert_eq!(n.address().port(), 4000);
    assert!(n.local_id().same_as(&LocalNodeId::new(key(3))));
    assert!(n.same_as(&node(3, 4000)));
    assert!(!n.same_as(&node(3, 4001)));
    assert!(!n.same_as(&node(4, 4000)));
    let v6 = NetAddress::V6 { ip: 1, port: 9, flowinfo: 0, scope_id: 0 };
    assert_eq!(v6.port(), 9);
}

#[test]
fn vector_clock_counts() {
    let a = node(1, 1);
    let b = node(2, 2);
    let mut ca = VectorClock::new(a);
    assert_eq!(ca.get_own_timestamp(), 0);
    ca.increment();
    ca.increment();
    assert_eq!(ca.get_own_timestamp(), 2);
    assert_eq!(ca.lookup(&b), 0);
    ca.update_from(&b, 5);
    assert_eq!(ca.lookup(&b), 5);
    ca.update_from(&b, 3);
    assert_eq!(ca.lookup(&b), 5);
}

#[test]
fn vector_clock_ordering() {
    let a = node(1, 1);
    let b = node(2, 2);
    let ca = VectorClock::new(a);
    let cb = VectorClock::new(b);
    assert_eq!(ca.compare_with(&ca), VectorClockOrdering::Equal);
    // missing counters count as zero
    assert_eq!(ca.compare_with(&cb), VectorClockOrdering::Equal);

    let mut ca1 = ca.clone();
    ca1.increment();
    assert_eq!(ca1.compare_with(&ca), VectorClockOrdering::After);
    assert_eq!(ca.compare_with(&ca1), VectorClockOrdering::Before);

    let mut cb1 = cb.clone();
    cb1.increment();
    assert_eq!(ca1.compare_with(&cb1), VectorClockOrdering::Concurrent);
    assert_eq!(cb1.compare_with(&ca1), VectorClockOrdering::Concurrent);

    let mut merged = ca1.clone();
    merged.update_from(&b, 1);
    assert_eq!(merged.compare_with(&cb1), VectorClockOrdering::After);
    assert_eq!(merged.compare_with(&ca1), VectorClockOrdering::After);
}

#[test]
fn message_ids_in_sequence() {
    let n = node(1, 1);
    let mut s = MessageSequencer::new();
    let a = s.next_id(n, 10);
    let b = s.next_id(n, 11);
    assert_eq!(a.seqno(), 0);
    assert_eq!(b.seqno(), 1);
    assert_ne!(a, b);
    assert_eq!(a.timestamp(), 10);
    assert!(a.node().same_as(&n));
    let m = MessageId::new(n, 7, 8);
    assert_eq!((m.seqno(), m.timestamp()), (7, 8));
}

#[test]
fn parameters_default() {
    let p = Parameters::default();
    assert_eq!(p.tick_interval, 100);
    assert_eq!(p.hyparview_shuffle_interval, 300_000);
    assert_eq!(p.hyparview_sync_active_view_interval, 60_000);
    assert_eq!(p.hyparview_fill_active_view_interval, 30_000);
}

#[test]
fn interval_jitter() {
    assert_eq!(gen_interval_with(1000, 0), 1000);
    assert_eq!(gen_interval_with(1000, 150), 1050);
    assert_eq!(gen_interval_with(1000, 99), 1099);
    for _ in 0..100 {
        let r = gen_interval(30_000);
        assert!((30_000..33_000).contains(&r));
    }
}

#[test]
fn tick_schedule_runs_due_tasks() {
    let p = Parameters::default();
    let mut s = TickSchedule::start_with(0, p, [0, 0, 0]);
    assert_eq!(s, TickSchedule { shuffle_at: 300_000, sync_at: 60_000, fill_at: 30_000 });
    let plan = s.on_tick_with(30_000, p, [1, 2, 3]);
    assert!(!plan.shuffle_passive_view && !plan.sync_active_view && plan.fill_active_view);
    assert_eq!(s, TickSchedule { shuffle_at: 300_000, sync_at: 60_000, fill_at: 60_003 });
    let plan = s.on_tick_with(300_000, p, [5, 6, 7]);
    assert!(plan.shuffle_passive_view && plan.sync_active_view && plan.fill_active_view);
    assert_eq!(s, TickSchedule { shuffle_at: 600_005, sync_at: 360_006, fill_at: 330_007 });
    let plan = s.on_tick(300_001, p);
    assert!(!plan.shuffle_passive_view && !plan.sync_active_view && !plan.fill_active_view);
    let r = TickSchedule::start(0, p);
    assert!((30_000..33_000).contains(&r.fill_at));
}

#[test]
fn hyparview_actions_to_effects() {
    let a = node(1, 1);
    let e = handle_hyparview_action(HyparviewAction::Send { destination: a });
    assert!(matches!(e.as_slice(), [NodeEffect::SendHyparview { destination }] if destination.same_as(&a)));
    let e = handle_hyparview_action(HyparviewAction::NeighborUp { node: a });
    assert!(matches!(e.as_slice(), [NodeEffect::PlumtreeNeighborUp { .. }]));
    let e = handle_hyparview_action(HyparviewAction::NeighborDown { node: a });
    assert!(matches!(e.as_slice(), [NodeEffect::PlumtreeNeighborDown { .. }]));
    let e = handle_hyparview_action(HyparviewAction::Disconnect { node: a });
    assert!(matches!(
        e.as_slice(),
        [NodeEffect::HyparviewDisconnect { alive: false, .. }, NodeEffect::RemoveRemoteNode { local_id }]
            if local_id.same_as(a.local_id())
    ));
}

#[test]
fn disconnect_and_leave_effects() {
    let me = node(9, 9);
    let a = node(1, 1);
    let b = node(2, 2);
    let e = notify_self_disconnect(&a);
    assert!(matches!(
        e.as_slice(),
        [NodeEffect::NotifyDisconnect { alive: false, .. }, NodeEffect::RemoveRemoteNode { .. }]
    ));
    let e = leave(me, &vec![a, b]);
    assert_eq!(e.len(), 6);
    assert!(matches!(e[0], NodeEffect::NotifyDisconnect { sender, alive: false } if sender.same_as(&a)));
    assert!(matches!(e[1], NodeEffect::RemoveRemoteNode { local_id } if local_id.same_as(a.local_id())));
    assert!(matches!(e[2], NodeEffect::SendDisconnect { destination, sender, alive: false }
        if destination.same_as(&a) && sender.same_as(&me)));
    assert!(matches!(e[5], NodeEffect::SendDisconnect { destination, .. } if destination.same_as(&b)));
    assert!(leave(me, &vec![]).is_empty());
    assert!(interrupts_receive(ProtocolKind::Hyparview));
    assert!(!interrupts_receive(ProtocolKind::Plumtree));
}

use p2p::node::{handle_plumtree_action, ConnectionPeer, PlumtreeAction, PollCmd, PollEvent, PollRound};

#[test]
fn plumtree_actions_to_effects() {
    let a = node(1, 1);
    let (e, deliver) = handle_plumtree_action(PlumtreeAction::Send { destination: a });
    assert!(!deliver);
    assert!(matches!(e.as_slice(), [NodeEffect::SendPlumtree { destination }] if destination.same_as(&a)));
    let (e, deliver) = handle_plumtree_action(PlumtreeAction::Deliver);
    assert!(deliver);
    assert!(e.is_empty());
}

#[test]
fn poll_round_drains_in_order() {
    let (mut r, c) = PollRound::start();
    assert_eq!(c, PollCmd::NextHyparviewAction);
    assert_eq!(r.on_event(PollEvent::HyparviewAction(true)), PollCmd::NextHyparviewAction);
    assert_eq!(r.on_event(PollEvent::HyparviewAction(false)), PollCmd::NextPlumtreeAction);
    assert_eq!(r.on_event(PollEvent::PlumtreeAction(Some(false))), PollCmd::NextPlumtreeAction);
    assert_eq!(r.on_event(PollEvent::PlumtreeAction(None)), PollCmd::NextInboxMessage);
    assert_eq!(r.on_event(PollEvent::InboxMessage(Some(ProtocolKind::Plumtree))), PollCmd::NextInboxMessage);
    // the round did something: another round follows
    assert_eq!(r.on_event(PollEvent::InboxMessage(None)), PollCmd::NextHyparviewAction);
    assert_eq!(r.on_event(PollEvent::HyparviewAction(false)), PollCmd::NextPlumtreeAction);
    assert_eq!(r.on_event(PollEvent::PlumtreeAction(None)), PollCmd::NextInboxMessage);
    // an idle round ends the pass
    assert_eq!(r.on_event(PollEvent::InboxMessage(None)), PollCmd::Pending);
    assert_eq!(r.on_event(PollEvent::HyparviewAction(true)), PollCmd::Pending);
}

#[test]
fn poll_round_stops_at_delivery_and_membership_message() {
    let (mut r, _) = PollRound::start();
    r.on_event(PollEvent::HyparviewAction(false));
    assert_eq!(r.on_event(PollEvent::PlumtreeAction(Some(true))), PollCmd::Deliver);
    let (mut r, _) = PollRound::start();
    r.on_event(PollEvent::HyparviewAction(false));
    r.on_event(PollEvent::PlumtreeAction(None));
    assert_eq!(r.on_event(PollEvent::InboxMessage(Some(ProtocolKind::Hyparview))), PollCmd::NextHyparviewAction);
    // an event that does not answer the current step changes nothing
    assert_eq!(r.on_event(PollEvent::PlumtreeAction(None)), PollCmd::NextHyparviewAction);
}

#[test]
fn connection_peer_learned_once() {
    let a = node(1, 1);
    let b = node(2, 2);
    let mut c = ConnectionPeer::new();
    assert!(c.on_closed().is_empty());
    assert!(c.on_message(None).is_empty());
    let e = c.on_message(Some(a));
    assert!(matches!(e.as_slice(), [NodeEffect::StoreConnection { local_id }] if local_id.same_as(a.local_id())));
    assert!(c.on_message(Some(b)).is_empty());
    let e = c.on_closed();
    assert!(matches!(
        e.as_slice(),
        [NodeEffect::NotifyDisconnect { sender, alive: false }, NodeEffect::RemoveRemoteNode { .. }] if sender.same_as(&a)
    ));
}
