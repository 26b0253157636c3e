use aries_connection::thread::Thread;

#[test]
fn increment_receiver_starts_at_zero_then_one() {
    let mut t = Thread::new();
    t.increment_receiver("did:peer:1");
    assert_eq!(t.received_orders.len(), 1);
    assert_eq!(t.received_orders[0].0, "did:peer:1".to_string());
    assert_eq!(t.received_orders[0].1, 0);
    t.increment_receiver("did:peer:1");
    assert_eq!(t.received_orders.len(), 1);
    assert_eq!(t.received_orders[0].1, 1);
}

#[test]
fn increment_receiver_tracks_peers_independently() {
    let mut t = Thread::new();
    t.increment_receiver("did:peer:a");
    t.increment_receiver("did:peer:b");
    t.increment_receiver("did:peer:a");
    assert_eq!(t.received_orders.len(), 2);
    assert_eq!(t.received_orders[0].0, "did:peer:a".to_string());
    assert_eq!(t.received_orders[0].1, 1);
    assert_eq!(t.received_orders[1].0, "did:peer:b".to_string());
    assert_eq!(t.received_orders[1].1, 0);
}

#[test]
fn new_thread_is_empty() {
    let t = Thread::new();
    assert_eq!(t.thid, None);
    assert_eq!(t.pthid, None);
    assert_eq!(t.sender_order, 0);
    assert_eq!(t.received_orders.len(), 0);
}

#[test]
fn set_thid_assigns_thread_id() {
    let t = Thread::new().set_thid("tid-1".to_string());
    assert_eq!(t.thid, Some("tid-1".to_string()));
    assert_eq!(t.pthid, None);
    assert_eq!(t.sender_order, 0);
    assert_eq!(t.received_orders.len(), 0);
}
