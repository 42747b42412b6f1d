use gossip::registry::PeerRegistry;

#[test]
fn discovery_inserts_one_record() {
    let mut reg = PeerRegistry::new();
    reg.on_peer_discovered("peer-a", "/ip4/10.0.0.1/tcp/4001");
    assert_eq!(reg.list().len(), 1);
    assert_eq!(reg.list()[0].0, "peer-a".to_string());
    assert_eq!(reg.list()[0].1.multi_addr, "/ip4/10.0.0.1/tcp/4001".to_string());
    assert!(reg.list()[0].1.subscribed_topics.is_empty());
}

#[test]
fn repeated_discovery_is_idempotent() {
    let mut reg = PeerRegistry::new();
    reg.on_peer_discovered("peer-a", "/ip4/10.0.0.1/tcp/4001");
    let known = reg.on_subscribe_announce("peer-a", "weather");
    assert!(known);
    reg.on_peer_discovered("peer-a", "/ip4/10.0.0.9/tcp/9999");
    assert_eq!(reg.list().len(), 1);
    assert_eq!(reg.list()[0].1.multi_addr, "/ip4/10.0.0.1/tcp/4001".to_string());
    assert_eq!(
        reg.list()[0].1.subscribed_topics,
        vec!["weather".to_string()]
    );
}

#[test]
fn expiry_removes_the_record() {
    let mut reg = PeerRegistry::new();
    reg.on_peer_discovered("peer-a", "addr-a");
    reg.on_peer_discovered("peer-b", "addr-b");
    reg.on_peer_expired("peer-a");
    assert_eq!(reg.list().len(), 1);
    assert_eq!(reg.list()[0].0, "peer-b".to_string());
    assert!(!reg.is_known("peer-a"));
}

#[test]
fn expiry_of_unknown_peer_is_a_no_op() {
    let mut reg = PeerRegistry::new();
    reg.on_peer_discovered("peer-a", "addr-a");
    reg.on_peer_expired("peer-z");
    assert_eq!(reg.list().len(), 1);
}

#[test]
fn announce_after_expiry_is_dropped() {
    let mut reg = PeerRegistry::new();
    reg.on_peer_discovered("peer-a", "addr-a");
    reg.on_peer_expired("peer-a");
    let known = reg.on_subscribe_announce("peer-a", "weather");
    assert!(!known);
    assert!(reg.list().is_empty());
    assert!(!reg.is_known("peer-a"));
}

#[test]
fn announce_updates_believed_set() {
    let mut reg = PeerRegistry::new();
    reg.on_peer_discovered("peer-a", "addr-a");
    assert!(reg.on_subscribe_announce("peer-a", "weather"));
    assert!(reg.on_subscribe_announce("peer-a", "news"));
    assert!(reg.on_subscribe_announce("peer-a", "weather"));
    assert_eq!(
        reg.list()[0].1.subscribed_topics,
        vec!["weather".to_string(), "news".to_string()]
    );
    assert!(reg.on_unsubscribe_announce("peer-a", "weather"));
    assert_eq!(reg.list()[0].1.subscribed_topics, vec!["news".to_string()]);
}

#[test]
fn unsubscribe_announce_of_absent_topic_is_a_no_op() {
    let mut reg = PeerRegistry::new();
    reg.on_peer_discovered("peer-a", "addr-a");
    assert!(reg.on_unsubscribe_announce("peer-a", "weather"));
    assert!(reg.list()[0].1.subscribed_topics.is_empty());
}
