use gossip::control_topic_name;
use gossip::errors::MessagePropogationErrors;
use gossip::helper::center_padding;
use gossip::state::{broadcast_failure_line, send_failure_line, PeerIdentity};

fn fresh_peer() -> PeerIdentity {
    PeerIdentity::new("local-peer".to_string())
}

#[test]
fn control_topic_is_global() {
    assert_eq!(control_topic_name(), "global".to_string());
}

#[test]
fn successful_subscribe_updates_set_and_announces_once() {
    let mut peer = fresh_peer();
    let out = peer.on_subscribe_result("weather", true);
    assert!(out.result.is_ok());
    assert_eq!(
        out.feedback,
        Some("Subscribed to weather sucessfully".to_string())
    );
    assert_eq!(out.announce, Some("__SUB__ weather".to_string()));
    assert_eq!(peer.subscribed_topics, vec!["weather".to_string()]);
}

#[test]
fn subscribing_twice_keeps_one_entry() {
    let mut peer = fresh_peer();
    peer.on_subscribe_result("weather", true);
    let out = peer.on_subscribe_result("weather", true);
    assert!(out.result.is_ok());
    assert_eq!(out.announce, Some("__SUB__ weather".to_string()));
    assert_eq!(peer.subscribed_topics, vec!["weather".to_string()]);
}

#[test]
fn failed_subscribe_changes_nothing() {
    let mut peer = fresh_peer();
    let out = peer.on_subscribe_result("weather", false);
    assert_eq!(
        out.result,
        Err(MessagePropogationErrors::UnableToSubscribe)
    );
    assert_eq!(out.feedback, None);
    assert_eq!(out.announce, None);
    assert!(peer.subscribed_topics.is_empty());
}

#[test]
fn unsubscribe_when_never_subscribed_sends_no_broadcast() {
    let mut peer = fresh_peer();
    let out = peer.on_unsubscribe_result("weather", false);
    assert_eq!(
        out.result,
        Err(MessagePropogationErrors::UnableToUnsubscribe)
    );
    assert_eq!(out.feedback, Some("Not subscribed to topic".to_string()));
    assert_eq!(out.announce, None);
    assert!(peer.subscribed_topics.is_empty());
}

#[test]
fn successful_unsubscribe_removes_topic_and_announces() {
    let mut peer = fresh_peer();
    peer.on_subscribe_result("weather", true);
    peer.on_subscribe_result("news", true);
    let out = peer.on_unsubscribe_result("weather", true);
    assert!(out.result.is_ok());
    assert_eq!(
        out.feedback,
        Some("Unsubscribed from weather succesfully".to_string())
    );
    assert_eq!(out.announce, Some("__UNSUB__ weather".to_string()));
    assert_eq!(peer.subscribed_topics, vec!["news".to_string()]);
}

#[test]
fn send_message_requires_subscription() {
    let mut peer = fresh_peer();
    assert_eq!(
        peer.send_message("weather", true),
        Err(MessagePropogationErrors::NotPartOfTopic)
    );
    peer.on_subscribe_result("weather", true);
    assert_eq!(peer.send_message("weather", true), Ok(()));
    assert_eq!(
        peer.send_message("weather", false),
        Err(MessagePropogationErrors::UnableToSendMessage)
    );
}

#[test]
fn discovery_then_announce_fills_believed_set() {
    let mut peer = fresh_peer();
    peer.known_peers
        .on_peer_discovered("peer-p", "/ip4/10.0.0.2/tcp/4001");
    let out = peer.on_control_message("peer-p", "__SUB__ weather");
    assert_eq!(out.chat_line, None);
    assert_eq!(out.warning, None);
    let listed = peer.get_known_peers().list();
    assert_eq!(listed.len(), 1);
    assert_eq!(listed[0].0, "peer-p".to_string());
    assert_eq!(listed[0].1.subscribed_topics, vec!["weather".to_string()]);
}

#[test]
fn announce_from_unknown_peer_warns_and_creates_nothing() {
    let mut peer = fresh_peer();
    let out = peer.on_control_message("peer-x", "__SUB__ weather");
    assert_eq!(out.chat_line, None);
    assert_eq!(
        out.warning,
        Some("Broadcast message received from an unknown peer".to_string())
    );
    assert!(peer.get_known_peers().list().is_empty());
}

#[test]
fn plain_payload_becomes_attributed_chat() {
    let mut peer = fresh_peer();
    let out = peer.on_control_message("peer-p", "hello there");
    assert_eq!(out.chat_line, Some("peer-p: hello there".to_string()));
    assert_eq!(out.warning, None);
}

#[test]
fn listen_address_is_stored() {
    let mut peer = fresh_peer();
    assert_eq!(peer.multi_addr, None);
    peer.on_listen_addr("/ip4/127.0.0.1/udp/9/quic-v1".to_string());
    assert_eq!(
        peer.multi_addr,
        Some("/ip4/127.0.0.1/udp/9/quic-v1".to_string())
    );
    assert_eq!(peer.get_peer(), &"local-peer".to_string());
}

#[test]
fn error_messages_are_the_fixed_texts() {
    assert_eq!(
        MessagePropogationErrors::NotPartOfTopic.message(),
        "Not Part of Topic".to_string()
    );
    assert_eq!(
        MessagePropogationErrors::UnableToSubscribe.message(),
        "Unable To Subscribe".to_string()
    );
    assert_eq!(
        MessagePropogationErrors::UnableToUnsubscribe.message(),
        "Not Subscribed to topic".to_string()
    );
    assert_eq!(
        MessagePropogationErrors::UnableToSendMessage.message(),
        "Could not send message to topic".to_string()
    );
    assert_eq!(
        MessagePropogationErrors::UnableToBuildSwarm.message(),
        "Unable to build swarm".to_string()
    );
}

#[test]
fn failure_lines_name_what_failed() {
    assert_eq!(
        broadcast_failure_line(),
        "Unable to send subscription broadcast to peer".to_string()
    );
    assert_eq!(
        send_failure_line("weather"),
        "Unable to send message in topic: weather".to_string()
    );
}

#[test]
fn centering_splits_the_leftover_columns() {
    assert_eq!(center_padding("abc", 11), 4);
    assert_eq!(center_padding("abc", 3), 0);
    assert_eq!(center_padding("abcdef", 3), 0);
    assert_eq!(center_padding("", 10), 5);
}
