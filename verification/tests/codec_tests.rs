use gossip::codec::{broadcast_subscribe, broadcast_unsubscribe, decode, encode, ControlMessage};
use gossip::client::Client;

#[test]
fn tags_are_the_wire_constants() {
    assert_eq!(broadcast_subscribe(), "__SUB__");
    assert_eq!(broadcast_unsubscribe(), "__UNSUB__");
}

#[test]
fn encode_subscribe_announce() {
    let m = ControlMessage::SubscribeAnnounce("weather".to_string());
    assert_eq!(encode(&m), "__SUB__ weather".to_string());
}

#[test]
fn encode_unsubscribe_announce() {
    let m = ControlMessage::UnsubscribeAnnounce("weather".to_string());
    assert_eq!(encode(&m), "__UNSUB__ weather".to_string());
}

#[test]
fn subscribe_round_trip() {
    let m = ControlMessage::SubscribeAnnounce("x".to_string());
    assert_eq!(decode(encode(&m).as_str()), m);
}

#[test]
fn unsubscribe_round_trip() {
    let m = ControlMessage::UnsubscribeAnnounce("x".to_string());
    assert_eq!(decode(encode(&m).as_str()), m);
}

#[test]
fn topic_with_spaces_round_trips() {
    let m = ControlMessage::SubscribeAnnounce("a b c".to_string());
    assert_eq!(decode(encode(&m).as_str()), m);
}

#[test]
fn unrecognized_input_stays_plain() {
    let r = decode("hello world");
    assert_eq!(r, ControlMessage::PlainTopicMessage("hello world".to_string()));
}

#[test]
fn bare_tag_degrades_to_plain() {
    assert_eq!(
        decode("__SUB__"),
        ControlMessage::PlainTopicMessage("__SUB__".to_string())
    );
}

#[test]
fn empty_topic_degrades_to_plain() {
    assert_eq!(
        decode("__SUB__ "),
        ControlMessage::PlainTopicMessage("__SUB__ ".to_string())
    );
    assert_eq!(
        decode("__UNSUB__ "),
        ControlMessage::PlainTopicMessage("__UNSUB__ ".to_string())
    );
}

#[test]
fn return_msg_type_decodes_announces() {
    assert_eq!(
        Client::return_msg_type("__UNSUB__ weather"),
        ControlMessage::UnsubscribeAnnounce("weather".to_string())
    );
}
