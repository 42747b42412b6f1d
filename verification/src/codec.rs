//! Control-message codec.
//!
//! The wire format on the reserved control topic is plain UTF-8 text of two
//! space-separated tokens: a tag constant followed by a topic name, e.g.
//! `__SUB__ weather`. Decoding is total: anything that does not carry a known
//! tag and a non-empty topic degrades to an ordinary chat payload, kept
//! exactly as it arrived.

use vstd::prelude::*;
use vstd::string::*;
use crate::strutil::{
    first_space, has_space, lemma_space_at_bounds, lemma_space_at_found, split_first_space,
    split_head, split_tail, str_eq,
};

verus! {

/// The tag announcing a remote subscription.
pub open spec fn subscribe_tag() -> Seq<char> {
    "__SUB__"@
}

/// The tag announcing a remote unsubscription.
pub open spec fn unsubscribe_tag() -> Seq<char> {
    "__UNSUB__"@
}

/// The tag announcing a remote subscription, as wire text.
pub fn broadcast_subscribe() -> (r: &'static str)
    ensures
        r@ == subscribe_tag(),
{
    "__SUB__"
}

/// The tag announcing a remote unsubscription, as wire text.
pub fn broadcast_unsubscribe() -> (r: &'static str)
    ensures
        r@ == unsubscribe_tag(),
{
    "__UNSUB__"
}

/// A decoded inbound payload.
#[derive(Debug, PartialEq, Eq)]
pub enum ControlMessage {
    /// The sender announces it subscribed to the topic.
    SubscribeAnnounce(String),
    /// The sender announces it unsubscribed from the topic.
    UnsubscribeAnnounce(String),
    /// Anything else: an ordinary chat payload, kept unchanged.
    PlainTopicMessage(String),
}

/// The mathematical value of a decoded payload.
pub enum ControlMessageView {
    SubscribeAnnounce(Seq<char>),
    UnsubscribeAnnounce(Seq<char>),
    PlainTopicMessage(Seq<char>),
}

impl View for ControlMessage {
    type V = ControlMessageView;

    open spec fn view(&self) -> ControlMessageView {
        match self {
            ControlMessage::SubscribeAnnounce(t) => ControlMessageView::SubscribeAnnounce(t@),
            ControlMessage::UnsubscribeAnnounce(t) => ControlMessageView::UnsubscribeAnnounce(t@),
            ControlMessage::PlainTopicMessage(s) => ControlMessageView::PlainTopicMessage(s@),
        }
    }
}

/// What decoding yields on a given wire text: split on the first space; a
/// known tag with a non-empty topic gives an announce, all else stays plain.
pub open spec fn decode_spec(s: Seq<char>) -> ControlMessageView {
    let head = split_head(s);
    let tail = split_tail(s);
    if head == subscribe_tag() && tail.len() > 0 {
        ControlMessageView::SubscribeAnnounce(tail)
    } else if head == unsubscribe_tag() && tail.len() > 0 {
        ControlMessageView::UnsubscribeAnnounce(tail)
    } else {
        ControlMessageView::PlainTopicMessage(s)
    }
}

/// What encoding yields: the tag, one space and the topic; a plain payload is
/// kept as it is.
pub open spec fn encode_spec(m: ControlMessageView) -> Seq<char> {
    match m {
        ControlMessageView::SubscribeAnnounce(t) => subscribe_tag() + seq![' '] + t,
        ControlMessageView::UnsubscribeAnnounce(t) => unsubscribe_tag() + seq![' '] + t,
        ControlMessageView::PlainTopicMessage(s) => s,
    }
}

/// Decodes one inbound payload. Total: unrecognized input, a bare tag and a
/// tag with an empty topic all degrade to `PlainTopicMessage`.
pub fn decode(msg: &str) -> (r: ControlMessage)
    ensures
        r@ == decode_spec(msg@),
{
    let (head, tail) = split_first_space(msg);
    if str_eq(head, broadcast_subscribe()) && tail.unicode_len() > 0 {
        ControlMessage::SubscribeAnnounce(tail.to_owned())
    } else if str_eq(head, broadcast_unsubscribe()) && tail.unicode_len() > 0 {
        ControlMessage::UnsubscribeAnnounce(tail.to_owned())
    } else {
        ControlMessage::PlainTopicMessage(msg.to_owned())
    }
}

/// Encodes a control message to wire text.
pub fn encode(m: &ControlMessage) -> (r: String)
    ensures
        r@ == encode_spec(m@),
{
    match m {
        ControlMessage::SubscribeAnnounce(t) => encode_announce(broadcast_subscribe(), t),
        ControlMessage::UnsubscribeAnnounce(t) => encode_announce(broadcast_unsubscribe(), t),
        ControlMessage::PlainTopicMessage(s) => s.clone(),
    }
}

/// Joins a tag and a topic with one space.
fn encode_announce(tag: &str, topic: &String) -> (r: String)
    ensures
        r@ == tag@ + seq![' '] + topic@,
{
    let mut out = tag.to_owned();
    out.append(" ");
    out.append(topic.as_str());
    proof {
        reveal_strlit(" ");
        assert(" "@ =~= seq![' ']);
    }
    out
}

/// The encoding of an announce splits back into its tag and its topic: the
/// tag holds no space, so the separating space is the first one.
proof fn lemma_announce_splits(tag: Seq<char>, t: Seq<char>)
    requires
        tag.len() > 0,
        forall|k: int| 0 <= k < tag.len() ==> tag[k] != ' ',
    ensures
        split_head(tag + seq![' '] + t) == tag,
        split_tail(tag + seq![' '] + t) == t,
{
    let s = tag + seq![' '] + t;
    assert(s[tag.len() as int] == ' ');
    assert(forall|k: int| 0 <= k < tag.len() ==> s[k] == tag[k]);
    lemma_space_at_found(s, 0, tag.len() as int);
    assert(split_head(s) =~= tag);
    assert(split_tail(s) =~= t);
}

/// Each character of the two tags, and that neither holds a space.
proof fn lemma_tag_shapes()
    ensures
        subscribe_tag().len() == 7,
        unsubscribe_tag().len() == 9,
        forall|k: int| 0 <= k < subscribe_tag().len() ==> subscribe_tag()[k] != ' ',
        forall|k: int| 0 <= k < unsubscribe_tag().len() ==> unsubscribe_tag()[k] != ' ',
        subscribe_tag() != unsubscribe_tag(),
{
    reveal_strlit("__SUB__");
    reveal_strlit("__UNSUB__");
    assert forall|k: int| 0 <= k < subscribe_tag().len() implies subscribe_tag()[k] != ' ' by {
        assert(subscribe_tag()[0] == '_');
        assert(subscribe_tag()[1] == '_');
        assert(subscribe_tag()[2] == 'S');
        assert(subscribe_tag()[3] == 'U');
        assert(subscribe_tag()[4] == 'B');
        assert(subscribe_tag()[5] == '_');
        assert(subscribe_tag()[6] == '_');
    }
    assert forall|k: int| 0 <= k < unsubscribe_tag().len() implies unsubscribe_tag()[k] != ' ' by {
        assert(unsubscribe_tag()[0] == '_');
        assert(unsubscribe_tag()[1] == '_');
        assert(unsubscribe_tag()[2] == 'U');
        assert(unsubscribe_tag()[3] == 'N');
        assert(unsubscribe_tag()[4] == 'S');
        assert(unsubscribe_tag()[5] == 'U');
        assert(unsubscribe_tag()[6] == 'B');
        assert(unsubscribe_tag()[7] == '_');
        assert(unsubscribe_tag()[8] == '_');
    }
    assert(subscribe_tag().len() == 7);
    assert(unsubscribe_tag().len() == 9);
}

/// Round trip: a subscribe announce for a non-empty topic decodes back to
/// itself. (An empty topic degrades to a plain message by design.)
pub proof fn lemma_round_trip_subscribe(t: Seq<char>)
    requires
        t.len() > 0,
    ensures
        decode_spec(encode_spec(ControlMessageView::SubscribeAnnounce(t)))
            == ControlMessageView::SubscribeAnnounce(t),
{
    lemma_tag_shapes();
    lemma_announce_splits(subscribe_tag(), t);
}

/// Round trip: an unsubscribe announce for a non-empty topic decodes back to
/// itself.
pub proof fn lemma_round_trip_unsubscribe(t: Seq<char>)
    requires
        t.len() > 0,
    ensures
        decode_spec(encode_spec(ControlMessageView::UnsubscribeAnnounce(t)))
            == ControlMessageView::UnsubscribeAnnounce(t),
{
    lemma_tag_shapes();
    lemma_announce_splits(unsubscribe_tag(), t);
}

/// Any wire text whose first token is neither tag decodes to a plain message
/// holding the text exactly as it arrived.
pub proof fn lemma_decode_plain(s: Seq<char>)
    requires
        split_head(s) != subscribe_tag(),
        split_head(s) != unsubscribe_tag(),
    ensures
        decode_spec(s) == ControlMessageView::PlainTopicMessage(s),
{
}

} // verus!
