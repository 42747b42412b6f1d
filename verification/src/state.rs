//! Local peer state and the decisions of the event loop.
//!
//! `PeerIdentity` owns the local identity, the local subscription set, the
//! listen address once one is assigned, and the peer registry. The handlers
//! here take the outcome of each substrate call as a plain value and decide
//! everything else: how the state changes, what is announced on the control
//! topic, and what is reported to the user. The unverified runner only
//! performs the calls and prints the returned lines.

use vstd::prelude::*;
use vstd::string::*;
use crate::base::PeerInfo;
use crate::codec::{encode, encode_spec, ControlMessage, ControlMessageView};
use crate::codec::decode_spec;
use crate::errors::MessagePropogationErrors;
use crate::registry::{
    distinct_topics, insert_topic, lemma_insert_topic_distinct, lemma_remove_topic_absent,
    reg_has, remove_topic, subscribe_announce_step, unsubscribe_announce_step, PeerRegistry,
    RecordView,
};
use crate::strutil::{str_position, vec_contains_str, views_of};

verus! {

/// The confirmation line printed after a successful subscription.
pub open spec fn subscribe_confirmation(t: Seq<char>) -> Seq<char> {
    "Subscribed to "@ + t + " sucessfully"@
}

/// The confirmation line printed after a successful unsubscription.
pub open spec fn unsubscribe_confirmation(t: Seq<char>) -> Seq<char> {
    "Unsubscribed from "@ + t + " succesfully"@
}

/// The notice printed when unsubscribing from a topic that was not subscribed.
pub open spec fn not_subscribed_notice() -> Seq<char> {
    "Not subscribed to topic"@
}

/// The log line for a control broadcast whose sender has no registry record.
pub open spec fn unknown_peer_warning() -> Seq<char> {
    "Broadcast message received from an unknown peer"@
}

/// How a plain chat payload is shown: the sender, a separator, the text.
pub open spec fn chat_line_of(sender: Seq<char>, raw: Seq<char>) -> Seq<char> {
    sender + ": "@ + raw
}

/// Effect of one inbound payload on the registry model: announces mutate the
/// sender's record, anything else leaves the registry as it is.
pub open spec fn control_step(r: Seq<RecordView>, sender: Seq<char>, raw: Seq<char>) -> Seq<
    RecordView,
> {
    match decode_spec(raw) {
        ControlMessageView::SubscribeAnnounce(t) => subscribe_announce_step(r, sender, t),
        ControlMessageView::UnsubscribeAnnounce(t) => unsubscribe_announce_step(r, sender, t),
        ControlMessageView::PlainTopicMessage(_) => r,
    }
}

/// What the dispatch of one subscribe or unsubscribe command hands back to
/// the runner: the typed result, at most one line of user feedback, and at
/// most one announce payload for the control topic.
#[derive(Debug, PartialEq, Eq)]
pub struct CommandOutcome {
    pub result: Result<(), MessagePropogationErrors>,
    pub feedback: Option<String>,
    pub announce: Option<String>,
}

/// What one inbound payload hands back to the runner.
#[derive(Debug, PartialEq, Eq)]
pub struct InboundOutcome {
    pub chat_line: Option<String>,
    pub warning: Option<String>,
}

/// The local peer: identity, listen address, own subscriptions, registry.
#[derive(Debug, PartialEq, Eq)]
pub struct PeerIdentity {
    pub peer_id: String,
    pub multi_addr: Option<String>,
    pub known_peers: PeerRegistry,
    pub subscribed_topics: Vec<String>,
}

impl PeerIdentity {
    /// The local subscription set, as a repetition-free sequence of topics.
    pub open spec fn topics(&self) -> Seq<Seq<char>> {
        views_of(self.subscribed_topics@)
    }

    pub open spec fn wf(&self) -> bool {
        &&& distinct_topics(self.topics())
        &&& self.known_peers.wf()
    }

    /// A fresh local peer: no address, no subscriptions, no known peers.
    pub fn new(peer_id: String) -> (r: Self)
        ensures
            r.peer_id == peer_id,
            r.multi_addr is None,
            r.topics() =~= Seq::<Seq<char>>::empty(),
            r.known_peers@ =~= Seq::<RecordView>::empty(),
            r.wf(),
    {
        PeerIdentity {
            peer_id,
            multi_addr: None,
            known_peers: PeerRegistry::new(),
            subscribed_topics: Vec::new(),
        }
    }

    /// Whether the local peer is subscribed to `topic`.
    pub fn is_subscribed_to(&self, topic: &str) -> (r: bool)
        ensures
            r == self.topics().contains(topic@),
    {
        vec_contains_str(&self.subscribed_topics, topic)
    }

    /// Records the outcome of a substrate subscribe call: on success the
    /// topic joins the local set; on failure nothing changes.
    pub fn subscribe(&mut self, topic: &str, substrate_ok: bool) -> (r: Result<
        (),
        MessagePropogationErrors,
    >)
        requires
            old(self).wf(),
        ensures
            final(self).wf(),
            final(self).peer_id == old(self).peer_id,
            final(self).multi_addr == old(self).multi_addr,
            final(self).known_peers == old(self).known_peers,
            substrate_ok ==> r is Ok && final(self).topics() == insert_topic(
                old(self).topics(),
                topic@,
            ) && final(self).topics().contains(topic@),
            !substrate_ok ==> r == Err::<(), MessagePropogationErrors>(
                MessagePropogationErrors::UnableToSubscribe,
            ) && *final(self) == *old(self),
    {
        if !substrate_ok {
            return Err(MessagePropogationErrors::UnableToSubscribe);
        }
        proof {
            lemma_insert_topic_distinct(self.topics(), topic@);
        }
        if !vec_contains_str(&self.subscribed_topics, topic) {
            self.subscribed_topics.push(topic.to_owned());
            proof {
                assert(self.topics() =~= old(self).topics().push(topic@));
            }
        }
        Ok(())
    }

    /// Records the outcome of a substrate unsubscribe call: when the peer was
    /// subscribed the topic leaves the local set; otherwise nothing changes.
    pub fn unsubscribe(&mut self, topic: &str, was_subscribed: bool) -> (r: Result<
        (),
        MessagePropogationErrors,
    >)
        requires
            old(self).wf(),
        ensures
            final(self).wf(),
            final(self).peer_id == old(self).peer_id,
            final(self).multi_addr == old(self).multi_addr,
            final(self).known_peers == old(self).known_peers,
            was_subscribed ==> r is Ok && final(self).topics() == remove_topic(
                old(self).topics(),
                topic@,
            ) && !final(self).topics().contains(topic@),
            !was_subscribed ==> r == Err::<(), MessagePropogationErrors>(
                MessagePropogationErrors::UnableToUnsubscribe,
            ) && *final(self) == *old(self),
    {
        if !was_subscribed {
            return Err(MessagePropogationErrors::UnableToUnsubscribe);
        }
        proof {
            lemma_remove_topic_absent(self.topics(), topic@);
        }
        let p = str_position(&self.subscribed_topics, topic);
        if p < self.subscribed_topics.len() {
            proof {
                crate::registry::lemma_topic_index_unique(self.topics(), topic@, p as int);
            }
            self.subscribed_topics.remove(p);
            proof {
                assert(self.topics() =~= old(self).topics().remove(p as int));
            }
        }
        Ok(())
    }

    /// Decides a send command: publishing is owed only on a subscribed topic,
    /// and a failed publish is reported as a typed error.
    pub fn send_message(&self, topic: &str, publish_ok: bool) -> (r: Result<
        (),
        MessagePropogationErrors,
    >)
        ensures
            !self.topics().contains(topic@) ==> r == Err::<(), MessagePropogationErrors>(
                MessagePropogationErrors::NotPartOfTopic,
            ),
            self.topics().contains(topic@) && publish_ok ==> r is Ok,
            self.topics().contains(topic@) && !publish_ok ==> r == Err::<
                (),
                MessagePropogationErrors,
            >(MessagePropogationErrors::UnableToSendMessage),
    {
        if !self.is_subscribed_to(topic) {
            Err(MessagePropogationErrors::NotPartOfTopic)
        } else if !publish_ok {
            Err(MessagePropogationErrors::UnableToSendMessage)
        } else {
            Ok(())
        }
    }

    /// Full dispatch of a subscribe command, given the substrate's answer:
    /// on success exactly one subscribe announce for the topic is handed back
    /// for the control topic, with the confirmation line; on failure the
    /// state is untouched and nothing is announced.
    pub fn on_subscribe_result(&mut self, topic: &str, substrate_ok: bool) -> (out: CommandOutcome)
        requires
            old(self).wf(),
        ensures
            final(self).wf(),
            final(self).peer_id == old(self).peer_id,
            final(self).multi_addr == old(self).multi_addr,
            final(self).known_peers == old(self).known_peers,
            substrate_ok ==> {
                &&& out.result is Ok
                &&& final(self).topics() == insert_topic(old(self).topics(), topic@)
                &&& final(self).topics().contains(topic@)
                &&& out.feedback is Some && out.feedback->0@ == subscribe_confirmation(topic@)
                &&& out.announce is Some && out.announce->0@ == encode_spec(
                    ControlMessageView::SubscribeAnnounce(topic@),
                )
            },
            !substrate_ok ==> {
                &&& out.result == Err::<(), MessagePropogationErrors>(
                    MessagePropogationErrors::UnableToSubscribe,
                )
                &&& *final(self) == *old(self)
                &&& out.feedback is None
                &&& out.announce is None
            },
    {
        let result = self.subscribe(topic, substrate_ok);
        if result.is_ok() {
            let mut confirm = "Subscribed to ".to_owned();
            confirm.append(topic);
            confirm.append(" sucessfully");
            let announce = encode(&ControlMessage::SubscribeAnnounce(topic.to_owned()));
            CommandOutcome { result, feedback: Some(confirm), announce: Some(announce) }
        } else {
            CommandOutcome { result, feedback: None, announce: None }
        }
    }

    /// Full dispatch of an unsubscribe command, given whether the substrate
    /// reported the topic as subscribed: when it was, the topic leaves the
    /// local set and exactly one unsubscribe announce is handed back; when it
    /// was not, the state is unchanged and no broadcast is sent.
    pub fn on_unsubscribe_result(&mut self, topic: &str, was_subscribed: bool) -> (out:
        CommandOutcome)
        requires
            old(self).wf(),
        ensures
            final(self).wf(),
            final(self).peer_id == old(self).peer_id,
            final(self).multi_addr == old(self).multi_addr,
            final(self).known_peers == old(self).known_peers,
            was_subscribed ==> {
                &&& out.result is Ok
                &&& final(self).topics() == remove_topic(old(self).topics(), topic@)
                &&& !final(self).topics().contains(topic@)
                &&& out.feedback is Some && out.feedback->0@ == unsubscribe_confirmation(topic@)
                &&& out.announce is Some && out.announce->0@ == encode_spec(
                    ControlMessageView::UnsubscribeAnnounce(topic@),
                )
            },
            !was_subscribed ==> {
                &&& out.result == Err::<(), MessagePropogationErrors>(
                    MessagePropogationErrors::UnableToUnsubscribe,
                )
                &&& *final(self) == *old(self)
                &&& out.feedback is Some && out.feedback->0@ == not_subscribed_notice()
                &&& out.announce is None
            },
    {
        let result = self.unsubscribe(topic, was_subscribed);
        if result.is_ok() {
            let mut confirm = "Unsubscribed from ".to_owned();
            confirm.append(topic);
            confirm.append(" succesfully");
            let announce = encode(&ControlMessage::UnsubscribeAnnounce(topic.to_owned()));
            CommandOutcome { result, feedback: Some(confirm), announce: Some(announce) }
        } else {
            CommandOutcome {
                result,
                feedback: Some("Not subscribed to topic".to_owned()),
                announce: None,
            }
        }
    }

    /// Routes one inbound payload: announces mutate the sender's registry
    /// record (dropped with a warning when the sender is unknown); anything
    /// else becomes a chat line attributed to the sender, kept verbatim.
    pub fn on_control_message(&mut self, sender_id: &str, raw: &str) -> (out: InboundOutcome)
        requires
            old(self).wf(),
        ensures
            final(self).wf(),
            final(self).peer_id == old(self).peer_id,
            final(self).multi_addr == old(self).multi_addr,
            final(self).subscribed_topics == old(self).subscribed_topics,
            final(self).known_peers@ == control_step(old(self).known_peers@, sender_id@, raw@),
            out.chat_line is Some <==> decode_spec(raw@) is PlainTopicMessage,
            out.chat_line is Some ==> out.chat_line->0@ == chat_line_of(sender_id@, raw@),
            out.warning is Some <==> !(decode_spec(raw@) is PlainTopicMessage) && !reg_has(
                old(self).known_peers@,
                sender_id@,
            ),
            out.warning is Some ==> out.warning->0@ == unknown_peer_warning(),
    {
        let message = crate::codec::decode(raw);
        match message {
            ControlMessage::SubscribeAnnounce(t) => {
                let known = self.known_peers.on_subscribe_announce(sender_id, t.as_str());
                let warning = if known {
                    None
                } else {
                    Some("Broadcast message received from an unknown peer".to_owned())
                };
                InboundOutcome { chat_line: None, warning }
            },
            ControlMessage::UnsubscribeAnnounce(t) => {
                let known = self.known_peers.on_unsubscribe_announce(sender_id, t.as_str());
                let warning = if known {
                    None
                } else {
                    Some("Broadcast message received from an unknown peer".to_owned())
                };
                InboundOutcome { chat_line: None, warning }
            },
            ControlMessage::PlainTopicMessage(_) => {
                let mut line = sender_id.to_owned();
                line.append(": ");
                line.append(raw);
                InboundOutcome { chat_line: Some(line), warning: None }
            },
        }
    }

    /// Stores the listen address the transport reported.
    pub fn on_listen_addr(&mut self, addr: String)
        requires
            old(self).wf(),
        ensures
            final(self).wf(),
            final(self).multi_addr == Some(addr),
            final(self).peer_id == old(self).peer_id,
            final(self).known_peers == old(self).known_peers,
            final(self).subscribed_topics == old(self).subscribed_topics,
    {
        self.multi_addr = Some(addr);
    }

    /// The local peer's identifier.
    pub fn get_peer(&self) -> (r: &String)
        ensures
            r == &self.peer_id,
    {
        &self.peer_id
    }

    /// The registry of known peers.
    pub fn get_known_peers(&self) -> (r: &PeerRegistry)
        ensures
            r == &self.known_peers,
    {
        &self.known_peers
    }
}

/// The notice printed when the announce broadcast itself could not be sent.
pub fn broadcast_failure_line() -> (r: String)
    ensures
        r@ == "Unable to send subscription broadcast to peer"@,
{
    "Unable to send subscription broadcast to peer".to_owned()
}

/// The notice printed when a chat publish failed, naming the topic.
pub fn send_failure_line(topic: &str) -> (r: String)
    ensures
        r@ == "Unable to send message in topic: "@ + topic@,
{
    let mut line = "Unable to send message in topic: ".to_owned();
    line.append(topic);
    line
}

} // verus!
