//! The closed error taxonomy of the chat core.
//!
//! Substrate-layer failures are mapped onto these variants before they reach
//! the command and event dispatch layer, so no error crosses the event-loop
//! boundary untyped.

use vstd::prelude::*;

verus! {

#[derive(Debug, Clone, Copy, PartialEq, Eq, Structural)]
pub enum MessagePropogationErrors {
    CouldNotFindPeerType,
    UnableToBuildSwarm,
    FailedToStartListening,
    UnableToSendMessage,
    NotPartOfTopic,
    UnableToSubscribe,
    UnableToUnsubscribe,
}

/// The one-line diagnostic text of each error variant.
pub open spec fn error_text(e: MessagePropogationErrors) -> Seq<char> {
    match e {
        MessagePropogationErrors::CouldNotFindPeerType => "Couldn't find peer type"@,
        MessagePropogationErrors::UnableToBuildSwarm => "Unable to build swarm"@,
        MessagePropogationErrors::FailedToStartListening => "Failed to start listening"@,
        MessagePropogationErrors::UnableToSendMessage => "Could not send message to topic"@,
        MessagePropogationErrors::NotPartOfTopic => "Not Part of Topic"@,
        MessagePropogationErrors::UnableToSubscribe => "Unable To Subscribe"@,
        MessagePropogationErrors::UnableToUnsubscribe => "Not Subscribed to topic"@,
    }
}

impl MessagePropogationErrors {
    /// The diagnostic line shown to the user for this error.
    pub fn message(&self) -> (r: String)
        ensures
            r@ == error_text(*self),
    {
        match self {
            MessagePropogationErrors::CouldNotFindPeerType => "Couldn't find peer type".to_owned(),
            MessagePropogationErrors::UnableToBuildSwarm => "Unable to build swarm".to_owned(),
            MessagePropogationErrors::FailedToStartListening => "Failed to start listening".to_owned(),
            MessagePropogationErrors::UnableToSendMessage => "Could not send message to topic".to_owned(),
            MessagePropogationErrors::NotPartOfTopic => "Not Part of Topic".to_owned(),
            MessagePropogationErrors::UnableToSubscribe => "Unable To Subscribe".to_owned(),
            MessagePropogationErrors::UnableToUnsubscribe => "Not Subscribed to topic".to_owned(),
        }
    }
}

} // verus!
