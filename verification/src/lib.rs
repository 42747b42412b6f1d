//! Core of a peer-to-peer topic chat overlay.
//!
//! Peers discover each other, subscribe to named topics, and broadcast text
//! messages to topic subscribers. This crate holds the verified core: the
//! command interpreter, the control-message codec, the peer registry, and the
//! local peer state with its transition logic. The pub/sub and discovery
//! substrates are external collaborators driven by an unverified runner that
//! performs the actual network and terminal I/O.

pub mod base;
pub mod client;
pub mod codec;
pub mod errors;
pub mod helper;
pub mod registry;
pub mod state;
pub mod strutil;

use vstd::prelude::*;

verus! {

/// The reserved topic that carries subscription-state announcements.
pub open spec fn control_topic() -> Seq<char> {
    "global"@
}

/// The name of the reserved control topic, `"global"`.
pub fn control_topic_name() -> (r: String)
    ensures
        r@ == control_topic(),
{
    "global".to_owned()
}

} // verus!
