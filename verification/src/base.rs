//! Shared data model: typed user commands and the per-peer record.

use vstd::prelude::*;
use crate::strutil::views_of;

verus! {

/// A typed intent parsed from one line of user input.
#[derive(Debug, PartialEq, Eq)]
pub enum Commands<T> {
    Subscribe(T),
    Unsubscribe(T),
    SendMessage((T, T)),
    Help,
    PrintKnownNodes,
    PrintInfo,
    InvalidCommand,
}

/// The mathematical value of a parsed command.
pub enum CommandView {
    Subscribe(Seq<char>),
    Unsubscribe(Seq<char>),
    SendMessage(Seq<char>, Seq<char>),
    Help,
    PrintKnownNodes,
    PrintInfo,
    InvalidCommand,
}

impl View for Commands<String> {
    type V = CommandView;

    open spec fn view(&self) -> CommandView {
        match self {
            Commands::Subscribe(t) => CommandView::Subscribe(t@),
            Commands::Unsubscribe(t) => CommandView::Unsubscribe(t@),
            Commands::SendMessage(p) => CommandView::SendMessage(p.0@, p.1@),
            Commands::Help => CommandView::Help,
            Commands::PrintKnownNodes => CommandView::PrintKnownNodes,
            Commands::PrintInfo => CommandView::PrintInfo,
            Commands::InvalidCommand => CommandView::InvalidCommand,
        }
    }
}

/// What is known of one remote peer: the transport address that discovery
/// reported and the topics the peer is believed to be subscribed to.
#[derive(Debug, PartialEq, Eq)]
pub struct PeerInfo {
    pub multi_addr: String,
    pub subscribed_topics: Vec<String>,
}

/// The mathematical value of a `PeerInfo`.
pub struct PeerInfoView {
    pub multi_addr: Seq<char>,
    pub subscribed_topics: Seq<Seq<char>>,
}

impl View for PeerInfo {
    type V = PeerInfoView;

    open spec fn view(&self) -> PeerInfoView {
        PeerInfoView {
            multi_addr: self.multi_addr@,
            subscribed_topics: views_of(self.subscribed_topics@),
        }
    }
}

} // verus!
