//! Command interpreter: turns one line of user input into a typed intent.
//!
//! A line splits on its first space into a directive token and a remainder.
//! Directives that need an argument yield `InvalidCommand` when the remainder
//! is empty; an unrecognized directive yields `InvalidCommand`.

use vstd::prelude::*;
use vstd::string::*;
use crate::base::{CommandView, Commands};
use crate::codec::{decode, ControlMessage};
use crate::strutil::{has_space, split_first_space, split_head, split_tail, str_eq};

verus! {

/// The command named by a directive token and its remainder.
pub open spec fn command_from_parts(cmd: Seq<char>, arg: Seq<char>) -> CommandView {
    if cmd == "/subscribe"@ {
        if arg.len() > 0 {
            CommandView::Subscribe(arg)
        } else {
            CommandView::InvalidCommand
        }
    } else if cmd == "/unsubscribe"@ {
        if arg.len() > 0 {
            CommandView::Unsubscribe(arg)
        } else {
            CommandView::InvalidCommand
        }
    } else if cmd == "/send"@ {
        if has_space(arg) {
            CommandView::SendMessage(split_head(arg), split_tail(arg))
        } else {
            CommandView::InvalidCommand
        }
    } else if cmd == "/help"@ {
        CommandView::Help
    } else if cmd == "/known"@ {
        CommandView::PrintKnownNodes
    } else if cmd == "/info"@ {
        CommandView::PrintInfo
    } else {
        CommandView::InvalidCommand
    }
}

/// The command a whole input line parses to.
pub open spec fn command_of(line: Seq<char>) -> CommandView {
    command_from_parts(split_head(line), split_tail(line))
}

/// The chat client core. It owns no state of its own: it interprets input
/// lines and inbound payloads for the event-loop driver.
pub struct Client;

impl Client {
    /// Maps a directive token and its remainder to a typed command.
    pub fn return_cmd_type(cmd: &str, arg: &str) -> (r: Commands<String>)
        ensures
            r@ == command_from_parts(cmd@, arg@),
    {
        if str_eq(cmd, "/subscribe") {
            if arg.unicode_len() > 0 {
                Commands::Subscribe(arg.to_owned())
            } else {
                Commands::InvalidCommand
            }
        } else if str_eq(cmd, "/unsubscribe") {
            if arg.unicode_len() > 0 {
                Commands::Unsubscribe(arg.to_owned())
            } else {
                Commands::InvalidCommand
            }
        } else if str_eq(cmd, "/send") {
            if has_space_exec(arg) {
                let (topic, message) = split_first_space(arg);
                Commands::SendMessage((topic.to_owned(), message.to_owned()))
            } else {
                Commands::InvalidCommand
            }
        } else if str_eq(cmd, "/help") {
            Commands::Help
        } else if str_eq(cmd, "/known") {
            Commands::PrintKnownNodes
        } else if str_eq(cmd, "/info") {
            Commands::PrintInfo
        } else {
            Commands::InvalidCommand
        }
    }

    /// Parses one line of user input: splits on the first space and maps the
    /// directive, exactly as `command_of` states.
    pub fn parse_command(line: &str) -> (r: Commands<String>)
        ensures
            r@ == command_of(line@),
    {
        let (cmd, arg) = split_first_space(line);
        Self::return_cmd_type(cmd, arg)
    }

    /// Classifies one inbound payload from the wire.
    pub fn return_msg_type(msg: &str) -> (r: ControlMessage)
        ensures
            r@ == crate::codec::decode_spec(msg@),
    {
        decode(msg)
    }

    /// The usage hint printed for an invalid command.
    pub fn invalid_command_hint() -> (r: String)
        ensures
            r@ == "Invalid Command format, type /help to see manual"@,
    {
        "Invalid Command format, type /help to see manual".to_owned()
    }
}

/// Whether `s` holds a space.
fn has_space_exec(s: &str) -> (r: bool)
    ensures
        r == has_space(s@),
{
    let n = s.unicode_len();
    let i = crate::strutil::find_first_space(s);
    i < n
}

} // verus!
