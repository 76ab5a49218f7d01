//! What to do with each line that arrives on a chat connection.

use vstd::prelude::*;
use crate::event::{ChatError, Event, EventView, event_for, map_get};
use crate::parser::{Command, lemma_tokens_distinct, line_command, line_params, line_tags, parse, parses};

verus! {

/// The response to one inbound line.
#[derive(Debug, PartialEq, Eq, Clone)]
pub enum Action {
    /// Hand the event to the handler.
    Dispatch(Event),
    /// A keep-alive ping: answer with the pong line.
    ReplyPong,
    /// Nothing to do for this line.
    Ignore,
}

/// The keep-alive answer to a ping.
pub open spec fn spec_pong_line() -> Seq<char> {
    "PONG :tmi.twitch.tv"@
}

/// The line that answers a keep-alive ping.
pub fn pong_line() -> (r: String)
    ensures
        r@ == spec_pong_line(),
{
    "PONG :tmi.twitch.tv".to_owned()
}

/// The command token names a chat message or a user notice.
pub open spec fn is_event_command(tok: Seq<char>) -> bool {
    tok == "PRIVMSG"@ || tok == "USERNOTICE"@
}

/// The response to a line, as plain values.
pub open spec fn route_spec(s: Seq<char>) -> Result<Option<Option<EventView>>, ChatError> {
    if !parses(s) {
        Err(ChatError::UnparsableLine)
    } else if line_command(s) == "PING"@ {
        Ok(Some(None))
    } else if is_event_command(line_command(s)) {
        match event_for(line_tags(s), line_command(s) == "USERNOTICE"@, line_params(s)) {
            Ok(e) => Ok(Some(Some(e))),
            Err(err) => Err(err),
        }
    } else {
        Ok(None)
    }
}

/// An action as plain values: `None` to ignore, `Some(None)` to answer a
/// ping, `Some(Some(e))` to dispatch the event `e`.
pub open spec fn action_view(a: Action) -> Option<Option<EventView>> {
    match a {
        Action::Dispatch(e) => Some(Some(e@)),
        Action::ReplyPong => Some(None),
        Action::Ignore => None,
    }
}

/// A routing result as plain values.
pub open spec fn routed_view(r: Result<Action, ChatError>) -> Result<
    Option<Option<EventView>>,
    ChatError,
> {
    match r {
        Ok(a) => Ok(action_view(a)),
        Err(err) => Err(err),
    }
}

/// Decides what to do with one inbound line: dispatch the event of a chat
/// message or user notice, answer a ping, or ignore any other command.
/// Fails with `UnparsableLine` when the line does not parse, and with
/// `MissingRequiredTag` when an event lacks `display-name`.
pub fn route(line: &str) -> (r: Result<Action, ChatError>)
    ensures
        routed_view(r) == route_spec(line@),
{
    proof {
        lemma_tokens_distinct();
    }
    match parse(line) {
        None => Err(ChatError::UnparsableLine),
        Some(m) => match &m.command {
            Some(Command::Ping) => Ok(Action::ReplyPong),
            Some(Command::PrivMsg) | Some(Command::UserNotice) => {
                match Event::from_message(&m) {
                    Ok(e) => Ok(Action::Dispatch(e)),
                    Err(err) => Err(err),
                }
            },
            _ => Ok(Action::Ignore),
        },
    }
}

} // verus!
