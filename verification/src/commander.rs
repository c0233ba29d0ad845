//! The dialogue of the interactive client, which lets a person pick the
//! request to send: `1` for a connect request, `2` for a request to create
//! a game, and then the identifier of the user who hosts it.

use crate::message::ClientToServer;
use crate::text::{number_of_text, parse_usize, same_text, trim, trimmed};
use vstd::prelude::*;

verus! {

/// What the client waits for.
#[derive(Clone, Copy, PartialEq, Eq, Structural, Debug)]
pub enum Prompt {
    /// The number of a request.
    Command,
    /// The identifier of the user who hosts the game.
    UserId,
}

/// What the client does with a line that was typed.
#[derive(PartialEq, Eq, Structural, Debug)]
pub enum Action {
    /// Sends the request.
    Send(ClientToServer),
    /// Asks for the user's identifier.
    AskUserId,
    /// Says that the line names no request.
    RejectCommand,
    /// Says that the line is no identifier.
    RejectUserId,
}

/// What the client does with what was `typed` while it waits for `prompt`,
/// and what it waits for next.
pub open spec fn decision(prompt: Prompt, typed: Seq<char>) -> (Prompt, Action) {
    match prompt {
        Prompt::Command => if typed == "1"@ {
            (Prompt::Command, Action::Send(ClientToServer::ConnectRequest))
        } else if typed == "2"@ {
            (Prompt::UserId, Action::AskUserId)
        } else {
            (Prompt::Command, Action::RejectCommand)
        },
        Prompt::UserId => match number_of_text(typed) {
            Some(user_id) => (
                Prompt::Command,
                Action::Send(ClientToServer::CreateGameRequest { user_id }),
            ),
            None => (Prompt::UserId, Action::RejectUserId),
        },
    }
}

/// What the client does with `line` while it waits for `prompt`, and what
/// it waits for next. White space around what was typed does not count.
pub open spec fn dialogue(prompt: Prompt, line: Seq<char>) -> (Prompt, Action) {
    decision(prompt, trimmed(line))
}

/// Decides what to do with what was `typed` while the client waited for
/// `prompt`.
pub fn decide(prompt: Prompt, typed: &str) -> (next: (Prompt, Action))
    ensures
        next == decision(prompt, typed@),
{
    match prompt {
        Prompt::Command => {
            if same_text(typed, "1") {
                (Prompt::Command, Action::Send(ClientToServer::ConnectRequest))
            } else if same_text(typed, "2") {
                (Prompt::UserId, Action::AskUserId)
            } else {
                (Prompt::Command, Action::RejectCommand)
            }
        },
        Prompt::UserId => match parse_usize(typed) {
            Some(user_id) => (
                Prompt::Command,
                Action::Send(ClientToServer::CreateGameRequest { user_id }),
            ),
            None => (Prompt::UserId, Action::RejectUserId),
        },
    }
}

/// Decides what to do with `line`, typed while the client waited for
/// `prompt`.
pub fn command_to_send(prompt: Prompt, line: &str) -> (next: (Prompt, Action))
    ensures
        next == dialogue(prompt, line@),
{
    decide(prompt, trim(line))
}

} // verus!
