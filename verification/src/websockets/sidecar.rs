//! The one place where commands are run.
//!
//! Every session hands its commands to the sidecar, and the sidecar runs them
//! one after another, in the order in which they arrive: a command is
//! validated against every event that an earlier command left.
use vstd::prelude::*;
use crate::command::event::BoardModifiedEvent;
use crate::websockets::websocket::{ServerMessage, UseCaseMessage};

verus! {

/// What a client is told when its command could not be run.
pub open spec fn failure_text() -> Seq<char> {
    "There was an error processing your command."@
}

/// What is sent about a command that came to `outcome`: the events of a
/// command that was run, and an error without details for one that could not
/// be run.
pub fn answer<E>(outcome: Result<Vec<BoardModifiedEvent>, E>) -> (message: ServerMessage)
    ensures
        match outcome {
            Ok(events) => message == ServerMessage::CommandResult(events),
            Err(_) => message matches ServerMessage::Error(text) && text@ == failure_text(),
        },
{
    match outcome {
        Ok(events) => ServerMessage::CommandResult(events),
        Err(_) => ServerMessage::Error("There was an error processing your command.".to_string()),
    }
}

/// What is sent where once the command of `message` has come to `outcome`:
/// the answer goes to the address that came with the command.
pub fn respond<R, E>(message: UseCaseMessage<R>, outcome: Result<Vec<BoardModifiedEvent>, E>) -> (sent: (
    R,
    ServerMessage,
))
    ensures
        sent.0 == message.receiver,
        match outcome {
            Ok(events) => sent.1 == ServerMessage::CommandResult(events),
            Err(_) => sent.1 matches ServerMessage::Error(text) && text@ == failure_text(),
        },
{
    (message.receiver, answer(outcome))
}

} // verus!
