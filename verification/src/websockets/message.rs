//! What is asked of the store of the boards' logs.
use vstd::prelude::*;
use crate::command::event::BoardModifiedEvent;
use crate::command::BoardCommand;

verus! {

/// Save `event` as the log under `key`.
#[derive(Debug)]
pub struct SaveEvents {
    pub key: String,
    pub event: Vec<BoardModifiedEvent>,
}

/// Load the log under `key`.
#[derive(Debug)]
pub struct LoadEvents {
    pub key: String,
}

/// A board has new events.
#[derive(Debug)]
pub struct BoardModified {
    pub event: Vec<BoardModifiedEvent>,
}

/// Run `command` on the board `board_id`.
#[derive(Debug)]
pub struct Command {
    pub board_id: String,
    pub command: BoardCommand,
}

} // verus!
