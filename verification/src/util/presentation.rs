//! Commands as they come in from outside.
use vstd::prelude::*;
use crate::util::command;

verus! {

/// A command together with the key of the entity it is meant for.
#[derive(Debug)]
pub struct Input<Command: command::Command> {
    entity_id: String,
    command: Command,
}

impl<Command> Input<Command> where Command: command::Command {
    /// The key of the entity, as mathematics.
    pub closed spec fn entity(&self) -> Seq<char> {
        self.entity_id@
    }

    /// The command, as mathematics.
    pub closed spec fn request(&self) -> Command {
        self.command
    }

    /// The command `command` for the entity `entity_id`.
    pub fn new(entity_id: String, command: Command) -> (input: Self)
        ensures
            input.entity() == entity_id@,
            input.request() == command,
    {
        Self { entity_id, command }
    }

    pub fn id(&self) -> (id: &String)
        ensures
            id@ == self.entity(),
    {
        &self.entity_id
    }

    pub fn command(&self) -> (command: &Command)
        ensures
            *command == self.request(),
    {
        &self.command
    }
}

} // verus!
