//! Commands run through a store that checks its writes.
use vstd::prelude::*;
use crate::command::event::BoardModifiedEvent;
use crate::port::{EventStreamModifier, GetEntityPort, ModifyEntityPort, ModifyError};
use crate::util::command::Command;
use crate::util::entity::EventSourced;
use crate::util::presentation::Input;
use crate::util::transaction::process;
use crate::util::use_case::Apply;

verus! {

/// Runs commands by way of a store in which logs can be modified.
pub struct ModifyingService<P> {
    modify_port: P,
}

impl<P> ModifyingService<P> {
    /// The store.
    pub closed spec fn modify_port(&self) -> P {
        self.modify_port
    }

    pub fn new(modify_port: P) -> (service: Self)
        ensures
            service.modify_port() == modify_port,
    {
        Self { modify_port }
    }
}

/// Whether `modified` is `events` after `command` was run on it: the
/// aggregate is folded from `events`, the command answers it, and the events
/// of the answer are added at the end.
pub open spec fn appends<Cmd>(command: &Cmd, events: Vec<BoardModifiedEvent>, modified: Vec<BoardModifiedEvent>) -> bool where
    Cmd: Command<Event = BoardModifiedEvent>,
    Cmd::Entity: EventSourced<Event = BoardModifiedEvent>,
 {
    exists|answer: Vec<BoardModifiedEvent>| #[trigger]
        process::processed::<Vec<BoardModifiedEvent>, Cmd::Entity, Vec<BoardModifiedEvent>, Apply<Cmd>>(
            events,
            &(Apply { command }),
            modified,
            answer,
        )
}

/// Runs `command` on the log `events`.
pub fn append<Cmd>(command: &Cmd, events: Vec<BoardModifiedEvent>) -> (modified: Vec<
    BoardModifiedEvent,
>) where
    Cmd: Command<Event = BoardModifiedEvent>,
    Cmd::Entity: EventSourced<Event = BoardModifiedEvent>,

    ensures
        appends(command, events, modified),
{
    let operation = Apply { command };
    let result = process::process(events, &operation);
    result.value
}

/// The attempt that runs a command on a log.
pub struct Append<'a, Cmd> {
    pub command: &'a Cmd,
}

impl<'a, Cmd> EventStreamModifier<BoardModifiedEvent> for Append<'a, Cmd> where
    Cmd: Command<Event = BoardModifiedEvent>,
    Cmd::Entity: EventSourced<Event = BoardModifiedEvent>,
 {
    open spec fn modify_requires(&self, events: Vec<BoardModifiedEvent>) -> bool {
        true
    }

    open spec fn modify_ensures(
        &self,
        events: Vec<BoardModifiedEvent>,
        modified: Vec<BoardModifiedEvent>,
    ) -> bool {
        appends(self.command, events, modified)
    }

    fn modify(&self, events: Vec<BoardModifiedEvent>) -> (modified: Vec<BoardModifiedEvent>) {
        append(self.command, events)
    }
}

impl<P> ModifyingService<P> {
    /// Runs the command of `command_dto` on the log of its entity: the store
    /// is handed the attempt that adds the events of the command's answer at
    /// the end of the log, and the outcome is the outcome of the store.
    pub fn execute<'a, Cmd>(&mut self, command_dto: &'a Input<Cmd>) -> (outcome: Result<
        (),
        ModifyError,
    >) where
        Cmd: Command<Event = BoardModifiedEvent>,
        Cmd::Entity: EventSourced<Event = BoardModifiedEvent>,
        P: ModifyEntityPort<BoardModifiedEvent, Append<'a, Cmd>>,

        ensures
            exists|entity: String| #[trigger]
                old(self).modify_port().modifies(
                    entity,
                    &(Append { command: &command_dto.request() }),
                    outcome,
                ) && entity@ == command_dto.entity(),
    {
        let entity = command_dto.id().clone();
        let attempt = Append { command: command_dto.command() };
        let outcome = self.modify_port.modify_entity(entity, &attempt);
        assert(old(self).modify_port().modifies(entity, &attempt, outcome) && entity@
            == command_dto.entity());
        outcome
    }
}

/// Answers queries by way of a store from which logs can be read.
pub struct QueryingService<G> {
    get_port: G,
}

impl<G> QueryingService<G> {
    /// The store.
    pub closed spec fn get_port(&self) -> G {
        self.get_port
    }

    pub fn new(get_port: G) -> (service: Self)
        ensures
            service.get_port() == get_port,
    {
        Self { get_port }
    }

    /// The log of `entity` as the store has it.
    pub fn events<Event>(&self, entity: String) -> (outcome: Result<Vec<Event>, ModifyError>) where
        G: GetEntityPort<Vec<Event>>,

        ensures
            self.get_port().gets(entity, outcome),
    {
        self.get_port.get_entity(entity)
    }
}

} // verus!
