//! Commands: requests that are answered with events.
use vstd::prelude::*;

verus! {

/// A request against an entity. Applying it changes nothing: it says which
/// events the request leads to. A request that the entity turns down leads to
/// a negative event, not to an error.
pub trait Command {
    type Entity;

    type Event;

    /// Whether `events` is an answer of the command to `entity`. Unless an
    /// implementation says more, any events are.
    open spec fn emits(&self, entity: &Self::Entity, events: Seq<Self::Event>) -> bool {
        true
    }

    fn apply(&self, entity: &Self::Entity) -> (events: Vec<Self::Event>)
        ensures
            self.emits(entity, events@),
    ;
}

/// An entity that answers commands of one kind.
pub trait HandleCommand<Command> {
    type Event;

    /// Whether `events` is an answer of the entity to `command`. Unless an
    /// implementation says more, any events are.
    open spec fn handles(&self, command: Command, events: Seq<Self::Event>) -> bool {
        true
    }

    fn execute(&self, command: Command) -> (events: Vec<Self::Event>)
        ensures
            self.handles(command, events@),
    ;
}

} // verus!
