//! Taking back every vote of a board.
use vstd::prelude::*;
use crate::command::domain::Board;
use crate::command::event::{BoardModifiedEvent, BoardModifiedEventView};
use crate::util::command::{Command, HandleCommand};
use crate::util::view;

verus! {

/// The request to start a new round of voting.
#[derive(Debug, Clone, Copy, PartialEq, Eq, Structural)]
pub struct ClearVotes {}

impl ClearVotes {
    pub fn new() -> (command: Self) {
        Self {  }
    }
}

impl Default for ClearVotes {
    fn default() -> (command: Self) {
        Self::new()
    }
}

/// What clearing the votes leads to, whatever the board: `VotesCleared`.
pub open spec fn events() -> Seq<BoardModifiedEventView> {
    seq![BoardModifiedEventView::VotesCleared]
}

impl HandleCommand<ClearVotes> for Board {
    type Event = BoardModifiedEvent;

    open spec fn handles(&self, command: ClearVotes, events: Seq<BoardModifiedEvent>) -> bool {
        view::views(events) == self::events()
    }

    fn execute(&self, _command: ClearVotes) -> (events: Vec<BoardModifiedEvent>) {
        let events = vec![BoardModifiedEvent::VotesCleared];
        assert(view::views(events@) =~= self::events());
        events
    }
}

impl Command for ClearVotes {
    type Entity = Board;

    type Event = BoardModifiedEvent;

    open spec fn emits(&self, entity: &Board, events: Seq<BoardModifiedEvent>) -> bool {
        view::views(events) == self::events()
    }

    fn apply(&self, entity: &Board) -> (events: Vec<BoardModifiedEvent>) {
        entity.execute(*self)
    }
}

} // verus!
