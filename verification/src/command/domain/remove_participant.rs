//! Taking a participant off a board.
use vstd::prelude::*;
use crate::command::domain::{Board, BoardView};
use crate::command::event::{
    BoardModifiedEvent, BoardModifiedEventView, ParticipantNotRemovedReason,
};
use crate::util::command::Command;
use crate::util::view;

verus! {

/// The request to remove the participant under an id.
#[derive(Debug)]
pub struct RemoveParticipantCommand {
    participant_id: String,
}

/// The request as mathematics.
pub struct RemoveParticipantCommandView {
    pub participant_id: Seq<char>,
}

impl RemoveParticipantCommandView {
    /// What the request leads to: `ParticipantRemoved` for a participant of
    /// the board, `ParticipantCouldNotBeRemoved` for anyone else.
    pub open spec fn events(self, board: BoardView) -> Seq<BoardModifiedEventView> {
        if board.has_participant(self.participant_id) {
            seq![BoardModifiedEventView::ParticipantRemoved { participant_id: self.participant_id }]
        } else {
            seq![
                BoardModifiedEventView::ParticipantCouldNotBeRemoved {
                    participant_id: self.participant_id,
                    reason: ParticipantNotRemovedReason::DoesNotExist,
                },
            ]
        }
    }
}

impl View for RemoveParticipantCommand {
    type V = RemoveParticipantCommandView;

    closed spec fn view(&self) -> RemoveParticipantCommandView {
        RemoveParticipantCommandView { participant_id: self.participant_id@ }
    }
}

impl RemoveParticipantCommand {
    pub fn new(participant_id: String) -> (command: Self)
        ensures
            command@ == (RemoveParticipantCommandView { participant_id: participant_id@ }),
    {
        Self { participant_id }
    }
}

impl Clone for RemoveParticipantCommand {
    fn clone(&self) -> (copy: Self)
        ensures
            copy@ == self@,
    {
        Self { participant_id: self.participant_id.clone() }
    }
}

impl Command for RemoveParticipantCommand {
    type Event = BoardModifiedEvent;

    type Entity = Board;

    open spec fn emits(&self, entity: &Board, events: Seq<BoardModifiedEvent>) -> bool {
        view::views(events) == self@.events(entity@)
    }

    fn apply(&self, entity: &Board) -> (events: Vec<BoardModifiedEvent>) {
        let participant_id = self.participant_id.clone();
        let events = if !entity.has_participant(participant_id.as_str()) {
            vec![
                BoardModifiedEvent::ParticipantCouldNotBeRemoved {
                    participant_id,
                    reason: ParticipantNotRemovedReason::DoesNotExist,
                },
            ]
        } else {
            vec![BoardModifiedEvent::ParticipantRemoved { participant_id }]
        };
        assert(view::views(events@) =~= self@.events(entity@));
        events
    }
}

} // verus!
