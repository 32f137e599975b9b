//! Requests as they come in, each with the key of its board.
use vstd::prelude::*;
use crate::command::domain::add_participant::{AddParticipantCommand, AddParticipantCommandView};
use crate::command::domain::clear_votes::ClearVotes;
use crate::command::domain::remove_participant::{
    RemoveParticipantCommand, RemoveParticipantCommandView,
};
use crate::util::presentation::Input;

verus! {

/// The request to clear the votes of a board.
#[derive(Debug)]
pub struct ClearVotesDto {
    pub entity_id: String,
}

impl ClearVotesDto {
    /// The command of the request, for the board of the request.
    pub fn into_input(self) -> (input: Input<ClearVotes>)
        ensures
            input.entity() == self.entity_id@,
            input.request() == (ClearVotes {  }),
    {
        Input::new(self.entity_id, ClearVotes {  })
    }
}

/// The request to add a participant to a board.
#[derive(Debug)]
pub struct AddParticipantDto {
    pub entity_id: String,
    pub name: String,
}

impl AddParticipantDto {
    /// The command of the request, for the board of the request: the
    /// participant is added under a fresh id.
    pub fn into_input(self) -> (input: Input<AddParticipantCommand>)
        ensures
            input.entity() == self.entity_id@,
            input.request()@ == (AddParticipantCommandView {
                participant_name: self.name@,
                participant_id: None,
            }),
    {
        Input::new(self.entity_id, AddParticipantCommand::new(self.name))
    }
}

/// The request to remove a participant from a board.
#[derive(Debug)]
pub struct RemoveParticipantDto {
    pub entity_id: String,
    pub participant_id: String,
}

impl RemoveParticipantDto {
    /// The command of the request, for the board of the request.
    pub fn into_input(self) -> (input: Input<RemoveParticipantCommand>)
        ensures
            input.entity() == self.entity_id@,
            input.request()@ == (RemoveParticipantCommandView {
                participant_id: self.participant_id@,
            }),
    {
        Input::new(self.entity_id, RemoveParticipantCommand::new(self.participant_id))
    }
}

} // verus!
