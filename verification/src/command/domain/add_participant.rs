//! Adding a participant to a board.
use vstd::prelude::*;
use crate::command::domain::{Board, BoardView};
use crate::command::event::{BoardModifiedEvent, BoardModifiedEventView, ParticipantNotAddedReason};
use crate::util::command::Command;
use crate::util::validate::{Validate, ValidateCommand, ValidateEach};
use crate::util::view;

verus! {

/// The request to add a participant, under a given id or under a fresh one.
#[derive(Debug)]
pub struct AddParticipantCommand {
    participant_name: String,
    participant_id: Option<String>,
}

/// The request as mathematics.
pub struct AddParticipantCommandView {
    pub participant_name: Seq<char>,
    pub participant_id: Option<Seq<char>>,
}

impl AddParticipantCommandView {
    /// The id that the board is searched for: the given one, or the empty id
    /// where none is given.
    pub open spec fn asked_id(self) -> Seq<char> {
        match self.participant_id {
            Some(participant_id) => participant_id,
            None => Seq::empty(),
        }
    }

    /// What is wrong with the request: a participant stands under the id
    /// already.
    pub open spec fn error(self, board: BoardView) -> Option<ParticipantNotAddedReason> {
        if board.has_participant(self.asked_id()) {
            Some(ParticipantNotAddedReason::AlreadyExists)
        } else {
            None
        }
    }

    /// What the request leads to when `fresh_id` is the id at hand for a
    /// participant without one: `ParticipantAdded` under the given id, or
    /// under `fresh_id` where none is given; `ParticipantNotAdded` where the
    /// id is taken.
    pub open spec fn events(self, board: BoardView, fresh_id: Seq<char>) -> Seq<
        BoardModifiedEventView,
    > {
        match self.error(board) {
            None => seq![
                BoardModifiedEventView::ParticipantAdded {
                    participant_id: match self.participant_id {
                        Some(participant_id) => participant_id,
                        None => fresh_id,
                    },
                    participant_name: self.participant_name,
                },
            ],
            Some(reason) => seq![
                BoardModifiedEventView::ParticipantNotAdded {
                    participant_id: self.asked_id(),
                    reason,
                },
            ],
        }
    }
}

impl View for AddParticipantCommand {
    type V = AddParticipantCommandView;

    closed spec fn view(&self) -> AddParticipantCommandView {
        AddParticipantCommandView {
            participant_name: self.participant_name@,
            participant_id: match self.participant_id {
                Some(participant_id) => Some(participant_id@),
                None => None,
            },
        }
    }
}

/// The length of a fresh id: 32 digits in five groups, with a hyphen between
/// two groups.
pub const FRESH_ID_LENGTH: usize = 36;

/// Whether `digit` is a digit of a hexadecimal number in lower case.
pub open spec fn is_hex_digit(digit: char) -> bool {
    ('0' as u32 <= digit as u32 <= '9' as u32) || ('a' as u32 <= digit as u32 <= 'f' as u32)
}

/// Whether `id` has the form of a fresh id: the text of a random UUID.
///
/// The text has hexadecimal digits in lower case, in groups of 8, 4, 4, 4 and
/// 12 with a hyphen between two groups. The first digit of the third group is
/// the version, 4, and the first digit of the fourth group holds the variant:
/// it is one of 8, 9, a and b.
pub open spec fn is_fresh_id(id: Seq<char>) -> bool {
    &&& id.len() == FRESH_ID_LENGTH
    &&& forall|i: int|
        0 <= i < id.len() ==> if i == 8 || i == 13 || i == 18 || i == 23 {
            id[i] == '-'
        } else {
            is_hex_digit(#[trigger] id[i])
        }
    &&& id[14] == '4'
    &&& (id[19] == '8' || id[19] == '9' || id[19] == 'a' || id[19] == 'b')
}

/// A fresh id: a random UUID in its usual text form.
///
/// Calls `uuid::Uuid::new_v4` and formats the result with `to_string`. The
/// UUID is random, so nothing is claimed of the text but its form: the
/// version and the variant that `new_v4` sets, in the hyphenated lower-case
/// form that `to_string` writes.
#[verifier::external_body]
pub(crate) fn fresh_id() -> (id: String)
    ensures
        is_fresh_id(id@),
{
    uuid::Uuid::new_v4().to_string()
}

fn have_unique_id(entity: &Board, command: &AddParticipantCommand) -> (error: Option<
    ParticipantNotAddedReason,
>)
    ensures
        error == command@.error(entity@),
{
    let held = match &command.participant_id {
        Some(participant_id) => entity.has_participant(participant_id.as_str()),
        None => entity.has_participant(String::new().as_str()),
    };
    if held {
        Some(ParticipantNotAddedReason::AlreadyExists)
    } else {
        None
    }
}

/// The check that nobody stands under the id that the request asks for.
pub struct HaveUniqueId;

impl Validate<Board, AddParticipantCommand, ParticipantNotAddedReason> for HaveUniqueId {
    open spec fn validate_requires(&self, domain: &Board, command: &AddParticipantCommand) -> bool {
        true
    }

    open spec fn validate_ensures(
        &self,
        domain: &Board,
        command: &AddParticipantCommand,
        error: Option<ParticipantNotAddedReason>,
    ) -> bool {
        error == command@.error(domain@)
    }

    fn validate(&self, domain: &Board, command: &AddParticipantCommand) -> (error: Option<
        ParticipantNotAddedReason,
    >) {
        have_unique_id(domain, command)
    }
}

impl AddParticipantCommand {
    /// The request to add `participant_name` under a fresh id.
    pub fn new(participant_name: String) -> (command: Self)
        ensures
            command@ == (AddParticipantCommandView {
                participant_name: participant_name@,
                participant_id: None,
            }),
    {
        Self { participant_name, participant_id: None }
    }

    /// The request to add `participant_name` under `participant_id`.
    pub fn with_id(participant_name: String, participant_id: String) -> (command: Self)
        ensures
            command@ == (AddParticipantCommandView {
                participant_name: participant_name@,
                participant_id: Some(participant_id@),
            }),
    {
        Self { participant_name, participant_id: Some(participant_id) }
    }

    /// What the request leads to on `entity` when `fresh_id` is the id at hand
    /// for a participant without one.
    pub fn apply_with(&self, entity: &Board, fresh_id: String) -> (events: Vec<BoardModifiedEvent>)
        ensures
            view::views(events@) == self@.events(entity@, fresh_id@),
    {
        let validator = self.should(HaveUniqueId);
        let ghost checks = validator.checks();
        let outcome = validator.validate_against(entity);
        proof {
            let found = choose|found: Seq<ParticipantNotAddedReason>| #[trigger]
                checks.each_ensures(entity, self, found) && match outcome {
                    Ok(command) => found.len() == 0,
                    Err((command, errors)) => found.len() > 0 && errors@ == found,
                };
            let (none, error) = choose|
                none: Seq<ParticipantNotAddedReason>,
                error: Option<ParticipantNotAddedReason>,
            |
                #![trigger checks.earlier.each_ensures(entity, self, none), checks.last.validate_ensures(entity, self, error)]
                checks.earlier.each_ensures(entity, self, none) && checks.last.validate_ensures(
                    entity,
                    self,
                    error,
                ) && found == none + crate::util::validate::named(error);
        }
        let events = match outcome {
            Ok(command) => vec![
                BoardModifiedEvent::ParticipantAdded {
                    participant_id: match &command.participant_id {
                        Some(participant_id) => participant_id.clone(),
                        None => fresh_id,
                    },
                    participant_name: command.participant_name.clone(),
                },
            ],
            Err((_command, reasons)) => vec![
                BoardModifiedEvent::ParticipantNotAdded {
                    participant_id: match &self.participant_id {
                        Some(participant_id) => participant_id.clone(),
                        None => String::new(),
                    },
                    reason: reasons[0],
                },
            ],
        };
        events
    }
}

impl Clone for AddParticipantCommand {
    fn clone(&self) -> (copy: Self)
        ensures
            copy@ == self@,
    {
        Self {
            participant_name: self.participant_name.clone(),
            participant_id: match &self.participant_id {
                Some(participant_id) => Some(participant_id.clone()),
                None => None,
            },
        }
    }
}

impl Command for AddParticipantCommand {
    type Entity = Board;

    type Event = BoardModifiedEvent;

    /// The events are those of some fresh id. Where the request names an id
    /// or is turned down, the fresh id does not show in them.
    open spec fn emits(&self, entity: &Board, events: Seq<BoardModifiedEvent>) -> bool {
        exists|fresh_id: Seq<char>|
            is_fresh_id(fresh_id) && view::views(events) == #[trigger] self@.events(
                entity@,
                fresh_id,
            )
    }

    fn apply(&self, entity: &Board) -> (events: Vec<BoardModifiedEvent>) {
        let id = fresh_id();
        let events = self.apply_with(entity, id);
        events
    }
}

} // verus!
