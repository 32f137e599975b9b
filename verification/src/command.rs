//! The command side of a board: the events of its log, the aggregate that
//! commands are validated against, and the commands themselves.
use vstd::prelude::*;
use crate::command::domain::add_participant::AddParticipantCommand;
use crate::command::domain::clear_votes::ClearVotes;
use crate::command::domain::remove_participant::RemoveParticipantCommand;
use crate::command::domain::vote::ParticipantVote;
use crate::command::domain::CombinedDomain;
use crate::command::event::{
    BoardModifiedEvent, BoardModifiedEventView, CombinedEvent, CombinedEventView, Vote, VoteValue,
};
use crate::util::command::Command;
use crate::util::entity;
use crate::util::transaction::process;
use crate::util::transaction::process::ProcessResult;
use crate::util::transaction::{NormaliseTo, Operation, UpdateWith};
use crate::util::use_case::Apply;
use crate::util::view;

pub mod adapter;
pub mod domain;
pub mod event;

verus! {

/// Any request that a board takes.
#[derive(Debug)]
pub enum BoardCommand {
    AddParticipant(AddParticipantCommand),
    ClearVotes(ClearVotes),
    RemoveParticipant(RemoveParticipantCommand),
    Vote(ParticipantVote),
    Noop,
}

impl Clone for BoardCommand {
    fn clone(&self) -> (copy: Self)
        ensures
            match (*self, copy) {
                (BoardCommand::AddParticipant(a), BoardCommand::AddParticipant(b)) => a@ == b@,
                (BoardCommand::ClearVotes(_), BoardCommand::ClearVotes(_)) => true,
                (BoardCommand::RemoveParticipant(a), BoardCommand::RemoveParticipant(b)) => a@
                    == b@,
                (BoardCommand::Vote(a), BoardCommand::Vote(b)) => a@ == b@,
                (BoardCommand::Noop, BoardCommand::Noop) => true,
                _ => false,
            },
    {
        match self {
            BoardCommand::AddParticipant(command) => BoardCommand::AddParticipant(command.clone()),
            BoardCommand::ClearVotes(command) => BoardCommand::ClearVotes(*command),
            BoardCommand::RemoveParticipant(command) => BoardCommand::RemoveParticipant(
                command.clone(),
            ),
            BoardCommand::Vote(command) => BoardCommand::Vote(command.clone()),
            BoardCommand::Noop => BoardCommand::Noop,
        }
    }
}

impl Command for BoardCommand {
    type Entity = CombinedDomain;

    type Event = BoardModifiedEvent;

    /// Each request is answered as its own kind answers it; `Noop` leads to
    /// no event.
    open spec fn emits(&self, entity: &CombinedDomain, events: Seq<BoardModifiedEvent>) -> bool {
        match self {
            BoardCommand::AddParticipant(command) => exists|fresh_id: Seq<char>|
                domain::add_participant::is_fresh_id(fresh_id)
                    && crate::util::view::views(events) == #[trigger] command@.events(
                    entity@.board,
                    fresh_id,
                ),
            BoardCommand::ClearVotes(command) => crate::util::view::views(events)
                == domain::clear_votes::events(),
            BoardCommand::RemoveParticipant(command) => crate::util::view::views(events)
                == command@.events(entity@.board),
            BoardCommand::Vote(command) => command.emits(entity, events),
            BoardCommand::Noop => events.len() == 0,
        }
    }

    fn apply(&self, entity: &CombinedDomain) -> (events: Vec<BoardModifiedEvent>) {
        match self {
            BoardCommand::AddParticipant(command) => command.apply(entity.board()),
            BoardCommand::ClearVotes(command) => command.apply(entity.board()),
            BoardCommand::RemoveParticipant(command) => command.apply(entity.board()),
            BoardCommand::Vote(command) => command.apply(entity),
            BoardCommand::Noop => Vec::new(),
        }
    }
}

/// The request of the participant under `participant_id` to vote `number` for
/// the vote type `vote_type`.
pub fn vote(number: u8, vote_type: String, participant_id: String) -> (command: BoardCommand)
    ensures
        command matches BoardCommand::Vote(request) && request@ == (
        domain::vote::ParticipantVoteView {
            participant_id: participant_id@,
            vote: crate::command::event::VoteView {
                vote_type_id: vote_type@,
                value: crate::command::event::VoteValueView::Number(number),
            },
        }),
{
    let vote = Vote::new(vote_type, VoteValue::Number(number));
    BoardCommand::Vote(ParticipantVote::new(participant_id, vote))
}

/// The request to add the participant `name` under `id`.
pub fn add_participant(name: String, id: String) -> (command: BoardCommand)
    ensures
        command matches BoardCommand::AddParticipant(request) && request@ == (
        domain::add_participant::AddParticipantCommandView {
            participant_name: name@,
            participant_id: Some(id@),
        }),
{
    BoardCommand::AddParticipant(AddParticipantCommand::with_id(name, id))
}

/// The request to remove the participant under `id`.
pub fn remove_participant(id: String) -> (command: BoardCommand)
    ensures
        command matches BoardCommand::RemoveParticipant(request) && request@ == (
        domain::remove_participant::RemoveParticipantCommandView { participant_id: id@ }),
{
    BoardCommand::RemoveParticipant(RemoveParticipantCommand::new(id))
}

/// The events of a board as events of its combined log.
pub open spec fn combined(events: Seq<BoardModifiedEventView>) -> Seq<CombinedEventView> {
    Seq::new(events.len(), |i: int| CombinedEventView::BoardModifiedEvent(events[i]))
}

/// A command that is run on a log leaves the log with the events of its
/// answer added at the end, and nothing else changed. The answer is an answer
/// of the command to the aggregate that the log folds to.
pub proof fn lemma_processed_appends(
    log: Vec<CombinedEvent>,
    command: &BoardCommand,
    saved: Vec<CombinedEvent>,
    answer: Vec<BoardModifiedEvent>,
)
    requires
        process::processed::<Vec<CombinedEvent>, CombinedDomain, Vec<BoardModifiedEvent>, Apply<BoardCommand>>(
            log,
            &(Apply { command }),
            saved,
            answer,
        ),
    ensures
        view::views(saved@) == view::views(log@) + combined(view::views(answer@)),
        saved@.len() > log@.len() <==> answer@.len() > 0,
        exists|domain: CombinedDomain|
            domain@ == entity::replay::<CombinedDomain>(view::views(log@)) && #[trigger] command.emits(
                &domain,
                answer@,
            ),
{
    let operation = &(Apply { command });
    let (domain, update) = choose|domain: CombinedDomain, update: Vec<BoardModifiedEvent>|
        #![trigger log.normalises_to(domain), operation.operate_ensures(&domain, update)]
        log.normalises_to(domain) && operation.operate_ensures(&domain, update) && log.updates_to(
            update,
            saved,
            answer,
        );
    let joined = view::views(log@) + combined(view::views(answer@));
    assert forall|j: int| 0 <= j < saved@.len() implies view::views(saved@)[j] == joined[j] by {
        if j >= log@.len() {
            let i = j - log@.len();
            assert(saved@[log@.len() + i]@ == CombinedEventView::BoardModifiedEvent(answer@[i]@));
        }
    }
}

/// Runs `command` once on the log `events`: the aggregate is folded from the
/// log, the command answers it, and the events of the answer are added at the
/// end of the log.
pub fn attempt(events: Vec<CombinedEvent>, command: &BoardCommand) -> (result: ProcessResult<
    Vec<CombinedEvent>,
    Vec<BoardModifiedEvent>,
>)
    ensures
        view::views(result.value@) == view::views(events@) + combined(
            view::views(result.update_response@),
        ),
        exists|domain: CombinedDomain|
            domain@ == entity::replay::<CombinedDomain>(view::views(events@))
                && #[trigger] command.emits(&domain, result.update_response@),
{
    let operation = Apply { command };
    let result = process::process(events, &operation);
    proof {
        lemma_processed_appends(events, command, result.value, result.update_response);
    }
    result
}

} // verus!
