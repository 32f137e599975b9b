//! Casting a vote.
use vstd::prelude::*;
use crate::command::domain::{CombinedDomain, CombinedDomainView};
use crate::command::event::{
    BoardModifiedEvent, BoardModifiedEventView, ParticipantNotVotedReason,
    ParticipantNotVotedReasonView, Vote, VoteValidation, VoteValue, VoteValueView, VoteView,
};
use crate::util::command::Command;
use crate::util::keyed;
use crate::util::validate;
use crate::util::validate::{Validate, ValidateCommand, ValidateEach};
use crate::util::view;

verus! {

/// The request of a participant to vote.
#[derive(Debug)]
pub struct ParticipantVote {
    pub participant_id: String,
    pub vote: Vote,
}

/// The request as mathematics.
pub struct ParticipantVoteView {
    pub participant_id: Seq<char>,
    pub vote: VoteView,
}

/// What is wrong with `vote` as a value under `validation`, if anything is:
/// under `AnyNumber` every value that is not a number.
pub open spec fn invalid_vote(validation: VoteValidation, vote: VoteValueView) -> Option<
    ParticipantNotVotedReasonView,
> {
    match validation {
        VoteValidation::AnyNumber => if vote is Number {
            None
        } else {
            Some(ParticipantNotVotedReasonView::InvalidVote { expected: validation, received: vote })
        },
    }
}

impl ParticipantVoteView {
    /// What is wrong with the vote itself: its type is unknown to the board,
    /// or its value is not one that the type takes.
    pub open spec fn vote_error(self, domain: CombinedDomainView) -> Option<
        ParticipantNotVotedReasonView,
    > {
        match keyed::lookup(domain.vote_type_list.vote_types, self.vote.vote_type_id) {
            Some(vote_type) => invalid_vote(vote_type.validation, self.vote.value),
            None => Some(
                ParticipantNotVotedReasonView::VoteTypeDoesNotExist(self.vote.vote_type_id),
            ),
        }
    }

    /// What is wrong with the voter: nobody of that id takes part.
    pub open spec fn participant_error(self, domain: CombinedDomainView) -> Option<
        ParticipantNotVotedReasonView,
    > {
        if domain.board.has_participant(self.participant_id) {
            None
        } else {
            Some(ParticipantNotVotedReasonView::DoesNotExist)
        }
    }

    /// Everything that is wrong with the request: first with the vote, then
    /// with the voter.
    pub open spec fn reasons(self, domain: CombinedDomainView) -> Seq<
        ParticipantNotVotedReasonView,
    > {
        validate::named(self.vote_error(domain)) + validate::named(self.participant_error(domain))
    }

    /// What the request leads to: `ParticipantVoted` if nothing is wrong with
    /// it, `ParticipantCouldNotVote` with all the reasons otherwise.
    pub open spec fn events(self, domain: CombinedDomainView) -> Seq<BoardModifiedEventView> {
        if self.reasons(domain).len() == 0 {
            seq![
                BoardModifiedEventView::ParticipantVoted {
                    participant_id: self.participant_id,
                    vote: self.vote,
                },
            ]
        } else {
            seq![
                BoardModifiedEventView::ParticipantCouldNotVote {
                    participant_id: self.participant_id,
                    reasons: self.reasons(domain),
                },
            ]
        }
    }
}

impl View for ParticipantVote {
    type V = ParticipantVoteView;

    open spec fn view(&self) -> ParticipantVoteView {
        ParticipantVoteView { participant_id: self.participant_id@, vote: self.vote@ }
    }
}

impl ParticipantVote {
    pub fn new(participant_id: String, vote: Vote) -> (command: Self)
        ensures
            command@ == (ParticipantVoteView { participant_id: participant_id@, vote: vote@ }),
    {
        Self { participant_id, vote }
    }
}

impl Clone for ParticipantVote {
    fn clone(&self) -> (copy: Self)
        ensures
            copy@ == self@,
    {
        Self { participant_id: self.participant_id.clone(), vote: self.vote.clone() }
    }
}

impl VoteValidation {
    /// What is wrong with `vote` under this validation, if anything is.
    pub fn valid_vote(&self, vote: &VoteValue) -> (error: Option<ParticipantNotVotedReason>)
        ensures
            view_of(error) == invalid_vote(*self, vote@),
    {
        match self {
            VoteValidation::AnyNumber => {
                if let VoteValue::Number(_) = vote {
                    None
                } else {
                    Some(
                        ParticipantNotVotedReason::InvalidVote {
                            expected: *self,
                            received: vote.clone(),
                        },
                    )
                }
            },
        }
    }
}

/// The view of a reason that may be missing.
pub open spec fn view_of(error: Option<ParticipantNotVotedReason>) -> Option<
    ParticipantNotVotedReasonView,
> {
    match error {
        Some(reason) => Some(reason@),
        None => None,
    }
}

fn be_valid_vote(entity: &CombinedDomain, command: &ParticipantVote) -> (error: Option<
    ParticipantNotVotedReason,
>)
    ensures
        view_of(error) == command@.vote_error(entity@),
{
    match entity.vote_type_list().vote_types.get(command.vote.vote_type_id.as_str()) {
        Some(vote_type) => vote_type.validation.valid_vote(&command.vote.value),
        None => Some(
            ParticipantNotVotedReason::VoteTypeDoesNotExist(command.vote.vote_type_id.clone()),
        ),
    }
}

fn have_existing_participant(entity: &CombinedDomain, command: &ParticipantVote) -> (error: Option<
    ParticipantNotVotedReason,
>)
    ensures
        view_of(error) == command@.participant_error(entity@),
{
    match entity.board().has_participant(command.participant_id.as_str()) {
        true => None,
        false => Some(ParticipantNotVotedReason::DoesNotExist),
    }
}

/// The check that the vote is of a known type and of a value that the type
/// takes.
pub struct BeValidVote;

impl Validate<CombinedDomain, ParticipantVote, ParticipantNotVotedReason> for BeValidVote {
    open spec fn validate_requires(&self, domain: &CombinedDomain, command: &ParticipantVote) -> bool {
        true
    }

    open spec fn validate_ensures(
        &self,
        domain: &CombinedDomain,
        command: &ParticipantVote,
        error: Option<ParticipantNotVotedReason>,
    ) -> bool {
        view_of(error) == command@.vote_error(domain@)
    }

    fn validate(&self, domain: &CombinedDomain, command: &ParticipantVote) -> (error: Option<
        ParticipantNotVotedReason,
    >) {
        be_valid_vote(domain, command)
    }
}

/// The check that the voter takes part in the board.
pub struct HaveExistingParticipant;

impl Validate<CombinedDomain, ParticipantVote, ParticipantNotVotedReason> for HaveExistingParticipant {
    open spec fn validate_requires(&self, domain: &CombinedDomain, command: &ParticipantVote) -> bool {
        true
    }

    open spec fn validate_ensures(
        &self,
        domain: &CombinedDomain,
        command: &ParticipantVote,
        error: Option<ParticipantNotVotedReason>,
    ) -> bool {
        view_of(error) == command@.participant_error(domain@)
    }

    fn validate(&self, domain: &CombinedDomain, command: &ParticipantVote) -> (error: Option<
        ParticipantNotVotedReason,
    >) {
        have_existing_participant(domain, command)
    }
}

impl Command for ParticipantVote {
    type Entity = CombinedDomain;

    type Event = BoardModifiedEvent;

    open spec fn emits(&self, entity: &CombinedDomain, events: Seq<BoardModifiedEvent>) -> bool {
        view::views(events) == self@.events(entity@)
    }

    fn apply(&self, entity: &CombinedDomain) -> (events: Vec<BoardModifiedEvent>) {
        let validator = self.should(BeValidVote).should(HaveExistingParticipant);
        let ghost checks = validator.checks();
        let outcome = validator.validate_against(entity);
        proof {
            let found = choose|found: Seq<ParticipantNotVotedReason>| #[trigger]
                checks.each_ensures(entity, self, found) && match outcome {
                    Ok(command) => found.len() == 0,
                    Err((command, errors)) => found.len() > 0 && errors@ == found,
                };
            let (first, participant_error) = choose|
                first: Seq<ParticipantNotVotedReason>,
                error: Option<ParticipantNotVotedReason>,
            |
                #![trigger checks.earlier.each_ensures(entity, self, first), checks.last.validate_ensures(entity, self, error)]
                checks.earlier.each_ensures(entity, self, first) && checks.last.validate_ensures(
                    entity,
                    self,
                    error,
                ) && found == first + validate::named(error);
            let (none, vote_error) = choose|
                none: Seq<ParticipantNotVotedReason>,
                error: Option<ParticipantNotVotedReason>,
            |
                #![trigger checks.earlier.earlier.each_ensures(entity, self, none), checks.earlier.last.validate_ensures(entity, self, error)]
                checks.earlier.earlier.each_ensures(entity, self, none)
                    && checks.earlier.last.validate_ensures(entity, self, error) && first == none
                    + validate::named(error);
            assert(view::views(found) =~= self@.reasons(entity@));
        }
        let events = match outcome {
            Ok(_) => vec![
                BoardModifiedEvent::ParticipantVoted {
                    participant_id: self.participant_id.clone(),
                    vote: self.vote.clone(),
                },
            ],
            Err((_, errors)) => vec![
                BoardModifiedEvent::ParticipantCouldNotVote {
                    participant_id: self.participant_id.clone(),
                    reasons: errors,
                },
            ],
        };
        assert(view::views(events@) =~= self@.events(entity@));
        events
    }
}

} // verus!
