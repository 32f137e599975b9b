use poker_board::command::domain::add_participant::AddParticipantCommand;
use poker_board::command::domain::clear_votes::ClearVotes;
use poker_board::command::domain::remove_participant::RemoveParticipantCommand;
use poker_board::command::domain::vote::ParticipantVote;
use poker_board::command::domain::{Board, CombinedDomain, VoteType, VoteTypeList};
use poker_board::command::event::{
    BoardModifiedEvent, ParticipantNotAddedReason, ParticipantNotRemovedReason,
    ParticipantNotVotedReason, Vote, VoteValidation, VoteValue,
};
use poker_board::command::{add_participant, remove_participant, vote, BoardCommand};
use poker_board::util::command::{Command, HandleCommand};
use poker_board::util::entity::EventSourced;

fn vote_types() -> VoteTypeList {
    let mut vote_type_list = VoteTypeList::default();
    vote_type_list.add_vote_type(VoteType {
        id: "test".to_string(),
        validation: VoteValidation::AnyNumber,
    });
    vote_type_list
}

fn board_with_test() -> Board {
    let events = vec![BoardModifiedEvent::ParticipantAdded {
        participant_id: "test".to_string(),
        participant_name: "test".to_string(),
    }];
    Board::source(&events)
}

#[test]
pub fn add_participant_it_should_add_a_participant() {
    let board = Board::new();
    let command = AddParticipantCommand::new("test".to_string());
    let events = command.apply(&board);
    assert_eq!(events.len(), 1);
}

#[test]
pub fn it_should_add_a_participant_with_id() {
    let board = Board::new();
    let command = AddParticipantCommand::with_id("test".to_string(), "test".to_string());
    let events = command.apply(&board);
    assert_eq!(events.len(), 1);
    assert_eq!(
        events[0],
        BoardModifiedEvent::ParticipantAdded {
            participant_id: "test".to_string(),
            participant_name: "test".to_string(),
        }
    );
}

#[test]
pub fn it_should_not_add_a_participant_with_id_that_already_exists() {
    let events = vec![BoardModifiedEvent::ParticipantAdded {
        participant_id: "test".to_string(),
        participant_name: "test".to_string(),
    }];
    let board = Board::source(&events);
    let command = AddParticipantCommand::with_id("test".to_string(), "test".to_string());
    let events = command.apply(&board);
    assert_eq!(events.len(), 1);
    assert_eq!(
        events[0],
        BoardModifiedEvent::ParticipantNotAdded {
            participant_id: "test".to_string(),
            reason: ParticipantNotAddedReason::AlreadyExists,
        }
    );
}

#[test]
fn a_participant_without_an_id_is_added_under_a_fresh_one() {
    let board = Board::new();
    let command = AddParticipantCommand::new("Ann".to_string());
    let first = command.apply(&board);
    let second = command.apply(&board);
    let id_of = |events: &Vec<BoardModifiedEvent>| match &events[0] {
        BoardModifiedEvent::ParticipantAdded {
            participant_id,
            participant_name,
        } => {
            assert_eq!(participant_name, "Ann");
            participant_id.clone()
        }
        other => panic!("unexpected event {:?}", other),
    };
    let first_id = id_of(&first);
    let second_id = id_of(&second);
    for id in [&first_id, &second_id] {
        let characters: Vec<char> = id.chars().collect();
        assert_eq!(characters.len(), 36);
        for (i, character) in characters.iter().enumerate() {
            if [8, 13, 18, 23].contains(&i) {
                assert_eq!(*character, '-');
            } else {
                assert!(matches!(character, '0'..='9' | 'a'..='f'));
            }
        }
        assert_eq!(characters[14], '4');
        assert!(matches!(characters[19], '8' | '9' | 'a' | 'b'));
    }
    assert_ne!(first_id, second_id);
}

#[test]
fn a_participant_without_an_id_is_added_under_the_id_at_hand() {
    let board = board_with_test();
    let command = AddParticipantCommand::new("Ann".to_string());
    let events = command.apply_with(&board, "fresh".to_string());
    assert_eq!(
        events,
        vec![BoardModifiedEvent::ParticipantAdded {
            participant_id: "fresh".to_string(),
            participant_name: "Ann".to_string(),
        }]
    );
    let named = AddParticipantCommand::with_id("Ann".to_string(), "a".to_string());
    assert_eq!(
        named.apply_with(&board, "fresh".to_string()),
        vec![BoardModifiedEvent::ParticipantAdded {
            participant_id: "a".to_string(),
            participant_name: "Ann".to_string(),
        }]
    );
}

#[test]
fn a_participant_without_an_id_is_not_added_where_the_empty_id_is_taken() {
    let board = Board::source(&[BoardModifiedEvent::ParticipantAdded {
        participant_id: "".to_string(),
        participant_name: "nobody".to_string(),
    }]);
    let command = AddParticipantCommand::new("Ann".to_string());
    assert_eq!(
        command.apply(&board),
        vec![BoardModifiedEvent::ParticipantNotAdded {
            participant_id: "".to_string(),
            reason: ParticipantNotAddedReason::AlreadyExists,
        }]
    );
}

#[test]
pub fn clear_votes_it_should_clear_votes() {
    let board = Board::new();
    let command = ClearVotes {};
    let events = board.execute(command);
    assert_eq!(events.len(), 1);
    assert_eq!(events[0], BoardModifiedEvent::VotesCleared);
}

#[test]
fn clear_votes_applies_as_it_executes() {
    let board = board_with_test();
    assert_eq!(
        ClearVotes::new().apply(&board),
        vec![BoardModifiedEvent::VotesCleared]
    );
    assert_eq!(ClearVotes::default(), ClearVotes::new());
}

#[test]
pub fn remove_participant_it_should_remove_a_participant() {
    let board = board_with_test();
    let command = RemoveParticipantCommand::new("test".to_string());
    let events = command.apply(&board);
    assert_eq!(events.len(), 1);
    assert_eq!(
        events[0],
        BoardModifiedEvent::ParticipantRemoved {
            participant_id: "test".to_string(),
        }
    );
}

#[test]
pub fn remove_participant_it_should_not_remove_a_participant_that_does_not_exist() {
    let board = Board::new();
    let command = RemoveParticipantCommand::new("test".to_string());
    let events = command.apply(&board);
    assert_eq!(events.len(), 1);
    assert_eq!(
        events[0],
        BoardModifiedEvent::ParticipantCouldNotBeRemoved {
            participant_id: "test".to_string(),
            reason: ParticipantNotRemovedReason::DoesNotExist,
        }
    );
}

#[test]
pub fn vote_it_should_vote_for_a_participant() {
    let board = board_with_test();
    let combined_domain = CombinedDomain::new(vote_types(), board.clone());
    let command = ParticipantVote {
        participant_id: "test".to_string(),
        vote: Vote::new("test".to_string(), VoteValue::Number(1)),
    };

    let events = command.apply(&combined_domain);
    assert_eq!(events.len(), 1);
    assert_eq!(
        events[0],
        BoardModifiedEvent::ParticipantVoted {
            participant_id: "test".to_string(),
            vote: Vote::new("test".to_string(), VoteValue::Number(1)),
        }
    );
}

#[test]
pub fn vote_it_should_not_vote_for_a_participant_that_does_not_exist() {
    let board = Board::new();
    let command = ParticipantVote {
        participant_id: "test".to_string(),
        vote: Vote::new("test".to_string(), VoteValue::Number(1)),
    };
    let combined_domain = CombinedDomain::new(vote_types(), board);
    let events = command.apply(&combined_domain);
    assert_eq!(events.len(), 1);
    assert_eq!(
        events[0],
        BoardModifiedEvent::ParticipantCouldNotVote {
            participant_id: "test".to_string(),
            reasons: vec![ParticipantNotVotedReason::DoesNotExist],
        }
    );
}

#[test]
pub fn it_should_not_vote_when_vote_type_id_does_not_exist() {
    let board = board_with_test();
    let command = ParticipantVote {
        participant_id: "test".to_string(),
        vote: Vote::new("not_present".to_string(), VoteValue::Number(1)),
    };
    let combined_domain = CombinedDomain::new(vote_types(), board);
    let events = command.apply(&combined_domain);
    assert_eq!(events.len(), 1);
    assert_eq!(
        events[0],
        BoardModifiedEvent::ParticipantCouldNotVote {
            participant_id: "test".to_string(),
            reasons: vec![ParticipantNotVotedReason::VoteTypeDoesNotExist(
                "not_present".to_string()
            )],
        }
    );
}

#[test]
pub fn it_should_not_vote_when_vote_is_invalid() {
    let board = board_with_test();
    let command = ParticipantVote {
        participant_id: "test".to_string(),
        vote: Vote::new("test".to_string(), VoteValue::String("test".to_string())),
    };
    let combined_domain = CombinedDomain::new(vote_types(), board);
    let events = command.apply(&combined_domain);
    assert_eq!(events.len(), 1);
    assert_eq!(
        events[0],
        BoardModifiedEvent::ParticipantCouldNotVote {
            participant_id: "test".to_string(),
            reasons: vec![ParticipantNotVotedReason::InvalidVote {
                expected: VoteValidation::AnyNumber,
                received: VoteValue::String("test".to_string()),
            }]
        }
    );
}

#[test]
fn a_vote_with_everything_wrong_names_the_vote_before_the_voter() {
    let command = ParticipantVote::new(
        "ghost".to_string(),
        Vote::new("bad".to_string(), VoteValue::Number(1)),
    );
    let combined_domain = CombinedDomain::new(vote_types(), Board::new());
    assert_eq!(
        command.apply(&combined_domain),
        vec![BoardModifiedEvent::ParticipantCouldNotVote {
            participant_id: "ghost".to_string(),
            reasons: vec![
                ParticipantNotVotedReason::VoteTypeDoesNotExist("bad".to_string()),
                ParticipantNotVotedReason::DoesNotExist,
            ],
        }]
    );
}

#[test]
fn any_number_takes_numbers_only() {
    assert_eq!(
        VoteValidation::AnyNumber.valid_vote(&VoteValue::Number(0)),
        None
    );
    assert_eq!(
        VoteValidation::AnyNumber.valid_vote(&VoteValue::String("3".to_string())),
        Some(ParticipantNotVotedReason::InvalidVote {
            expected: VoteValidation::AnyNumber,
            received: VoteValue::String("3".to_string()),
        })
    );
}

#[test]
fn board_commands_answer_as_their_kinds_do() {
    let domain = CombinedDomain::new(vote_types(), board_with_test());
    assert_eq!(
        vote(3, "test".to_string(), "test".to_string()).apply(&domain),
        vec![BoardModifiedEvent::ParticipantVoted {
            participant_id: "test".to_string(),
            vote: Vote::new("test".to_string(), VoteValue::Number(3)),
        }]
    );
    assert_eq!(
        add_participant("Bo".to_string(), "b".to_string()).apply(&domain),
        vec![BoardModifiedEvent::ParticipantAdded {
            participant_id: "b".to_string(),
            participant_name: "Bo".to_string(),
        }]
    );
    assert_eq!(
        remove_participant("test".to_string()).apply(&domain),
        vec![BoardModifiedEvent::ParticipantRemoved {
            participant_id: "test".to_string(),
        }]
    );
    assert_eq!(
        BoardCommand::ClearVotes(ClearVotes::new()).apply(&domain),
        vec![BoardModifiedEvent::VotesCleared]
    );
    assert_eq!(BoardCommand::Noop.apply(&domain), vec![]);
    let copy = vote(3, "test".to_string(), "test".to_string()).clone();
    assert!(matches!(copy, BoardCommand::Vote(_)));
}
