use poker_board::command::event::{
    BoardModifiedEvent, ParticipantNotAddedReason, ParticipantNotRemovedReason,
    ParticipantNotVotedReason, Vote, VoteValue,
};
use poker_board::query::Board;
use poker_board::util::entity::{EventSourced, HandleEvent};

fn added(id: &str) -> BoardModifiedEvent {
    BoardModifiedEvent::ParticipantAdded {
        participant_id: id.to_string(),
        participant_name: id.to_string(),
    }
}

fn voted(id: &str, value: u8) -> BoardModifiedEvent {
    BoardModifiedEvent::ParticipantVoted {
        participant_id: id.to_string(),
        vote: Vote::new("test".to_string(), VoteValue::Number(value)),
    }
}

#[test]
pub fn query_it_should_add_a_participant() {
    let mut board = Board::default();
    let event = BoardModifiedEvent::ParticipantAdded {
        participant_id: "test".to_string(),
        participant_name: "test".to_string(),
    };
    board.apply(&event);
    assert_eq!(board.len(), 1);
}

#[test]
pub fn query_it_should_remove_a_participant() {
    let mut board = Board::default();
    let event = BoardModifiedEvent::ParticipantAdded {
        participant_id: "test".to_string(),
        participant_name: "test".to_string(),
    };
    board.apply(&event);
    let event = BoardModifiedEvent::ParticipantRemoved {
        participant_id: "test".to_string(),
    };
    board.apply(&event);
    assert_eq!(board.len(), 0);
}

#[test]
pub fn it_should_add_a_vote() {
    let mut board = Board::default();
    let event = BoardModifiedEvent::ParticipantAdded {
        participant_id: "test".to_string(),
        participant_name: "test".to_string(),
    };
    board.apply(&event);
    let event = BoardModifiedEvent::ParticipantVoted {
        participant_id: "test".to_string(),
        vote: Vote::new("test".to_string(), VoteValue::Number(1)),
    };
    board.apply(&event);
    assert_eq!(board.len(), 1);
    assert!(board.participant("test").unwrap().vote.is_some());
    assert_eq!(board.participant("test").unwrap().vote.unwrap(), 1);
}

#[test]
pub fn query_it_should_not_apply_participant_could_not_vote() {
    let mut board = Board::default();
    let expected = board.clone();
    let event = BoardModifiedEvent::ParticipantCouldNotVote {
        participant_id: "test".to_string(),
        reasons: vec![ParticipantNotVotedReason::DoesNotExist],
    };
    board.apply(&event);
    assert_eq!(board, expected);
}

#[test]
pub fn query_it_should_clear_votes() {
    let mut board = Board::default();
    let event = BoardModifiedEvent::ParticipantAdded {
        participant_id: "test".to_string(),
        participant_name: "test".to_string(),
    };
    board.apply(&event);
    let event = BoardModifiedEvent::ParticipantVoted {
        participant_id: "test".to_string(),
        vote: Vote::new("test".to_string(), VoteValue::Number(1)),
    };
    board.apply(&event);
    let event = BoardModifiedEvent::VotesCleared;
    board.apply(&event);
    assert_eq!(board.len(), 1);
    assert!(board.participant("test").unwrap().vote.is_none());
}

#[test]
pub fn query_it_should_not_respond_to_participant_could_not_be_removed() {
    let mut board = Board::default();
    let event = BoardModifiedEvent::ParticipantAdded {
        participant_id: "test".to_string(),
        participant_name: "test".to_string(),
    };
    board.apply(&event);

    let expected = board.clone();

    let event = BoardModifiedEvent::ParticipantCouldNotBeRemoved {
        participant_id: "test".to_string(),
        reason: ParticipantNotRemovedReason::DoesNotExist,
    };
    board.apply(&event);
    assert_eq!(board, expected);
}

#[test]
pub fn query_it_should_reconstruct_from_event_stream() {
    let events = vec![
        BoardModifiedEvent::ParticipantAdded {
            participant_id: "test".to_string(),
            participant_name: "test".to_string(),
        },
        BoardModifiedEvent::ParticipantVoted {
            participant_id: "test".to_string(),
            vote: Vote::new("test".to_string(), VoteValue::Number(1)),
        },
    ];
    let board = Board::source(&events);
    assert_eq!(board.len(), 1);
    assert!(board.participant("test").unwrap().vote.is_some());
}

#[test]
pub fn it_should_complete_voting_when_all_participants_have_voted() {
    let mut board = Board::default();
    let events = vec![
        BoardModifiedEvent::ParticipantAdded {
            participant_id: "test".to_string(),
            participant_name: "test".to_string(),
        },
        BoardModifiedEvent::ParticipantAdded {
            participant_id: "test_1".to_string(),
            participant_name: "test_1".to_string(),
        },
        BoardModifiedEvent::ParticipantVoted {
            participant_id: "test".to_string(),
            vote: Vote::new("test".to_string(), VoteValue::Number(1)),
        },
        BoardModifiedEvent::ParticipantVoted {
            participant_id: "test_1".to_string(),
            vote: Vote::new("test".to_string(), VoteValue::Number(1)),
        },
    ];
    for event in events {
        board.apply(&event);
    }

    assert_eq!(board.voting_complete(), true);
}

#[test]
fn voting_should_not_be_complete_when_not_all_participants_have_voted() {
    let mut board = Board::default();
    let events = vec![added("test"), added("test_1"), voted("test", 1)];
    for event in events {
        board.apply(&event);
    }

    assert_eq!(board.voting_complete(), false);
}

#[test]
fn voting_should_not_be_complete_when_no_participants_have_voted() {
    let mut board = Board::default();
    let events = vec![added("test"), added("test_1")];
    for event in events {
        board.apply(&event);
    }

    assert_eq!(board.voting_complete(), false);
}

#[test]
fn voting_should_remain_complete_when_participant_changes_vote() {
    let mut board = Board::default();
    let events = vec![added("test"), voted("test", 1), voted("test", 2)];
    for event in events {
        board.apply(&event);
    }

    assert_eq!(board.voting_complete(), true);
}

#[test]
fn voting_should_remain_complete_when_a_participant_is_removed() {
    let mut board = Board::default();
    let events = vec![
        added("test"),
        added("test_1"),
        voted("test", 1),
        BoardModifiedEvent::ParticipantVoted {
            participant_id: "test_1".to_string(),
            vote: Vote::new("test_1".to_string(), VoteValue::Number(2)),
        },
        BoardModifiedEvent::ParticipantRemoved {
            participant_id: "test".to_string(),
        },
    ];
    for event in events {
        board.apply(&event);
    }

    assert_eq!(board.voting_complete(), true);
}

#[test]
fn voting_should_remain_complete_when_a_participant_is_added() {
    let mut board = Board::default();
    let events = vec![added("test"), voted("test", 1), added("test_1")];
    for event in events {
        board.apply(&event);
    }

    assert_eq!(board.voting_complete(), true);
}

#[test]
fn it_should_not_be_complete_after_votes_cleared() {
    let mut board = Board::default();
    let events = vec![
        added("test"),
        voted("test", 1),
        BoardModifiedEvent::VotesCleared,
    ];
    for event in events {
        board.apply(&event);
    }

    assert_eq!(board.voting_complete(), false);
}

#[test]
fn a_vote_counts_once_for_a_participant_with_a_vote() {
    let mut board = Board::source(&[added("a"), added("b")]);
    board.apply(&voted("a", 1));
    assert_eq!(board.number_voted(), 1);
    board.apply(&voted("a", 2));
    assert_eq!(board.number_voted(), 1);
    assert_eq!(board.participant("a").unwrap().vote, Some(2));
    assert!(!board.voting_complete());
}

#[test]
fn a_vote_that_is_no_number_is_shown_as_no_vote_and_counts() {
    let mut board = Board::source(&[added("a")]);
    let text = BoardModifiedEvent::ParticipantVoted {
        participant_id: "a".to_string(),
        vote: Vote::new("test".to_string(), VoteValue::String("?".to_string())),
    };
    board.apply(&text);
    assert_eq!(board.participant("a").unwrap().vote, None);
    assert_eq!(board.number_voted(), 1);
    assert!(board.voting_complete());
    board.apply(&text);
    assert_eq!(board.number_voted(), 2);
}

#[test]
fn a_vote_of_a_stranger_changes_no_participant() {
    let mut board = Board::source(&[added("a")]);
    board.apply(&voted("ghost", 1));
    assert_eq!(board.len(), 1);
    assert_eq!(board.number_voted(), 0);
    assert_eq!(board.participant("a").unwrap().vote, None);
    assert!(!board.voting_complete());
}

#[test]
fn removing_a_voter_keeps_the_count_of_votes() {
    let mut board = Board::source(&[added("a"), added("b"), voted("a", 3)]);
    board.apply(&BoardModifiedEvent::ParticipantRemoved {
        participant_id: "a".to_string(),
    });
    assert_eq!(board.number_voted(), 1);
    assert_eq!(board.len(), 1);
}

#[test]
fn adding_a_participant_again_takes_the_vote_back() {
    let mut board = Board::source(&[added("a"), added("b"), voted("a", 3)]);
    board.apply(&added("a"));
    assert_eq!(board.len(), 2);
    assert_eq!(board.participant("a").unwrap().vote, None);
    assert_eq!(board.number_voted(), 1);
    let names: Vec<String> = board
        .participants()
        .iter()
        .map(|participant| participant.name.clone())
        .collect();
    assert_eq!(names, vec!["a".to_string(), "b".to_string()]);
}

#[test]
fn clearing_votes_starts_a_new_round() {
    let mut board = Board::source(&[added("a"), added("b"), voted("a", 3), voted("b", 5)]);
    assert!(board.voting_complete());
    assert_eq!(board.number_voted(), 2);
    board.apply(&BoardModifiedEvent::VotesCleared);
    assert!(!board.voting_complete());
    assert_eq!(board.number_voted(), 0);
    for participant in board.participants() {
        assert_eq!(participant.vote, None);
    }
    board.apply(&voted("a", 1));
    assert!(!board.voting_complete());
    board.apply(&voted("b", 1));
    assert!(board.voting_complete());
}

#[test]
fn every_negative_event_leaves_the_query_board_as_it_is() {
    let mut board = Board::source(&[added("a"), voted("a", 3)]);
    let expected = board.clone();
    board.apply(&BoardModifiedEvent::ParticipantNotAdded {
        participant_id: "a".to_string(),
        reason: ParticipantNotAddedReason::AlreadyExists,
    });
    board.apply(&BoardModifiedEvent::ParticipantCouldNotBeRemoved {
        participant_id: "a".to_string(),
        reason: ParticipantNotRemovedReason::DoesNotExist,
    });
    board.apply(&BoardModifiedEvent::ParticipantCouldNotVote {
        participant_id: "a".to_string(),
        reasons: vec![ParticipantNotVotedReason::DoesNotExist],
    });
    assert_eq!(board, expected);
}

#[test]
fn the_query_board_is_the_fold_of_its_log() {
    let events = vec![
        added("a"),
        added("b"),
        voted("a", 3),
        BoardModifiedEvent::ParticipantRemoved {
            participant_id: "b".to_string(),
        },
        BoardModifiedEvent::VotesCleared,
        voted("a", 8),
    ];
    for cut in 0..=events.len() {
        let mut folded = Board::source(&events[..cut]);
        for event in events[cut..].iter() {
            folded.apply(event);
        }
        assert_eq!(folded, Board::source(&events));
    }
    assert!(Board::source(&events) != Board::source(&events[..5]));
}
