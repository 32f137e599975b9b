use poker_board::command::domain::VoteTypeList;
use poker_board::command::event::{VoteTypeEvent, VoteValidation};
use poker_board::util::entity::{EventSourced, HandleEvent};

#[test]
pub fn it_should_add_a_vote_type() {
    let mut vote_type_list = VoteTypeList::default();
    let event = VoteTypeEvent::VoteTypeAdded {
        vote_type_id: "test".to_string(),
        vote_validation: VoteValidation::AnyNumber,
    };
    vote_type_list.apply(&event);
    assert_eq!(vote_type_list.vote_types.len(), 1);
}

#[test]
pub fn domain_it_should_reconstruct_from_event_stream() {
    let events = vec![
        VoteTypeEvent::VoteTypeAdded {
            vote_type_id: "test".to_string(),
            vote_validation: VoteValidation::AnyNumber,
        },
        VoteTypeEvent::VoteTypeAdded {
            vote_type_id: "test_a".to_string(),
            vote_validation: VoteValidation::AnyNumber,
        },
    ];
    let vote_type_list = VoteTypeList::source(&events);
    assert_eq!(vote_type_list.vote_types.len(), 2);
    assert!(vote_type_list
        .vote_types
        .get("test")
        .unwrap()
        .validation
        .eq(&VoteValidation::AnyNumber));
    assert!(vote_type_list
        .vote_types
        .get("test_a")
        .unwrap()
        .validation
        .eq(&VoteValidation::AnyNumber));
}
