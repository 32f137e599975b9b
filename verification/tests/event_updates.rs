use poker_board::command::event::BoardModifiedEvent;
use poker_board::websockets::message::{LoadEvents, SaveEvents};
use poker_board::websockets::store::{
    Board, EventUpdates, InvalidPosition, LoadUpdate, UpdateRequest, WaitForEvents,
};

fn added(id: &str) -> BoardModifiedEvent {
    BoardModifiedEvent::ParticipantAdded {
        participant_id: id.to_string(),
        participant_name: id.to_string(),
    }
}

fn log(count: usize) -> Vec<BoardModifiedEvent> {
    (0..count).map(|i| added(&format!("p{}", i))).collect()
}

#[test]
fn a_reader_behind_the_log_is_answered_at_once() {
    let mut board: Board<&str> = Board::new();
    assert!(board.update_events(log(3)).is_empty());
    match board.get_update(1, "reader") {
        Ok(UpdateRequest::Fulfilled(events)) => assert_eq!(events, log(3)[1..].to_vec()),
        other => panic!("unexpected answer {:?}", other),
    }
    match board.get_update(0, "reader") {
        Ok(UpdateRequest::Fulfilled(events)) => assert_eq!(events, log(3)),
        other => panic!("unexpected answer {:?}", other),
    }
    assert!(board.update_events(log(4)).is_empty());
}

#[test]
fn a_reader_at_the_end_of_the_log_waits_for_the_next_events() {
    let mut board: Board<&str> = Board::new();
    assert!(matches!(
        board.get_update(0, "early"),
        Ok(UpdateRequest::Pending)
    ));
    let sent = board.update_events(log(2));
    assert_eq!(sent, vec![("early", log(2))]);
    assert!(matches!(
        board.get_update(2, "first"),
        Ok(UpdateRequest::Pending)
    ));
    assert!(matches!(
        board.get_update(2, "second"),
        Ok(UpdateRequest::Pending)
    ));
    let sent = board.update_events(log(5));
    assert_eq!(
        sent,
        vec![
            ("first", log(5)[2..].to_vec()),
            ("second", log(5)[2..].to_vec())
        ]
    );
    assert!(board.update_events(log(6)).is_empty());
    assert_eq!(board.events(), log(6));
}

#[test]
fn a_reader_behind_the_end_of_the_log_is_an_error() {
    let mut board: Board<&str> = Board::new();
    board.update_events(log(2));
    assert_eq!(
        board.get_update(3, "reader").unwrap_err(),
        InvalidPosition {
            last_event: 3,
            len: 2
        }
    );
    assert!(board.update_events(log(3)).is_empty());
}

#[test]
fn a_stored_log_only_grows() {
    let mut board: Board<&str> = Board::new();
    board.update_events(log(3));
    board.update_events(log(1));
    assert_eq!(board.events(), log(3));
    board.update_events(vec![added("x"), added("y"), added("z"), added("p3")]);
    assert_eq!(board.events(), log(4));
    board.update_events(vec![]);
    assert_eq!(board.events(), log(4));
}

#[test]
fn a_waiting_reader_is_told_when_nothing_was_added() {
    let mut board: Board<&str> = Board::new();
    board.update_events(log(2));
    assert!(matches!(
        board.get_update(2, "reader"),
        Ok(UpdateRequest::Pending)
    ));
    assert_eq!(board.update_events(log(2)), vec![("reader", vec![])]);
}

#[test]
fn the_store_keeps_a_log_for_every_board() {
    let mut store: EventUpdates<u8> = EventUpdates::new();
    let b1 = "b1".to_string();
    let b2 = "b2".to_string();
    assert_eq!(store.load_events(&LoadEvents { key: b1.clone() }), None);
    assert!(store
        .save_events(&SaveEvents {
            key: b1.clone(),
            event: log(2),
        })
        .is_empty());
    assert_eq!(
        store.load_events(&LoadEvents { key: b1.clone() }),
        Some(log(2))
    );
    assert_eq!(store.load_events(&LoadEvents { key: b2.clone() }), None);

    let wait = WaitForEvents {
        key: b1.clone(),
        last_event: 2,
    };
    assert!(matches!(
        store.wait_for_events(&wait, 1),
        Ok(UpdateRequest::Pending)
    ));
    let early = WaitForEvents {
        key: b2.clone(),
        last_event: 0,
    };
    assert!(matches!(
        store.wait_for_events(&early, 2),
        Ok(UpdateRequest::Pending)
    ));
    assert_eq!(
        store.load_events(&LoadEvents { key: b2.clone() }),
        Some(vec![])
    );
    let sent = store.save_events(&SaveEvents {
        key: b1.clone(),
        event: log(3),
    });
    assert_eq!(sent, vec![(1, vec![added("p2")])]);
    let sent = store.save_events(&SaveEvents {
        key: b2.clone(),
        event: log(1),
    });
    assert_eq!(sent, vec![(2, log(1))]);

    let behind = WaitForEvents {
        key: b1.clone(),
        last_event: 1,
    };
    match store.wait_for_events(&behind, 3) {
        Ok(UpdateRequest::Fulfilled(events)) => assert_eq!(events, log(3)[1..].to_vec()),
        other => panic!("unexpected answer {:?}", other),
    }
    let beyond = WaitForEvents {
        key: b1.clone(),
        last_event: 9,
    };
    assert_eq!(
        store.wait_for_events(&beyond, 4).unwrap_err(),
        InvalidPosition {
            last_event: 9,
            len: 3
        }
    );
}

#[test]
fn the_store_answers_a_reader_that_does_not_wait() {
    let mut store: EventUpdates<u8> = EventUpdates::new();
    let key = "b1".to_string();
    assert_eq!(store.load_update(&key, 0), Ok(vec![]));
    assert_eq!(
        store.load_update(&key, 1),
        Err(InvalidPosition {
            last_event: 1,
            len: 0
        })
    );
    store.save_events(&SaveEvents {
        key: key.clone(),
        event: log(3),
    });
    assert_eq!(store.load_update(&key, 0), Ok(log(3)));
    assert_eq!(store.load_update(&key, 2), Ok(vec![added("p2")]));
    assert_eq!(store.load_update(&key, 3), Ok(vec![]));
    assert_eq!(
        store.load_update(&key, 4),
        Err(InvalidPosition {
            last_event: 4,
            len: 3
        })
    );
    let mut board: Board<u8> = Board::new();
    board.update_events(log(2));
    assert_eq!(board.events_since(1), Ok(vec![added("p1")]));
    assert!(board.events_since(3).is_err());
}
