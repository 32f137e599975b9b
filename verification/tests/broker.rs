use poker_board::command::event::BoardModifiedEvent;
use poker_board::websockets::server::{
    BoardId, BoardState, Connect, Disconnect, Replay, SessionId, WsServer,
};

fn added(id: &str) -> BoardModifiedEvent {
    BoardModifiedEvent::ParticipantAdded {
        participant_id: id.to_string(),
        participant_name: id.to_string(),
    }
}

fn log(count: usize) -> Vec<BoardModifiedEvent> {
    (0..count).map(|i| added(&format!("p{}", i))).collect()
}

fn sent(messages: &Vec<(SessionId, poker_board::websockets::server::BoardModifiedMessage)>) -> Vec<(usize, usize)> {
    messages
        .iter()
        .map(|(session, message)| (session.0, message.position))
        .collect()
}

#[test]
fn the_first_log_counts_as_broadcast() {
    let mut board = BoardState::new();
    board.add_session(SessionId(1));
    assert!(board.update_events(log(3)).is_empty());
    assert!(board.broadcast_changes().is_empty());
}

#[test]
fn new_events_are_broadcast_to_every_subscriber_in_the_order_of_the_log() {
    let mut board = BoardState::default();
    board.add_session(SessionId(1));
    board.add_session(SessionId(2));
    board.add_session(SessionId(1));
    board.update_events(log(1));
    board.update_events(log(3));
    let messages = board.broadcast_changes();
    assert_eq!(sent(&messages), vec![(1, 1), (2, 1), (1, 2), (2, 2)]);
    assert_eq!(messages[0].1.event, added("p1"));
    assert_eq!(messages[3].1.event, added("p2"));
    for subscriber in [1, 2] {
        let positions: Vec<usize> = sent(&messages)
            .into_iter()
            .filter(|(session, _)| *session == subscriber)
            .map(|(_, position)| position)
            .collect();
        assert_eq!(positions, vec![1, 2]);
    }
    assert!(board.broadcast_changes().is_empty());
    board.update_events(log(4));
    assert_eq!(sent(&board.broadcast_changes()), vec![(1, 3), (2, 3)]);
}

#[test]
fn a_log_that_got_shorter_is_not_broadcast() {
    let mut board = BoardState::new();
    board.add_session(SessionId(1));
    board.update_events(log(3));
    board.update_events(log(2));
    assert!(board.broadcast_changes().is_empty());
    board.update_events(log(3));
    assert_eq!(sent(&board.broadcast_changes()), vec![(1, 2)]);
}

#[test]
fn a_replay_waits_for_the_first_log() {
    let mut board = BoardState::new();
    board.add_session(SessionId(1));
    assert!(board.replay_onto(SessionId(1)).is_none());
    assert!(board.replay_onto(SessionId(2)).is_none());
    assert!(board.broadcast_changes().is_empty());
    let replays = board.update_events(log(2));
    assert_eq!(replays.len(), 2);
    assert_eq!(replays[0].0, SessionId(1));
    assert_eq!(replays[1].0, SessionId(2));
    assert_eq!(replays[0].1 .0, log(2));
    assert_eq!(replays[1].1 .0, log(2));
    assert!(board.broadcast_changes().is_empty());
    assert!(board.update_events(log(2)).is_empty());
}

#[test]
fn a_replay_of_a_known_log_is_sent_at_once() {
    let mut board = BoardState::new();
    board.add_session(SessionId(1));
    board.update_events(log(2));
    board.update_events(log(3));
    let replay = board.replay_onto(SessionId(9)).unwrap();
    assert_eq!(replay.0, log(3));
    assert_eq!(sent(&board.broadcast_changes()), vec![(1, 2)]);
}

#[test]
fn a_board_is_orphaned_when_its_last_subscriber_has_left() {
    let mut board = BoardState::new();
    assert!(board.is_orphaned());
    board.add_session(SessionId(1));
    board.add_session(SessionId(2));
    assert!(!board.is_orphaned());
    board.remove_session(&SessionId(3));
    board.remove_session(&SessionId(1));
    assert!(!board.is_orphaned());
    board.remove_session(&SessionId(2));
    assert!(board.is_orphaned());
}

#[test]
fn the_broker_keeps_the_boards_that_have_subscribers() {
    let mut server = WsServer::new();
    assert!(server.boards().is_empty());
    let connect = Connect::new(SessionId(1), BoardId::new("b1".to_string()));
    server.insert_session(connect.board_id, connect.session_id);
    server.insert_session(BoardId::new("b2".to_string()), SessionId(1));
    server.insert_session(BoardId::new("b1".to_string()), SessionId(2));
    assert_eq!(
        server.boards(),
        vec![BoardId::new("b1".to_string()), BoardId::new("b2".to_string())]
    );
    server.remove_session(&Disconnect::new(SessionId(1)).session_id);
    assert_eq!(server.boards(), vec![BoardId::new("b1".to_string())]);
    server.remove_session(&SessionId(2));
    assert!(server.boards().is_empty());
}

#[test]
fn the_broker_broadcasts_board_after_board() {
    let mut server = WsServer::new();
    let b1 = BoardId::new("b1".to_string());
    let b2 = BoardId::new("b2".to_string());
    server.insert_session(b1.clone(), SessionId(1));
    server.insert_session(b2.clone(), SessionId(2));
    server.insert_session(b2.clone(), SessionId(1));
    assert!(server.update_events(&b1, log(1)).is_empty());
    assert!(server.update_events(&b2, log(0)).is_empty());
    assert!(server.broadcast_changes().is_empty());
    server.update_events(&b1, log(2));
    server.update_events(&b2, log(2));
    assert_eq!(
        sent(&server.broadcast_changes()),
        vec![(1, 1), (2, 0), (1, 0), (2, 1), (1, 1)]
    );
    assert!(server.broadcast_changes().is_empty());
}

#[test]
fn the_broker_knows_nothing_of_a_board_without_subscribers() {
    let mut server = WsServer::new();
    let unknown = BoardId::new("nobody".to_string());
    assert!(server.update_events(&unknown, log(2)).is_empty());
    assert!(server.boards().is_empty());
    let request = Replay::new(unknown.clone(), SessionId(1));
    assert!(server
        .replay_board_onto(&request.board_id, request.session_id)
        .is_none());
    assert!(server.boards().is_empty());
    assert!(server.broadcast_changes().is_empty());
}

#[test]
fn the_broker_replays_to_the_sessions_that_ask() {
    let mut server = WsServer::new();
    let b1 = BoardId::new("b1".to_string());
    server.insert_session(b1.clone(), SessionId(1));
    assert!(server.replay_board_onto(&b1, SessionId(1)).is_none());
    let replays = server.update_events(&b1, log(2));
    assert_eq!(replays.len(), 1);
    assert_eq!(replays[0].0, SessionId(1));
    assert_eq!(replays[0].1 .0, log(2));
    server.insert_session(b1.clone(), SessionId(2));
    let replay = server.replay_board_onto(&b1, SessionId(2)).unwrap();
    assert_eq!(replay.0, log(2));
}
