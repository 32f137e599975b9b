use poker_board::command::domain::CombinedDomain;
use poker_board::command::event::{BoardModifiedEvent, Vote, VoteValue};
use poker_board::command::BoardCommand;
use poker_board::query::presentation::{BoardPresentation, Stats};
use poker_board::util::command::Command as _;
use poker_board::websockets::sidecar::{answer, respond};
use poker_board::websockets::websocket::{
    Command, Frame, Heartbeat, Reaction, ServerMessage, UseCaseMessage, WebSocket, WsCommand,
    CLIENT_TIMEOUT_MILLIS, HEARTBEAT_INTERVAL_MILLIS,
};

fn connection() -> WebSocket {
    WebSocket::with_id("b1".to_string(), "Ann".to_string(), "p1".to_string())
}

fn added(id: &str, name: &str) -> BoardModifiedEvent {
    BoardModifiedEvent::ParticipantAdded {
        participant_id: id.to_string(),
        participant_name: name.to_string(),
    }
}

fn voted(id: &str, value: u8) -> BoardModifiedEvent {
    BoardModifiedEvent::ParticipantVoted {
        participant_id: id.to_string(),
        vote: Vote::new("1".to_string(), VoteValue::Number(value)),
    }
}

#[test]
fn a_client_is_given_up_after_the_timeout() {
    assert_eq!(HEARTBEAT_INTERVAL_MILLIS, 1000);
    assert_eq!(CLIENT_TIMEOUT_MILLIS, 5000);
    assert_eq!(WebSocket::hb(0), Heartbeat::Ping);
    assert_eq!(WebSocket::hb(5000), Heartbeat::Ping);
    assert_eq!(WebSocket::hb(5001), Heartbeat::Stop);
    assert_eq!(WebSocket::hb(u128::MAX), Heartbeat::Stop);
}

#[test]
fn a_connection_takes_part_for_its_client() {
    let connection = connection();
    let domain = CombinedDomain::default();
    assert_eq!(connection.board_id(), "b1");
    assert_eq!(connection.last_event(), 0);
    assert_eq!(
        connection.started().apply(&domain),
        vec![added("p1", "Ann")]
    );
    match connection.stopped() {
        BoardCommand::RemoveParticipant(command) => {
            assert_eq!(
                command.apply(domain.board()),
                vec![BoardModifiedEvent::ParticipantCouldNotBeRemoved {
                    participant_id: "p1".to_string(),
                    reason: poker_board::command::event::ParticipantNotRemovedReason::DoesNotExist,
                }]
            );
        }
        other => panic!("unexpected command {:?}", other),
    }
    match connection.convert_command(WsCommand::ParticipantVoted { vote: 8 }) {
        BoardCommand::Vote(command) => {
            assert_eq!(command.participant_id, "p1");
            assert_eq!(command.vote, Vote::new("1".to_string(), VoteValue::Number(8)));
        }
        other => panic!("unexpected command {:?}", other),
    }
}

#[test]
fn a_fresh_connection_takes_part_under_a_fresh_id() {
    let first = WebSocket::new("b1".to_string(), "Ann".to_string());
    let second = WebSocket::new("b1".to_string(), "Ann".to_string());
    let id_of = |connection: &WebSocket| match connection.stopped() {
        BoardCommand::RemoveParticipant(command) => {
            match &command.apply(&poker_board::command::domain::Board::new())[0] {
                BoardModifiedEvent::ParticipantCouldNotBeRemoved { participant_id, .. } => {
                    participant_id.clone()
                }
                other => panic!("unexpected event {:?}", other),
            }
        }
        other => panic!("unexpected command {:?}", other),
    };
    assert_eq!(id_of(&first).chars().count(), 36);
    assert_ne!(id_of(&first), id_of(&second));
}

#[test]
fn frames_are_reacted_to() {
    let connection = connection();
    assert!(matches!(connection.handle(Frame::Ping), Reaction::Pong));
    assert!(matches!(connection.handle(Frame::Pong), Reaction::Alive));
    assert!(matches!(connection.handle(Frame::Close), Reaction::Close));
    assert!(matches!(connection.handle(Frame::Failed), Reaction::Stop));
    assert!(matches!(connection.handle(Frame::Other), Reaction::Ignore));
    let command = Command {
        command: WsCommand::ParticipantVoted { vote: 5 },
    };
    match connection.handle(Frame::Text(Ok(command))) {
        Reaction::Submit(BoardCommand::Vote(vote)) => {
            assert_eq!(vote.participant_id, "p1");
            assert_eq!(vote.vote, Vote::new("1".to_string(), VoteValue::Number(5)));
        }
        other => panic!("unexpected reaction {:?}", other),
    }
    match connection.handle(Frame::Text(Err("expected value".to_string()))) {
        Reaction::Reply(ServerMessage::Error(text)) => {
            assert_eq!(
                text,
                "There was an error processing your command expected value"
            );
        }
        other => panic!("unexpected reaction {:?}", other),
    }
}

fn presentation_of(message: ServerMessage) -> BoardPresentation {
    match message {
        ServerMessage::QueryUpdated(presentation) => presentation,
        other => panic!("unexpected message {:?}", other),
    }
}

#[test]
fn updates_are_applied_and_counted() {
    let mut connection = connection();
    let first = presentation_of(connection.update(&vec![added("p1", "Ann"), added("p2", "Bo")]));
    assert_eq!(connection.last_event(), 2);
    assert_eq!(first.participants().len(), 2);
    assert!(!first.voting_complete());
    let unchanged = presentation_of(connection.update(&vec![]));
    assert_eq!(connection.last_event(), 2);
    assert_eq!(unchanged, first);
    let complete = presentation_of(connection.update(&vec![voted("p1", 3), voted("p2", 5)]));
    assert_eq!(connection.last_event(), 4);
    assert!(complete.voting_complete());
    assert_eq!(
        complete.stats(),
        Some(Stats {
            average: 5,
            max: 5,
            min: 3
        })
    );
}

#[test]
fn the_sidecar_answers_every_command() {
    match answer(Ok::<_, String>(vec![added("p1", "Ann")])) {
        ServerMessage::CommandResult(events) => assert_eq!(events, vec![added("p1", "Ann")]),
        other => panic!("unexpected message {:?}", other),
    }
    match answer(Err("the store is down".to_string())) {
        ServerMessage::Error(text) => {
            assert_eq!(text, "There was an error processing your command.")
        }
        other => panic!("unexpected message {:?}", other),
    }
    let message = UseCaseMessage {
        board_id: "b1".to_string(),
        command: BoardCommand::Noop,
        receiver: 17u8,
    };
    let (receiver, sent) = respond(message, Ok::<_, String>(vec![]));
    assert_eq!(receiver, 17);
    assert!(matches!(sent, ServerMessage::CommandResult(events) if events.is_empty()));
}
