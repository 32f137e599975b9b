use poker_board::command::domain::add_participant::AddParticipantCommand;
use poker_board::command::domain::Board;
use poker_board::command::event::BoardModifiedEvent;
use poker_board::presentation::input::{AddParticipantDto, ClearVotesDto, RemoveParticipantDto};
use poker_board::presentation::{CommandDeserializer, CommandHandler, Controller, Status};
use poker_board::util::command::Command;
use poker_board::util::presentation::Input;

struct JsonDeserializer;

impl CommandDeserializer for JsonDeserializer {
    type Command = AddParticipantDto;

    fn deserialize_command(&self, command: String) -> Result<AddParticipantDto, String> {
        let value: serde_json::Value =
            serde_json::from_str(&command).map_err(|e| e.to_string())?;
        let field = |name: &str| {
            value
                .get(name)
                .and_then(|field| field.as_str())
                .map(|field| field.to_string())
                .ok_or(format!("missing field `{}`", name))
        };
        Ok(AddParticipantDto {
            entity_id: field("entity_id")?,
            name: field("name")?,
        })
    }
}

type Handled = std::rc::Rc<std::cell::RefCell<Vec<Input<AddParticipantCommand>>>>;

struct FakeUseCase {
    outcome: Result<(), String>,
    handled: Handled,
}

impl CommandHandler<AddParticipantDto> for FakeUseCase {
    fn handle_command(&mut self, command: AddParticipantDto) -> Result<(), String> {
        self.handled.borrow_mut().push(command.into_input());
        self.outcome.clone()
    }
}

#[test]
pub fn it_should_handle_add_participant_request() {
    let handled = Handled::default();
    let use_case = FakeUseCase {
        outcome: Ok(()),
        handled: handled.clone(),
    };
    let mut controller = Controller::new(use_case, JsonDeserializer);

    let req_body = r#"{"entity_id": "test-id", "name": "test-name"}"#.to_string();

    let response = controller.handle(req_body);

    assert_eq!(response.code(), 200);
    let handled = handled.borrow();
    assert_eq!(handled.len(), 1);
    assert_eq!(handled[0].id(), "test-id");
    assert_eq!(
        handled[0]
            .command()
            .apply_with(&Board::new(), "fresh".to_string()),
        AddParticipantCommand::new("test-name".to_string())
            .apply_with(&Board::new(), "fresh".to_string())
    );
}

#[test]
pub fn it_should_return_bad_request_when_add_participant_request_is_invalid() {
    let use_case = FakeUseCase {
        outcome: Ok(()),
        handled: Handled::default(),
    };
    let mut controller = Controller::new(use_case, JsonDeserializer);

    let req_body = r#"{"entity_id": "test-id"}"#.to_string();

    let response = controller.handle(req_body);

    assert_eq!(response.code(), 400);
    assert!(matches!(response, Status::BadRequest(reason) if reason == "missing field `name`"));
}

#[test]
pub fn it_should_return_server_error_if_add_participant_use_case_fails() {
    let use_case = FakeUseCase {
        outcome: Err("test-error".to_string()),
        handled: Handled::default(),
    };
    let mut controller = Controller::new(use_case, JsonDeserializer);

    let req_body = r#"{"entity_id": "test-id", "name": "test-name"}"#.to_string();

    let response = controller.handle(req_body);

    assert_eq!(response.code(), 500);
    assert!(matches!(response, Status::InternalServerError(reason) if reason == "test-error"));
}

#[test]
fn requests_become_commands_for_their_boards() {
    let add = AddParticipantDto {
        entity_id: "b1".to_string(),
        name: "Ann".to_string(),
    }
    .into_input();
    assert_eq!(add.id(), "b1");
    let events = add.command().apply_with(&Board::new(), "fresh".to_string());
    assert_eq!(
        events,
        vec![BoardModifiedEvent::ParticipantAdded {
            participant_id: "fresh".to_string(),
            participant_name: "Ann".to_string(),
        }]
    );
    let remove = RemoveParticipantDto {
        entity_id: "b2".to_string(),
        participant_id: "p1".to_string(),
    }
    .into_input();
    assert_eq!(remove.id(), "b2");
    assert_eq!(remove.command().apply(&Board::new()).len(), 1);
    let clear = ClearVotesDto {
        entity_id: "b3".to_string(),
    }
    .into_input();
    assert_eq!(clear.id(), "b3");
    assert_eq!(
        clear.command().apply(&Board::new()),
        vec![BoardModifiedEvent::VotesCleared]
    );
}
