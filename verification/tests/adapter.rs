use poker_board::adapter::{AdapterConfig, InMemoryModifyEntityAdapter};
use poker_board::command::adapter::Store;
use poker_board::command::domain::add_participant::AddParticipantCommand;
use poker_board::command::domain::clear_votes::ClearVotes;
use poker_board::command::domain::remove_participant::RemoveParticipantCommand;
use poker_board::command::event::{BoardModifiedEvent, ParticipantNotRemovedReason};
use poker_board::port::{
    Attempt, EventStreamModifier, GetEntityPort, ModifyEntityPort, ModifyError,
};
use poker_board::service::{append, Append, ModifyingService, QueryingService};
use poker_board::util::presentation::Input;

fn store_with_cleared_votes() -> Store<BoardModifiedEvent> {
    let mut store = Store::new();
    store.insert(
        &"test-id".to_string(),
        vec![BoardModifiedEvent::VotesCleared],
    );
    store
}

#[test]
pub fn it_should_persist_changed_events() {
    let config = AdapterConfig::default().with_store(store_with_cleared_votes());
    let mut in_memory_modify_entity_adapter = InMemoryModifyEntityAdapter::new(config);

    let id = "test-id".to_string();

    let participant_name = "participant_name".to_string();

    let map_fn = |events: Vec<BoardModifiedEvent>| {
        let mut events = events.clone();
        events.push(BoardModifiedEvent::ParticipantAdded {
            participant_id: "test-id".to_string(),
            participant_name: participant_name.clone(),
        });
        events
    };

    in_memory_modify_entity_adapter
        .modify(&id, &map_fn)
        .unwrap();

    assert_eq!(in_memory_modify_entity_adapter.events(&id).len(), 2);
}

#[test]
pub fn it_should_return_an_error_if_event_log_was_changed() {
    let config = AdapterConfig::default().with_store(store_with_cleared_votes());
    let mut in_memory_modify_entity_adapter = InMemoryModifyEntityAdapter::new(config);

    let id = "test-id".to_string();

    let participant_name = "participant_name".to_string();

    let map_fn = |_events: Vec<BoardModifiedEvent>| {
        vec![BoardModifiedEvent::ParticipantAdded {
            participant_id: "test-id".to_string(),
            participant_name: participant_name.clone(),
        }]
    };

    let err = in_memory_modify_entity_adapter
        .modify(&id, &map_fn)
        .unwrap_err();

    assert_eq!(
        err,
        ModifyError::EventLogChangedError {
            original: vec![BoardModifiedEvent::VotesCleared],
            actual: vec![BoardModifiedEvent::ParticipantAdded {
                participant_id: "test-id".to_string(),
                participant_name: "participant_name".to_string()
            }]
        }
    );
    assert_eq!(
        in_memory_modify_entity_adapter.events(&id),
        vec![BoardModifiedEvent::VotesCleared]
    );
}

#[test]
pub fn it_should_return_an_error_if_event_log_size_was_reduced() {
    let config = AdapterConfig::default().with_store(store_with_cleared_votes());
    let mut in_memory_modify_entity_adapter = InMemoryModifyEntityAdapter::new(config);

    let id = "test-id".to_string();

    let map_fn = |_: Vec<BoardModifiedEvent>| vec![];

    let err = in_memory_modify_entity_adapter
        .modify(&id, &map_fn)
        .unwrap_err();

    assert_eq!(
        err,
        ModifyError::EventLogChangedError {
            original: vec![BoardModifiedEvent::VotesCleared],
            actual: vec![]
        }
    );
}

#[test]
fn a_log_that_is_not_stored_is_empty() {
    let mut adapter = InMemoryModifyEntityAdapter::default();
    let id = "new".to_string();
    assert!(adapter.events(&id).is_empty());
    let unchanged = |events: Vec<BoardModifiedEvent>| events;
    assert_eq!(adapter.modify(&id, &unchanged), Ok(vec![]));
    assert_eq!(adapter.get_entity(id.clone()), Ok(vec![]));
    let attempt = Attempt::new(|mut events: Vec<BoardModifiedEvent>| {
        events.push(BoardModifiedEvent::VotesCleared);
        events
    });
    assert_eq!(
        attempt.attempt(vec![]),
        vec![BoardModifiedEvent::VotesCleared]
    );
    assert_eq!(
        attempt.modify(vec![BoardModifiedEvent::VotesCleared]).len(),
        2
    );
    assert_eq!(adapter.modify_entity(id.clone(), &attempt), Ok(()));
    assert_eq!(adapter.modify_entity(id.clone(), &attempt), Ok(()));
    assert_eq!(adapter.events(&id).len(), 2);
}

#[test]
fn a_store_out_of_reach_is_tried_as_often_as_configured() {
    let adapter = InMemoryModifyEntityAdapter::default();
    assert_eq!(adapter.retry_lock(0), Ok(1));
    assert_eq!(adapter.retry_lock(2), Ok(3));
    assert_eq!(
        adapter.retry_lock(3),
        Err(ModifyError::ConnectionError(
            "Unable to lock store".to_string()
        ))
    );
    let patient = InMemoryModifyEntityAdapter::new(AdapterConfig::default().with_try_times(255));
    assert_eq!(patient.retry_lock(254), Ok(255));
    assert!(patient.retry_lock(255).is_err());
    let hasty = InMemoryModifyEntityAdapter::new(AdapterConfig::default().with_try_times(0));
    assert!(hasty.retry_lock(0).is_err());
}

#[test]
fn errors_are_equal_when_they_say_the_same() {
    let changed = ModifyError::EventLogChangedError {
        original: vec![BoardModifiedEvent::VotesCleared],
        actual: vec![],
    };
    assert_eq!(changed.clone(), changed);
    assert_ne!(
        changed,
        ModifyError::EventLogChangedError {
            original: vec![],
            actual: vec![BoardModifiedEvent::VotesCleared],
        }
    );
    assert_ne!(
        ModifyError::ConnectionError("x".to_string()),
        ModifyError::UnableToCompleteError("x".to_string())
    );
    assert_eq!(
        ModifyError::UnableToCompleteError("x".to_string()).clone(),
        ModifyError::UnableToCompleteError("x".to_string())
    );
}

type Persisted = std::rc::Rc<std::cell::RefCell<Vec<(String, Vec<BoardModifiedEvent>)>>>;

struct FakePort {
    events: Vec<BoardModifiedEvent>,
    persisted: Persisted,
    outcome: Result<(), ModifyError>,
}

impl<M: EventStreamModifier<BoardModifiedEvent>> ModifyEntityPort<BoardModifiedEvent, M>
    for FakePort
{
    fn modify_entity(&mut self, entity: String, attempt: &M) -> Result<(), ModifyError> {
        let modified = attempt.modify(self.events.clone());
        self.persisted.borrow_mut().push((entity, modified));
        self.outcome.clone()
    }
}

#[test]
pub fn it_should_persist_updated_list_of_events() {
    let persisted = Persisted::default();
    let port = FakePort {
        events: vec![BoardModifiedEvent::ParticipantAdded {
            participant_id: "test-id".to_string(),
            participant_name: "test-name".to_string(),
        }],
        persisted: persisted.clone(),
        outcome: Ok(()),
    };
    let id = "test-id".to_string();

    let participant_name = "participant_name".to_string();
    let add_participant_command = AddParticipantCommand::new(participant_name.clone());

    let mut service = ModifyingService::new(port);

    let command_dto = Input::new(id.to_string(), add_participant_command);
    let result = service.execute(&command_dto);
    assert!(result.is_ok());

    let persisted = persisted.borrow();
    assert_eq!(persisted.len(), 1);
    let (entity, events) = &persisted[0];
    assert_eq!(entity, "test-id");
    assert_eq!(events.len(), 2);
    assert!(matches!(
        &events[1],
        BoardModifiedEvent::ParticipantAdded { participant_name, .. }
            if participant_name == "participant_name"
    ));
}

#[test]
pub fn it_should_return_error_when_persisting_fails() {
    let port = FakePort {
        events: vec![],
        persisted: Persisted::default(),
        outcome: Err(ModifyError::ConnectionError("test".to_string())),
    };
    let id = "test-id".to_string();

    let participant_name = "participant_name".to_string();
    let add_participant_command = AddParticipantCommand::new(participant_name.clone());

    let mut service = ModifyingService::new(port);

    let command_dto = Input::new(id.to_string(), add_participant_command);
    let result = service.execute(&command_dto);
    assert!(result.is_err());
    assert!(matches!(result.unwrap_err(), ModifyError::ConnectionError(x) if x == "test"));
}

#[test]
fn the_service_appends_the_answer_of_the_command_to_the_log() {
    let mut service = ModifyingService::new(InMemoryModifyEntityAdapter::default());
    let id = "b1".to_string();
    let add = Input::new(
        id.clone(),
        AddParticipantCommand::with_id("Ann".to_string(), "p1".to_string()),
    );
    assert_eq!(service.execute(&add), Ok(()));
    assert_eq!(service.execute(&add), Ok(()));
    let clear = Input::new(id.clone(), ClearVotes::new());
    assert_eq!(service.execute(&clear), Ok(()));
    let remove = Input::new(id.clone(), RemoveParticipantCommand::new("p2".to_string()));
    assert_eq!(service.execute(&remove), Ok(()));
    assert_eq!(add.id(), "b1");

    let expected = vec![
        BoardModifiedEvent::ParticipantAdded {
            participant_id: "p1".to_string(),
            participant_name: "Ann".to_string(),
        },
        BoardModifiedEvent::ParticipantNotAdded {
            participant_id: "p1".to_string(),
            reason: poker_board::command::event::ParticipantNotAddedReason::AlreadyExists,
        },
        BoardModifiedEvent::VotesCleared,
        BoardModifiedEvent::ParticipantCouldNotBeRemoved {
            participant_id: "p2".to_string(),
            reason: ParticipantNotRemovedReason::DoesNotExist,
        },
    ];
    let command = ClearVotes::new();
    assert_eq!(
        append(&command, expected.clone()).len(),
        expected.len() + 1
    );
    assert_eq!(
        Append { command: &command }.modify(vec![]),
        vec![BoardModifiedEvent::VotesCleared]
    );
}

#[test]
fn the_querying_service_reads_from_its_store() {
    let mut adapter = InMemoryModifyEntityAdapter::default();
    let id = "b1".to_string();
    let grow = |mut events: Vec<BoardModifiedEvent>| {
        events.push(BoardModifiedEvent::VotesCleared);
        events
    };
    adapter.modify(&id, &grow).unwrap();
    let service = QueryingService::new(adapter);
    assert_eq!(
        service.events(id),
        Ok(vec![BoardModifiedEvent::VotesCleared])
    );
    assert_eq!(service.events("other".to_string()), Ok(vec![]));
}
