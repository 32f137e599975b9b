use poker_board::command::adapter::{
    board_events, ArcMutexStore, CombinedEventStore, DefaultStore, Store, StoreError,
};
use poker_board::command::event::{
    BoardModifiedEvent, CombinedEvent, VoteTypeEvent, VoteValidation,
};
use poker_board::query::presentation::BoardPresentation;
use poker_board::util::keyed::KeyedList;
use poker_board::util::query::Query;
use poker_board::util::store::{LoadEntity, SaveEntity};
use poker_board::util::text::same_text;

fn added(id: &str) -> BoardModifiedEvent {
    BoardModifiedEvent::ParticipantAdded {
        participant_id: id.to_string(),
        participant_name: id.to_string(),
    }
}

fn vote_type(id: &str) -> VoteTypeEvent {
    VoteTypeEvent::VoteTypeAdded {
        vote_type_id: id.to_string(),
        vote_validation: VoteValidation::AnyNumber,
    }
}

#[test]
fn strings_are_the_same_when_their_characters_are() {
    assert!(same_text("", ""));
    assert!(same_text("board", "board"));
    assert!(!same_text("board", "boar"));
    assert!(!same_text("board", "boarD"));
    assert!(!same_text("", " "));
    assert!(same_text("gr\u{fc}n \u{1f0a1}", "gr\u{fc}n \u{1f0a1}"));
    assert!(!same_text("gr\u{fc}n", "gru\u{308}n"));
}

#[test]
fn a_keyed_list_keeps_the_order_of_first_insertion() {
    let mut list: KeyedList<u8> = KeyedList::new();
    assert!(list.is_empty());
    list.insert("b".to_string(), 1);
    list.insert("a".to_string(), 2);
    list.insert("b".to_string(), 3);
    assert_eq!(list.len(), 2);
    assert_eq!(list.key_at(0), "b");
    assert_eq!(*list.value_at(0), 3);
    assert_eq!(list.key_at(1), "a");
    assert_eq!(list.find("a"), Some(1));
    assert_eq!(list.find("c"), None);
    assert!(list.contains_key("b"));
    assert_eq!(list.get("a"), Some(&2));
    list.replace_at(1, 9);
    assert_eq!(list.exchange_at(1, 4), 9);
    assert_eq!(list.get("a"), Some(&4));
    list.remove("c");
    list.remove("b");
    assert_eq!(list.len(), 1);
    assert_eq!(list.key_at(0), "a");
    assert!(!list.contains_key("b"));
    assert!(!list.is_empty());
}

#[test]
fn a_store_holds_a_log_under_every_key() {
    let mut store: Store<u8> = Store::new();
    assert_eq!(store.get("b1"), None);
    store.insert(&"b1".to_string(), vec![1, 2]);
    store.insert(&"b2".to_string(), vec![]);
    store.insert(&"b1".to_string(), vec![3]);
    assert_eq!(store.get("b1"), Some(&vec![3]));
    assert_eq!(store.get("b2"), Some(&vec![]));
}

#[test]
fn the_in_memory_store_hands_out_what_was_saved() {
    let mut store: ArcMutexStore<BoardModifiedEvent> = ArcMutexStore::default();
    let key = "b1".to_string();
    assert_eq!(store.load(&key), Ok(None));
    assert_eq!(store.save(&key, vec![added("a")]), Ok(vec![added("a")]));
    assert_eq!(store.load(&key), Ok(Some(vec![added("a")])));
    assert_eq!(store.save(&key, vec![]), Ok(vec![]));
    assert_eq!(store.load(&key), Ok(Some(vec![])));
    assert_eq!(store.load(&"b2".to_string()), Ok(None));
    assert_eq!(
        StoreError::CouldNotLockMutex.to_string(),
        "Could not lock mutex"
    );
}

#[test]
fn the_default_store_holds_one_log_and_keeps_nothing() {
    let mut store = DefaultStore::new(vec![vote_type("1")]);
    let key = "any".to_string();
    assert_eq!(store.load(&key), Ok(Some(vec![vote_type("1")])));
    assert_eq!(store.save(&key, vec![]), Ok(vec![]));
    assert_eq!(store.load(&key), Ok(Some(vec![vote_type("1")])));
    assert_eq!(store.clone().load(&"other".to_string()), Ok(Some(vec![vote_type("1")])));
}

struct Broken;

impl LoadEntity<Vec<BoardModifiedEvent>> for Broken {
    type Key = String;
    type Error = StoreError;
    fn load(&self, _key: &String) -> Result<Option<Vec<BoardModifiedEvent>>, StoreError> {
        Err(StoreError::CouldNotLockMutex)
    }
}

impl SaveEntity<Vec<BoardModifiedEvent>> for Broken {
    type Key = String;
    type Error = StoreError;
    fn save(
        &mut self,
        _key: &String,
        _entity: Vec<BoardModifiedEvent>,
    ) -> Result<Vec<BoardModifiedEvent>, StoreError> {
        Err(StoreError::CouldNotLockMutex)
    }
}

#[test]
fn the_combined_log_has_the_vote_types_before_the_events_of_the_board() {
    let key = "b1".to_string();
    let mut boards: ArcMutexStore<BoardModifiedEvent> = ArcMutexStore::new();
    boards.save(&key, vec![added("a"), added("b")]).unwrap();
    let store = CombinedEventStore::new(
        boards,
        DefaultStore::new(vec![vote_type("1"), vote_type("2")]),
        ArcMutexStore::<BoardModifiedEvent>::new(),
    );
    let combined: Option<Vec<CombinedEvent>> = store.load(&key).unwrap();
    assert_eq!(
        combined,
        Some(vec![
            CombinedEvent::VoteTypeEvent(vote_type("1")),
            CombinedEvent::VoteTypeEvent(vote_type("2")),
            CombinedEvent::BoardModifiedEvent(added("a")),
            CombinedEvent::BoardModifiedEvent(added("b")),
        ])
    );
    let own: Option<Vec<BoardModifiedEvent>> = store.load(&key).unwrap();
    assert_eq!(own, Some(vec![added("a"), added("b")]));
    let unknown: Option<Vec<CombinedEvent>> = store.load(&"b2".to_string()).unwrap();
    assert_eq!(
        unknown,
        Some(vec![
            CombinedEvent::VoteTypeEvent(vote_type("1")),
            CombinedEvent::VoteTypeEvent(vote_type("2")),
        ])
    );
}

#[test]
fn of_a_combined_log_the_events_of_the_board_are_saved() {
    let key = "b1".to_string();
    let log = vec![
        CombinedEvent::VoteTypeEvent(vote_type("1")),
        CombinedEvent::BoardModifiedEvent(added("a")),
        CombinedEvent::VoteTypeEvent(vote_type("2")),
        CombinedEvent::BoardModifiedEvent(added("b")),
    ];
    assert_eq!(board_events(&log), vec![added("a"), added("b")]);
    assert_eq!(board_events(&vec![]), vec![]);

    struct Recording(Vec<Vec<BoardModifiedEvent>>);
    impl SaveEntity<Vec<BoardModifiedEvent>> for Recording {
        type Key = String;
        type Error = StoreError;
        fn save(
            &mut self,
            _key: &String,
            entity: Vec<BoardModifiedEvent>,
        ) -> Result<Vec<BoardModifiedEvent>, StoreError> {
            self.0.push(entity.clone());
            Ok(entity)
        }
    }
    let mut store = CombinedEventStore::new(
        ArcMutexStore::<BoardModifiedEvent>::new(),
        DefaultStore::<VoteTypeEvent>::new(vec![]),
        Recording(vec![]),
    );
    assert_eq!(store.save(&key, log.clone()), Ok(log.clone()));

    let mut broken = CombinedEventStore::new(
        ArcMutexStore::<BoardModifiedEvent>::new(),
        DefaultStore::<VoteTypeEvent>::new(vec![]),
        Broken,
    );
    assert_eq!(broken.save(&key, log), Err(StoreError::CouldNotLockMutex));
}

#[test]
fn a_failure_of_a_store_is_the_failure_of_the_combined_store() {
    let key = "b1".to_string();
    let store = CombinedEventStore::new(
        Broken,
        DefaultStore::new(vec![vote_type("1")]),
        ArcMutexStore::<BoardModifiedEvent>::new(),
    );
    let combined: Result<Option<Vec<CombinedEvent>>, StoreError> = store.load(&key);
    assert_eq!(combined, Err(StoreError::CouldNotLockMutex));
    let own: Result<Option<Vec<BoardModifiedEvent>>, StoreError> = store.load(&key);
    assert_eq!(own, Err(StoreError::CouldNotLockMutex));
}

#[test]
fn queries_are_answered_from_the_log() {
    let key = "b1".to_string();
    let mut boards: ArcMutexStore<BoardModifiedEvent> = ArcMutexStore::new();
    boards.save(&key, vec![added("a"), added("b")]).unwrap();
    let query = Query::new(boards);
    let presentation: BoardPresentation = query.query("b1").unwrap();
    assert_eq!(presentation.participants().len(), 2);
    let empty: BoardPresentation = query.query("b2").unwrap();
    assert_eq!(empty, BoardPresentation::default());
    let failed: Result<BoardPresentation, StoreError> = Query::new(Broken).query("b1");
    assert_eq!(failed, Err(StoreError::CouldNotLockMutex));
    let rendered: BoardPresentation = Query::<Broken>::present(Some(vec![added("a")]));
    assert_eq!(rendered.participants().len(), 1);
}
