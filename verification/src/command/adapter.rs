//! Stores of event logs that live in memory.
use vstd::prelude::*;
use crate::command::event::{
    BoardModifiedEvent, BoardModifiedEventView, CombinedEvent, CombinedEventView, VoteTypeEvent,
    VoteTypeEventView,
};
use crate::util::keyed;
use crate::util::keyed::KeyedList;
use crate::util::store::{LoadEntity, SaveEntity};
use crate::util::transaction::retry::{Instruction, RetryStrategy};
use crate::util::transaction::{ErrorKind, Failure};
use crate::util::view;

verus! {

/// Logs of events of type `T`, each under the key of its board.
#[derive(Debug)]
pub struct Store<T> {
    store: KeyedList<Vec<T>>,
}

impl<T> View for Store<T> {
    type V = Seq<(Seq<char>, Seq<T>)>;

    closed spec fn view(&self) -> Seq<(Seq<char>, Seq<T>)> {
        self.store@
    }
}

impl<T> Store<T> {
    /// A store without logs.
    pub fn new() -> (store: Self)
        ensures
            store@ == Seq::<(Seq<char>, Seq<T>)>::empty(),
    {
        Self { store: KeyedList::new() }
    }

    /// The log under `key`.
    pub fn get(&self, key: &str) -> (log: Option<&Vec<T>>)
        ensures
            match log {
                Some(log) => keyed::lookup(self@, key@) == Some(log@),
                None => keyed::lookup(self@, key@) is None,
            },
            keyed::distinct_keys(self@),
    {
        let _ = self.store.len();
        self.store.get(key)
    }

    /// Puts `value` in the place of the log under `key`.
    pub fn insert(&mut self, key: &String, value: Vec<T>)
        ensures
            final(self)@ == keyed::upsert(old(self)@, key@, value@),
    {
        self.store.insert(key.clone(), value);
    }
}

/// Why the in-memory store could not be used.
#[derive(Debug, Clone, Copy, PartialEq, Eq, Structural)]
pub enum StoreError {
    CouldNotLockMutex,
}

impl StoreError {
    /// The error in words.
    pub fn to_string(&self) -> (text: String)
        ensures
            text@ == "Could not lock mutex"@,
    {
        match self {
            StoreError::CouldNotLockMutex => "Could not lock mutex".to_string(),
        }
    }
}

/// A store that could not be locked is busy: the error is transient.
impl Failure for StoreError {
    open spec fn kind_of(&self) -> ErrorKind {
        ErrorKind::Transient
    }

    fn kind(&self) -> (kind: ErrorKind) {
        ErrorKind::Transient
    }
}

/// Whether `copy` holds a clone of every item of `items`, in the same order.
pub open spec fn cloned_items<T: Clone>(items: Seq<T>, copy: Seq<T>) -> bool {
    copy.len() == items.len() && forall|i: int|
        0 <= i < items.len() ==> cloned(#[trigger] items[i], copy[i])
}

/// The in-memory store of the logs of events of type `T`.
#[derive(Debug)]
pub struct ArcMutexStore<T>(Store<T>);

impl<T> View for ArcMutexStore<T> {
    type V = Seq<(Seq<char>, Seq<T>)>;

    closed spec fn view(&self) -> Seq<(Seq<char>, Seq<T>)> {
        self.0@
    }
}

impl<T> ArcMutexStore<T> {
    pub fn new() -> (store: Self)
        ensures
            store@ == Seq::<(Seq<char>, Seq<T>)>::empty(),
    {
        Self(Store::new())
    }
}

impl<T> Default for ArcMutexStore<T> {
    fn default() -> (store: Self)
        ensures
            store@ == Seq::<(Seq<char>, Seq<T>)>::empty(),
    {
        Self::new()
    }
}

impl<T: Clone> LoadEntity<Vec<T>> for ArcMutexStore<T> {
    type Key = String;

    type Error = StoreError;

    /// Loading succeeds, with a copy of the log under `key` if one is stored.
    open spec fn loads(&self, key: &String, outcome: Result<Option<Vec<T>>, StoreError>) -> bool {
        match outcome {
            Ok(Some(log)) => keyed::lookup(self@, key@) matches Some(stored) && cloned_items(
                stored,
                log@,
            ),
            Ok(None) => keyed::lookup(self@, key@) is None,
            Err(_) => false,
        }
    }

    fn load(&self, key: &String) -> (outcome: Result<Option<Vec<T>>, StoreError>) {
        match self.0.get(key.as_str()) {
            Some(log) => Ok(Some(log.clone())),
            None => Ok(None),
        }
    }
}

impl<T: Clone> SaveEntity<Vec<T>> for ArcMutexStore<T> {
    type Key = String;

    type Error = StoreError;

    /// Saving succeeds: a copy of `entity` stands under `key`, and `entity`
    /// itself comes back.
    open spec fn saves(
        &self,
        key: &String,
        entity: Vec<T>,
        saved: Self,
        outcome: Result<Vec<T>, StoreError>,
    ) -> bool {
        outcome == Ok::<Vec<T>, StoreError>(entity) && exists|copy: Seq<T>| #[trigger]
            cloned_items(entity@, copy) && saved@ == keyed::upsert(self@, key@, copy)
    }

    fn save(&mut self, key: &String, entity: Vec<T>) -> (outcome: Result<Vec<T>, StoreError>) {
        let copy = entity.clone();
        assert(cloned_items(entity@, copy@));
        self.0.insert(key, copy);
        Ok(entity)
    }
}

/// A store that holds the same log under every key and keeps nothing that is
/// saved to it.
#[derive(Debug)]
pub struct DefaultStore<T> {
    default: Vec<T>,
}

impl<T> View for DefaultStore<T> {
    type V = Seq<T>;

    closed spec fn view(&self) -> Seq<T> {
        self.default@
    }
}

impl<T> DefaultStore<T> {
    pub fn new(default: Vec<T>) -> (store: Self)
        ensures
            store@ == default@,
    {
        Self { default }
    }
}

impl<T: Clone> Clone for DefaultStore<T> {
    fn clone(&self) -> (copy: Self)
        ensures
            cloned_items(self@, copy@),
    {
        Self { default: self.default.clone() }
    }
}

impl<T: Clone> LoadEntity<Vec<T>> for DefaultStore<T> {
    type Key = String;

    type Error = StoreError;

    /// Loading succeeds with a copy of the one log, whatever the key.
    open spec fn loads(&self, key: &String, outcome: Result<Option<Vec<T>>, StoreError>) -> bool {
        outcome matches Ok(Some(log)) && cloned_items(self@, log@)
    }

    fn load(&self, _key: &String) -> (outcome: Result<Option<Vec<T>>, StoreError>) {
        Ok(Some(self.default.clone()))
    }
}

impl<T: Clone> SaveEntity<Vec<T>> for DefaultStore<T> {
    type Key = String;

    type Error = StoreError;

    /// Saving succeeds and changes nothing.
    open spec fn saves(
        &self,
        key: &String,
        entity: Vec<T>,
        saved: Self,
        outcome: Result<Vec<T>, StoreError>,
    ) -> bool {
        outcome == Ok::<Vec<T>, StoreError>(entity) && saved == *self
    }

    fn save(&mut self, _key: &String, entity: Vec<T>) -> (outcome: Result<Vec<T>, StoreError>) {
        Ok(entity)
    }
}

/// The strategy that never retries.
#[derive(Debug, Clone, Copy)]
pub struct NoRetry;

impl NoRetry {
    pub fn new() -> (strategy: Self) {
        Self
    }
}

impl Default for NoRetry {
    fn default() -> (strategy: Self) {
        Self::new()
    }
}

impl RetryStrategy for NoRetry {
    open spec fn should_retry_requires(
        &self,
        previous_instruction: Option<Instruction>,
        retry_count: u8,
    ) -> bool {
        true
    }

    open spec fn should_retry_ensures(
        &self,
        previous_instruction: Option<Instruction>,
        retry_count: u8,
        instruction: Instruction,
    ) -> bool {
        instruction == Instruction::Abort
    }

    fn should_retry(&self, _previous_instruction: &Option<Instruction>, _retry_count: &u8) -> (instruction:
        Instruction) {
        Instruction::Abort
    }
}

/// The vote type events as events of the combined log.
pub open spec fn vote_types_combined(events: Seq<VoteTypeEventView>) -> Seq<CombinedEventView> {
    Seq::new(events.len(), |i: int| CombinedEventView::VoteTypeEvent(events[i]))
}

/// The events of the board itself among the events of its combined log, in
/// their order.
pub open spec fn board_events_of(log: Seq<CombinedEventView>) -> Seq<BoardModifiedEventView>
    decreases log.len(),
{
    if log.len() == 0 {
        Seq::empty()
    } else {
        match log.last() {
            CombinedEventView::BoardModifiedEvent(event) => board_events_of(log.drop_last()).push(
                event,
            ),
            CombinedEventView::VoteTypeEvent(_) => board_events_of(log.drop_last()),
        }
    }
}

/// What was loaded, as mathematics; nothing stands for an empty log.
pub open spec fn loaded_views<T: View>(loaded: Option<Vec<T>>) -> Seq<T::V> {
    match loaded {
        Some(events) => view::views(events@),
        None => Seq::empty(),
    }
}

/// The combined log of a board: the vote types that the board offers, which
/// are configured, before the events of the board itself.
pub open spec fn combined_log(
    vote_type_events: Seq<VoteTypeEventView>,
    board_events: Seq<BoardModifiedEventView>,
) -> Seq<CombinedEventView> {
    vote_types_combined(vote_type_events) + crate::command::combined(board_events)
}

/// The store of the combined logs, made of the store of the boards' own
/// events and the store of their vote types.
pub struct CombinedEventStore<B, V, S> {
    board_modified_load_store: B,
    vote_type_list_load_store: V,
    board_modified_save_store: S,
}

fn board_events_combined(events: Option<Vec<BoardModifiedEvent>>) -> (combined: Vec<CombinedEvent>)
    ensures
        view::views(combined@) == crate::command::combined(loaded_views(events)),
{
    let mut combined: Vec<CombinedEvent> = Vec::new();
    match events {
        Some(events) => {
            let mut i: usize = 0;
            while i < events.len()
                invariant
                    i <= events@.len(),
                    combined@.len() == i,
                    forall|j: int|
                        0 <= j < i ==> combined@[j]@ == CombinedEventView::BoardModifiedEvent(
                            events@[j]@,
                        ),
                decreases events@.len() - i,
            {
                combined.push(CombinedEvent::from(events[i].clone()));
                i += 1;
            }
        },
        None => {
        },
    }
    combined
}

fn vote_type_events_combined(events: Option<Vec<VoteTypeEvent>>) -> (combined: Vec<CombinedEvent>)
    ensures
        view::views(combined@) == vote_types_combined(loaded_views(events)),
{
    let mut combined: Vec<CombinedEvent> = Vec::new();
    match events {
        Some(events) => {
            let mut i: usize = 0;
            while i < events.len()
                invariant
                    i <= events@.len(),
                    combined@.len() == i,
                    forall|j: int|
                        0 <= j < i ==> combined@[j]@ == CombinedEventView::VoteTypeEvent(
                            events@[j]@,
                        ),
                decreases events@.len() - i,
            {
                combined.push(CombinedEvent::from(events[i].clone()));
                i += 1;
            }
        },
        None => {
        },
    }
    combined
}

/// The events of the board itself among `log`, in their order.
pub fn board_events(log: &Vec<CombinedEvent>) -> (events: Vec<BoardModifiedEvent>)
    ensures
        view::views(events@) == board_events_of(view::views(log@)),
{
    let mut events: Vec<BoardModifiedEvent> = Vec::new();
    let mut i: usize = 0;
    while i < log.len()
        invariant
            i <= log@.len(),
            view::views(events@) == board_events_of(view::views(log@).take(i as int)),
        decreases log@.len() - i,
    {
        proof {
            let all = view::views(log@);
            assert(all.take(i + 1).drop_last() =~= all.take(i as int));
        }
        match &log[i] {
            CombinedEvent::BoardModifiedEvent(event) => {
                let copy = event.clone();
                events.push(copy);
            },
            CombinedEvent::VoteTypeEvent(_) => {},
        }
        i += 1;
    }
    assert(view::views(log@).take(i as int) =~= view::views(log@));
    events
}

impl<B, V, S> CombinedEventStore<B, V, S> {
    /// The store of the boards' own events that is loaded from.
    pub closed spec fn board_modified_load_store(&self) -> B {
        self.board_modified_load_store
    }

    /// The store of the vote types.
    pub closed spec fn vote_type_list_load_store(&self) -> V {
        self.vote_type_list_load_store
    }

    /// The store of the boards' own events that is saved to.
    pub closed spec fn board_modified_save_store(&self) -> S {
        self.board_modified_save_store
    }

    pub fn new(
        board_modified_load_store: B,
        vote_type_list_load_store: V,
        board_modified_save_store: S,
    ) -> (store: Self)
        ensures
            store.board_modified_load_store() == board_modified_load_store,
            store.vote_type_list_load_store() == vote_type_list_load_store,
            store.board_modified_save_store() == board_modified_save_store,
    {
        Self { board_modified_load_store, vote_type_list_load_store, board_modified_save_store }
    }
}

impl<B, V, S, E> LoadEntity<Vec<BoardModifiedEvent>> for CombinedEventStore<B, V, S> where
    B: LoadEntity<Vec<BoardModifiedEvent>, Key = String, Error = E>,
 {
    type Key = String;

    type Error = E;

    /// The board's own events are loaded from their store.
    open spec fn loads(&self, key: &String, outcome: Result<Option<Vec<BoardModifiedEvent>>, E>) -> bool {
        self.board_modified_load_store().loads(key, outcome)
    }

    fn load(&self, key: &String) -> (outcome: Result<Option<Vec<BoardModifiedEvent>>, E>) {
        self.board_modified_load_store.load(key)
    }
}

impl<B, V, S, E> LoadEntity<Vec<CombinedEvent>> for CombinedEventStore<B, V, S> where
    B: LoadEntity<Vec<BoardModifiedEvent>, Key = String, Error = E>,
    V: LoadEntity<Vec<VoteTypeEvent>, Key = String, Error = E>,
 {
    type Key = String;

    type Error = E;

    /// The board's own events are loaded, then its vote types; the first
    /// failure is the outcome. Otherwise the outcome is the combined log: the
    /// vote types before the board's own events.
    open spec fn loads(&self, key: &String, outcome: Result<Option<Vec<CombinedEvent>>, E>) -> bool {
        exists|board: Result<Option<Vec<BoardModifiedEvent>>, E>| #[trigger]
            self.board_modified_load_store().loads(key, board) && match board {
                Err(error) => outcome == Err::<Option<Vec<CombinedEvent>>, E>(error),
                Ok(board_events) => self.loads_vote_types(key, board_events, outcome),
            }
    }

    fn load(&self, key: &String) -> (outcome: Result<Option<Vec<CombinedEvent>>, E>) {
        let board = self.board_modified_load_store.load(key);
        let ghost board_outcome = board;
        let board_modified_events = match board {
            Ok(events) => board_events_combined(events),
            Err(error) => {
                let outcome = Err(error);
                assert(self.board_modified_load_store().loads(key, board_outcome) && outcome
                    == Err::<Option<Vec<CombinedEvent>>, E>(error));
                return outcome;
            },
        };
        let vote_types = self.vote_type_list_load_store.load(key);
        let ghost vote_types_outcome = vote_types;
        let outcome = match vote_types {
            Ok(events) => {
                let mut vote_type_events = vote_type_events_combined(events);
                let mut board_modified_events = board_modified_events;
                vote_type_events.append(&mut board_modified_events);
                Ok(Some(vote_type_events))
            },
            Err(error) => Err(error),
        };
        proof {
            let board_events = board_outcome->Ok_0;
            assert(self.vote_type_list_load_store().loads(key, vote_types_outcome)
                && match vote_types_outcome {
                Err(error) => outcome == Err::<Option<Vec<CombinedEvent>>, E>(error),
                Ok(vote_type_events) => outcome matches Ok(Some(log)) && view::views(log@)
                    == combined_log(loaded_views(vote_type_events), loaded_views(board_events)),
            });
            assert(self.board_modified_load_store().loads(key, board_outcome));
        }
        outcome
    }
}

impl<B, V, S, E> CombinedEventStore<B, V, S> where
    V: LoadEntity<Vec<VoteTypeEvent>, Key = String, Error = E>,
 {
    /// Whether `outcome` is what loading the combined log can come to once
    /// the board's own events `board_events` are loaded.
    pub open spec fn loads_vote_types(
        &self,
        key: &String,
        board_events: Option<Vec<BoardModifiedEvent>>,
        outcome: Result<Option<Vec<CombinedEvent>>, E>,
    ) -> bool {
        exists|vote_types: Result<Option<Vec<VoteTypeEvent>>, E>| #[trigger]
            self.vote_type_list_load_store().loads(key, vote_types) && match vote_types {
                Err(error) => outcome == Err::<Option<Vec<CombinedEvent>>, E>(error),
                Ok(vote_type_events) => outcome matches Ok(Some(log)) && view::views(log@)
                    == combined_log(loaded_views(vote_type_events), loaded_views(board_events)),
            }
    }
}

impl<B, V, S, E> SaveEntity<Vec<CombinedEvent>> for CombinedEventStore<B, V, S> where
    S: SaveEntity<Vec<BoardModifiedEvent>, Key = String, Error = E>,
 {
    type Key = String;

    type Error = E;

    /// Of a combined log the board's own events are saved, to their store. The
    /// log comes back if they were saved, and the failure otherwise.
    open spec fn saves(
        &self,
        key: &String,
        entity: Vec<CombinedEvent>,
        saved: Self,
        outcome: Result<Vec<CombinedEvent>, E>,
    ) -> bool {
        &&& saved.board_modified_load_store() == self.board_modified_load_store()
        &&& saved.vote_type_list_load_store() == self.vote_type_list_load_store()
        &&& exists|events: Vec<BoardModifiedEvent>, inner: Result<Vec<BoardModifiedEvent>, E>|
            #![trigger self.board_modified_save_store().saves(key, events, saved.board_modified_save_store(), inner)]
            view::views(events@) == board_events_of(view::views(entity@))
                && self.board_modified_save_store().saves(
                key,
                events,
                saved.board_modified_save_store(),
                inner,
            ) && match inner {
                Ok(_) => outcome == Ok::<Vec<CombinedEvent>, E>(entity),
                Err(error) => outcome == Err::<Vec<CombinedEvent>, E>(error),
            }
    }

    fn save(&mut self, key: &String, entity: Vec<CombinedEvent>) -> (outcome: Result<
        Vec<CombinedEvent>,
        E,
    >) {
        let board_modified_events = board_events(&entity);
        let ghost events = board_modified_events;
        let inner = self.board_modified_save_store.save(key, board_modified_events);
        let ghost saved = inner;
        let outcome = match inner {
            Ok(_) => Ok(entity),
            Err(error) => Err(error),
        };
        assert(view::views(events@) == board_events_of(view::views(entity@))
            && old(self).board_modified_save_store().saves(
            key,
            events,
            self.board_modified_save_store(),
            saved,
        ));
        outcome
    }
}

} // verus!
