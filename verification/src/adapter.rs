//! An in-memory store of event logs that checks its writes.
//!
//! A log is never shortened and an event that is stored is never changed: a
//! write that would do either is refused, and the store stays as it is.
use vstd::prelude::*;
use crate::command::adapter::Store;
use crate::command::event::{BoardModifiedEvent, BoardModifiedEventView};
use crate::port::{
    EventStreamModifier, GetEntityPort, ModifyEntityPort, ModifyError, ModifyErrorView,
};
use crate::util::keyed;
use crate::util::view;
use crate::websockets::server::clone_events;

verus! {

/// How often the store is tried when nothing else is configured.
pub const DEFAULT_TRY_TIMES: u8 = 3;

/// What the store is made with.
pub struct AdapterConfig {
    store: Store<BoardModifiedEvent>,
    try_times: u8,
}

impl AdapterConfig {
    /// The logs that the store starts with.
    pub closed spec fn store(&self) -> Seq<(Seq<char>, Seq<BoardModifiedEventView>)> {
        logs(self.store@)
    }

    /// How often the store is tried before it counts as out of reach.
    pub closed spec fn try_times(&self) -> u8 {
        self.try_times
    }

    pub fn with_store(self, store: Store<BoardModifiedEvent>) -> (config: Self)
        ensures
            config.store() == logs(store@),
            config.try_times() == self.try_times(),
    {
        let mut config = self;
        config.store = store;
        config
    }

    pub fn with_try_times(self, try_times: u8) -> (config: Self)
        ensures
            config.store() == self.store(),
            config.try_times() == try_times,
    {
        let mut config = self;
        config.try_times = try_times;
        config
    }
}

impl Default for AdapterConfig {
    fn default() -> (config: Self)
        ensures
            config.store() == Seq::<(Seq<char>, Seq<BoardModifiedEventView>)>::empty(),
            config.try_times() == DEFAULT_TRY_TIMES,
    {
        let config = Self { store: Store::new(), try_times: DEFAULT_TRY_TIMES };
        config
    }
}

/// The stored logs with every event as mathematics.
pub open spec fn logs(store: Seq<(Seq<char>, Seq<BoardModifiedEvent>)>) -> Seq<
    (Seq<char>, Seq<BoardModifiedEventView>),
> {
    keyed::entry_logs(store)
}

/// The log under `key`; a log that is not stored is empty.
pub open spec fn log_of(
    store: Seq<(Seq<char>, Seq<BoardModifiedEventView>)>,
    key: Seq<char>,
) -> Seq<BoardModifiedEventView> {
    match keyed::lookup(store, key) {
        Some(log) => log,
        None => Seq::empty(),
    }
}

/// Whether `actual` extends `original`: it holds the events of `original` at
/// their positions, and maybe more behind them.
pub open spec fn extends(
    original: Seq<BoardModifiedEventView>,
    actual: Seq<BoardModifiedEventView>,
) -> bool {
    original.is_prefix_of(actual)
}

/// The text of the error of a store that is out of reach.
pub open spec fn unable_to_lock() -> Seq<char> {
    "Unable to lock store"@
}

/// The store.
pub struct InMemoryModifyEntityAdapter {
    store: Store<BoardModifiedEvent>,
    try_times: u8,
}

impl InMemoryModifyEntityAdapter {
    /// The stored logs.
    pub closed spec fn store(&self) -> Seq<(Seq<char>, Seq<BoardModifiedEventView>)> {
        logs(self.store@)
    }

    /// How often the store is tried before it counts as out of reach.
    pub closed spec fn try_times(&self) -> u8 {
        self.try_times
    }

    pub fn new(config: AdapterConfig) -> (adapter: Self)
        ensures
            adapter.store() == config.store(),
            adapter.try_times() == config.try_times(),
    {
        Self { store: config.store, try_times: config.try_times }
    }

    /// A copy of the log under `key`; a log that is not stored is empty.
    pub fn events(&self, key: &String) -> (events: Vec<BoardModifiedEvent>)
        ensures
            view::views(events@) == log_of(self.store(), key@),
    {
        self.stored(key)
    }

    fn stored(&self, key: &String) -> (events: Vec<BoardModifiedEvent>)
        ensures
            view::views(events@) == log_of(self.store(), key@),
            keyed::distinct_keys(self.store@),
    {
        let found = self.store.get(key.as_str());
        proof {
            keyed::lemma_entry_logs(self.store@, key@);
        }
        match found {
            Some(events) => clone_events(events),
            None => {
                let events: Vec<BoardModifiedEvent> = Vec::new();
                events
            },
        }
    }

    /// What is done when the store was not reached at the try number
    /// `count`: it is tried again, as try number `count + 1`, unless it has
    /// been tried as often as it is to be tried; then the store counts as out
    /// of reach.
    pub fn retry_lock(&self, count: u8) -> (next: Result<u8, ModifyError>)
        ensures
            match next {
                Ok(next) => count < self.try_times() && next == count + 1,
                Err(error) => count >= self.try_times() && error@
                    == ModifyErrorView::ConnectionError(unable_to_lock()),
            },
    {
        if count < self.try_times {
            Ok(count + 1)
        } else {
            Err(ModifyError::ConnectionError("Unable to lock store".to_string()))
        }
    }

    /// Runs `event` on the log under `key` and stores the outcome, if the
    /// outcome extends the log. An outcome that changes or drops an event of
    /// the log is refused: the store stays as it is, and the error holds the
    /// log and the outcome.
    pub fn modify<M: EventStreamModifier<BoardModifiedEvent>>(&mut self, key: &String, event: &M) -> (outcome: Result<
        Vec<BoardModifiedEvent>,
        ModifyError,
    >)
        requires
            forall|events: Vec<BoardModifiedEvent>| event.modify_requires(events),
        ensures
            final(self).try_times() == old(self).try_times(),
            exists|events: Vec<BoardModifiedEvent>, modified: Vec<BoardModifiedEvent>|
                #![trigger event.modify_ensures(events, modified)]
                view::views(events@) == log_of(old(self).store(), key@) && event.modify_ensures(
                    events,
                    modified,
                ) && if extends(view::views(events@), view::views(modified@)) {
                    outcome matches Ok(stored) && view::views(stored@) == view::views(modified@)
                        && final(self).store() == keyed::upsert(
                        old(self).store(),
                        key@,
                        view::views(modified@),
                    )
                } else {
                    outcome matches Err(error) && error@ == (
                    ModifyErrorView::EventLogChangedError {
                        original: view::views(events@),
                        actual: view::views(modified@),
                    }) && final(self).store() == old(self).store()
                },
    {
        let events = self.stored(key);
        let original = clone_events(&events);
        let ghost loaded = events;
        let updated_events = event.modify(events);
        let mut i: usize = 0;
        while i < original.len()
            invariant
                *self == *old(self),
                keyed::distinct_keys(self.store@),
                view::views(loaded@) == log_of(old(self).store(), key@),
                view::views(original@) == view::views(loaded@),
                event.modify_ensures(loaded, updated_events),
                i <= original@.len(),
                i <= updated_events@.len(),
                forall|j: int| 0 <= j < i ==> updated_events@[j]@ == original@[j]@,
            decreases original@.len() - i,
        {
            if i >= updated_events.len() || !(updated_events[i] == original[i]) {
                proof {
                    let before = view::views(original@);
                    let after = view::views(updated_events@);
                    if before.is_prefix_of(after) {
                        assert(after.subrange(0, before.len() as int)[i as int] == before[i as int]);
                    }
                }
                let error = ModifyError::EventLogChangedError {
                    original,
                    actual: clone_events(&updated_events),
                };
                return Err(error);
            }
            i += 1;
        }
        let stored = clone_events(&updated_events);
        self.store.insert(key, stored);
        proof {
            keyed::lemma_logs_upsert(old(self).store@, key@, stored@);
        }
        Ok(updated_events)
    }
}

impl Default for InMemoryModifyEntityAdapter {
    fn default() -> (adapter: Self)
        ensures
            adapter.store() == Seq::<(Seq<char>, Seq<BoardModifiedEventView>)>::empty(),
            adapter.try_times() == DEFAULT_TRY_TIMES,
    {
        Self::new(AdapterConfig::default())
    }
}

impl<M: EventStreamModifier<BoardModifiedEvent>> ModifyEntityPort<
    BoardModifiedEvent,
    M,
> for InMemoryModifyEntityAdapter {
    /// The attempt is run on the log of `entity`. The outcome is a success
    /// if what the attempt makes of the log extends the log, and the error
    /// that holds both otherwise.
    open spec fn modifies(&self, entity: String, attempt: &M, outcome: Result<(), ModifyError>) -> bool {
        exists|events: Vec<BoardModifiedEvent>, modified: Vec<BoardModifiedEvent>|
            #![trigger attempt.modify_ensures(events, modified)]
            view::views(events@) == log_of(self.store(), entity@) && attempt.modify_ensures(
                events,
                modified,
            ) && if extends(view::views(events@), view::views(modified@)) {
                outcome is Ok
            } else {
                outcome matches Err(error) && error@ == (ModifyErrorView::EventLogChangedError {
                    original: view::views(events@),
                    actual: view::views(modified@),
                })
            }
    }

    fn modify_entity(&mut self, entity: String, attempt: &M) -> (outcome: Result<(), ModifyError>) {
        let modified = self.modify(&entity, attempt);
        let outcome = match modified {
            Ok(_) => Ok(()),
            Err(error) => Err(error),
        };
        proof {
            let (events, made) = choose|
                events: Vec<BoardModifiedEvent>,
                made: Vec<BoardModifiedEvent>,
            |
                #![trigger attempt.modify_ensures(events, made)]
                view::views(events@) == log_of(old(self).store(), entity@)
                    && attempt.modify_ensures(events, made) && if extends(
                    view::views(events@),
                    view::views(made@),
                ) {
                    modified matches Ok(stored) && view::views(stored@) == view::views(made@)
                        && self.store() == keyed::upsert(
                        old(self).store(),
                        entity@,
                        view::views(made@),
                    )
                } else {
                    modified matches Err(error) && error@ == (
                    ModifyErrorView::EventLogChangedError {
                        original: view::views(events@),
                        actual: view::views(made@),
                    }) && self.store() == old(self).store()
                };
        }
        outcome
    }
}

impl GetEntityPort<Vec<BoardModifiedEvent>> for InMemoryModifyEntityAdapter {
    /// Reading succeeds, with a copy of the log; a log that is not stored is
    /// empty.
    open spec fn gets(&self, entity: String, outcome: Result<Vec<BoardModifiedEvent>, ModifyError>) -> bool {
        outcome matches Ok(events) && view::views(events@) == log_of(self.store(), entity@)
    }

    fn get_entity(&self, entity: String) -> (outcome: Result<Vec<BoardModifiedEvent>, ModifyError>) {
        Ok(self.events(&entity))
    }
}

} // verus!
