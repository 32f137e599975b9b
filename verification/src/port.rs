//! What a store of event logs that checks its writes offers.
//!
//! A write is an attempt: a function from the log as it is stored to the log
//! as it is to be stored. The store runs the attempt on what it holds, and
//! takes the outcome only if it extends what it holds.
use vstd::prelude::*;
use vstd::std_specs::cmp::PartialEqSpecImpl;
use crate::command::event::{BoardModifiedEvent, BoardModifiedEventView};
use crate::util::view;
use crate::websockets::server::clone_events;

verus! {

/// Why a log could not be modified.
#[derive(Debug)]
pub enum ModifyError {
    /// The store could not be reached.
    ConnectionError(String),
    /// The store was reached and could not do the write.
    UnableToCompleteError(String),
    /// The attempt changed events that were stored already.
    EventLogChangedError { original: Vec<BoardModifiedEvent>, actual: Vec<BoardModifiedEvent> },
}

/// An error as mathematics.
pub enum ModifyErrorView {
    ConnectionError(Seq<char>),
    UnableToCompleteError(Seq<char>),
    EventLogChangedError {
        original: Seq<BoardModifiedEventView>,
        actual: Seq<BoardModifiedEventView>,
    },
}

impl View for ModifyError {
    type V = ModifyErrorView;

    open spec fn view(&self) -> ModifyErrorView {
        match self {
            ModifyError::ConnectionError(message) => ModifyErrorView::ConnectionError(message@),
            ModifyError::UnableToCompleteError(message) => ModifyErrorView::UnableToCompleteError(
                message@,
            ),
            ModifyError::EventLogChangedError { original, actual } =>
                ModifyErrorView::EventLogChangedError {
                    original: view::views(original@),
                    actual: view::views(actual@),
                },
        }
    }
}

impl Clone for ModifyError {
    fn clone(&self) -> (copy: Self)
        ensures
            copy@ == self@,
    {
        match self {
            ModifyError::ConnectionError(message) => ModifyError::ConnectionError(message.clone()),
            ModifyError::UnableToCompleteError(message) => ModifyError::UnableToCompleteError(
                message.clone(),
            ),
            ModifyError::EventLogChangedError { original, actual } =>
                ModifyError::EventLogChangedError {
                    original: clone_events(original),
                    actual: clone_events(actual),
                },
        }
    }
}

/// A store out of reach may be back in a moment, and a log that has changed
/// can be loaded again; a write that the store cannot do is not tried again.
impl crate::util::transaction::Failure for ModifyError {
    open spec fn kind_of(&self) -> crate::util::transaction::ErrorKind {
        match self {
            ModifyError::ConnectionError(_) => crate::util::transaction::ErrorKind::Transient,
            ModifyError::UnableToCompleteError(_) => crate::util::transaction::ErrorKind::Fatal,
            ModifyError::EventLogChangedError { .. } => crate::util::transaction::ErrorKind::Conflict,
        }
    }

    fn kind(&self) -> (kind: crate::util::transaction::ErrorKind) {
        match self {
            ModifyError::ConnectionError(_) => crate::util::transaction::ErrorKind::Transient,
            ModifyError::UnableToCompleteError(_) => crate::util::transaction::ErrorKind::Fatal,
            ModifyError::EventLogChangedError { .. } => crate::util::transaction::ErrorKind::Conflict,
        }
    }
}

/// Whether two logs hold the same events.
pub fn same_events(left: &Vec<BoardModifiedEvent>, right: &Vec<BoardModifiedEvent>) -> (same: bool)
    ensures
        same == (view::views(left@) == view::views(right@)),
{
    if left.len() != right.len() {
        assert(view::views(left@).len() != view::views(right@).len());
        return false;
    }
    let mut i: usize = 0;
    while i < left.len()
        invariant
            i <= left@.len(),
            left@.len() == right@.len(),
            forall|j: int| 0 <= j < i ==> left@[j]@ == right@[j]@,
        decreases left@.len() - i,
    {
        if !(left[i] == right[i]) {
            assert(view::views(left@)[i as int] != view::views(right@)[i as int]);
            return false;
        }
        i += 1;
    }
    assert(view::views(left@) =~= view::views(right@));
    true
}

impl PartialEq for ModifyError {
    fn eq(&self, other: &Self) -> (equal: bool) {
        match (self, other) {
            (ModifyError::ConnectionError(a), ModifyError::ConnectionError(b)) => *a == *b,
            (ModifyError::UnableToCompleteError(a), ModifyError::UnableToCompleteError(b)) => *a
                == *b,
            (
                ModifyError::EventLogChangedError { original: original_a, actual: actual_a },
                ModifyError::EventLogChangedError { original: original_b, actual: actual_b },
            ) => same_events(original_a, original_b) && same_events(actual_a, actual_b),
            _ => false,
        }
    }
}

impl PartialEqSpecImpl for ModifyError {
    open spec fn obeys_eq_spec() -> bool {
        true
    }

    open spec fn eq_spec(&self, other: &Self) -> bool {
        self@ == other@
    }
}

/// Turns a log as it is stored into the log as it is to be stored.
pub trait EventStreamModifier<E> {
    /// What the modifier asks of a log. Unless an implementation says
    /// otherwise, nothing.
    open spec fn modify_requires(&self, events: Vec<E>) -> bool {
        true
    }

    /// Whether `modified` is what the modifier turns `events` into. Unless an
    /// implementation says more, anything is.
    open spec fn modify_ensures(&self, events: Vec<E>, modified: Vec<E>) -> bool {
        true
    }

    fn modify(&self, events: Vec<E>) -> (modified: Vec<E>)
        requires
            self.modify_requires(events),
        ensures
            self.modify_ensures(events, modified),
    ;
}

impl<F, E> EventStreamModifier<E> for F where F: Fn(Vec<E>) -> Vec<E> {
    open spec fn modify_requires(&self, events: Vec<E>) -> bool {
        call_requires(*self, (events,))
    }

    open spec fn modify_ensures(&self, events: Vec<E>, modified: Vec<E>) -> bool {
        call_ensures(*self, (events,), modified)
    }

    fn modify(&self, events: Vec<E>) -> (modified: Vec<E>) {
        self(events)
    }
}

/// One attempt to modify an entity.
pub struct Attempt<F> {
    attempt_fn: F,
}

impl<F> Attempt<F> {
    /// The function that makes the attempt.
    pub closed spec fn attempt_fn(&self) -> F {
        self.attempt_fn
    }

    pub fn new(attempt_fn: F) -> (attempt: Self)
        ensures
            attempt.attempt_fn() == attempt_fn,
    {
        Self { attempt_fn }
    }

    /// Makes the attempt on `entity`.
    pub fn attempt<T>(&self, entity: T) -> (modified: T) where F: Fn(T) -> T
        requires
            call_requires(self.attempt_fn(), (entity,)),
        ensures
            call_ensures(self.attempt_fn(), (entity,), modified),
    {
        (self.attempt_fn)(entity)
    }
}

impl<F, E> EventStreamModifier<E> for Attempt<F> where F: Fn(Vec<E>) -> Vec<E> {
    open spec fn modify_requires(&self, events: Vec<E>) -> bool {
        call_requires(self.attempt_fn(), (events,))
    }

    open spec fn modify_ensures(&self, events: Vec<E>, modified: Vec<E>) -> bool {
        call_ensures(self.attempt_fn(), (events,), modified)
    }

    fn modify(&self, events: Vec<E>) -> (modified: Vec<E>) {
        self.attempt(events)
    }
}

/// A store in which logs of events of type `E` can be modified by attempts
/// of type `M`.
pub trait ModifyEntityPort<E, M: EventStreamModifier<E>> {
    /// Whether `outcome` is what modifying the log of `entity` by `attempt`
    /// can come to. Unless an implementation says more, anything can happen.
    open spec fn modifies(&self, entity: String, attempt: &M, outcome: Result<(), ModifyError>) -> bool {
        true
    }

    fn modify_entity(&mut self, entity: String, attempt: &M) -> (outcome: Result<(), ModifyError>)
        requires
            forall|stored: Vec<E>| attempt.modify_requires(stored),
        ensures
            old(self).modifies(entity, attempt, outcome),
    ;
}

/// A store from which entities of type `T` can be read.
pub trait GetEntityPort<T> {
    /// Whether `outcome` is what reading `entity` can come to. Unless an
    /// implementation says more, anything can happen.
    open spec fn gets(&self, entity: String, outcome: Result<T, ModifyError>) -> bool {
        true
    }

    fn get_entity(&self, entity: String) -> (outcome: Result<T, ModifyError>)
        ensures
            self.gets(entity, outcome),
    ;
}

} // verus!
