//! Commands run against event logs.
//!
//! The stored value is the log itself. It is rendered as the aggregate that it
//! folds to, the command is applied to the aggregate, and the events that the
//! command answers with are added at the end of the log.
use vstd::prelude::*;
use crate::util::command::Command;
use crate::util::entity::EventSourced;
use crate::util::transaction::retry::RetryStrategy;
use crate::util::transaction::{Loading, NormaliseTo, Operation, Transaction, UpdateWith};

verus! {

impl<T, U> NormaliseTo<U> for Vec<T> where U: EventSourced<Event = T> {
    /// A log is rendered as what it folds to.
    open spec fn normalises_to(&self, normalised: U) -> bool {
        U::sourced(self@, normalised)
    }

    fn render_normalised(&self) -> (normalised: U) {
        U::source(self.as_slice())
    }
}

/// Whether `stored` is a copy of `event` as an event of the log.
pub open spec fn stores<T, U: Clone + Into<T>>(event: U, stored: T) -> bool {
    exists|copy: U| #[trigger] cloned(event, copy) && call_ensures(U::into, (copy,), stored)
}

impl<T, U> UpdateWith<Vec<U>> for Vec<T> where T: Clone, U: Clone + Into<T> {
    type UpdateResponse = Vec<U>;

    /// The log keeps what it holds and takes the new events at its end, in
    /// their order; the new events are the answer.
    open spec fn updates_to(&self, update_value: Vec<U>, updated: Self, response: Vec<U>) -> bool {
        &&& response == update_value
        &&& updated@.len() == self@.len() + update_value@.len()
        &&& forall|i: int| 0 <= i < self@.len() ==> updated@[i] == self@[i]
        &&& forall|i: int|
            0 <= i < update_value@.len() ==> stores::<T, U>(
                update_value@[i],
                #[trigger] updated@[self@.len() + i],
            )
    }

    fn update_with(&mut self, update_value: Vec<U>) -> (response: Vec<U>) {
        let mut i: usize = 0;
        while i < update_value.len()
            invariant
                i <= update_value@.len(),
                self@.len() == old(self)@.len() + i,
                forall|j: int| 0 <= j < old(self)@.len() ==> self@[j] == old(self)@[j],
                forall|j: int|
                    0 <= j < i ==> stores::<T, U>(
                        update_value@[j],
                        #[trigger] self@[old(self)@.len() + j],
                    ),
            decreases update_value@.len() - i,
        {
            let copy = update_value[i].clone();
            let ghost held = copy;
            let stored: T = copy.into();
            assert(cloned(update_value@[i as int], held) && call_ensures(U::into, (held,), stored));
            self.push(stored);
            i += 1;
        }
        update_value
    }
}

/// A command as the operation of a transaction.
pub struct Apply<'a, Cmd> {
    pub command: &'a Cmd,
}

impl<'a, Cmd: Command> Operation<Cmd::Entity, Vec<Cmd::Event>> for Apply<'a, Cmd> {
    open spec fn operate_requires(&self, input: &Cmd::Entity) -> bool {
        true
    }

    open spec fn operate_ensures(&self, input: &Cmd::Entity, update: Vec<Cmd::Event>) -> bool {
        self.command.emits(input, update@)
    }

    fn operate_on(&self, input: &Cmd::Entity) -> (update: Vec<Cmd::Event>) {
        self.command.apply(input)
    }
}

/// Runs commands against logs of events of type `T`.
pub struct UseCase<S> {
    transaction: Transaction<S>,
}

impl<S: RetryStrategy> UseCase<S> {
    /// The strategy that is asked after every failure.
    pub closed spec fn strategy(&self) -> S {
        self.transaction.strategy()
    }

    pub fn new(transaction: Transaction<S>) -> (use_case: Self)
        ensures
            use_case.strategy() == transaction.strategy(),
    {
        Self { transaction }
    }

    /// Starts the execution of a command: its first step is to load the log.
    pub fn execute(&self) -> (loading: Loading<S>)
        ensures
            *loading.policy().strategy() == self.strategy(),
            loading.policy().retry_count() == 0,
            loading.policy().instruction() == None::<crate::util::transaction::retry::Instruction>,
    {
        self.transaction.execute()
    }
}

} // verus!
