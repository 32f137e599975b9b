//! When a failed attempt is made again.
//!
//! A strategy is asked after every failed attempt. It is told what it answered
//! the last time and how often it has been asked, and answers with a delay
//! after which to retry, or with `Abort`.
use vstd::prelude::*;
use std::sync::Arc;
use std::time::Duration;

verus! {

/// What to do after a failed attempt.
#[derive(Debug, PartialEq, Clone, Copy)]
pub enum Instruction {
    Retry(Duration),
    Abort,
}

/// Decides whether a failed attempt is made again.
pub trait RetryStrategy {
    /// What the strategy asks of a question before it answers it. Unless an
    /// implementation says otherwise, nothing.
    open spec fn should_retry_requires(
        &self,
        previous_instruction: Option<Instruction>,
        retry_count: u8,
    ) -> bool {
        true
    }

    /// Whether `instruction` is an answer of the strategy to the question.
    /// Unless an implementation says more, every instruction is.
    open spec fn should_retry_ensures(
        &self,
        previous_instruction: Option<Instruction>,
        retry_count: u8,
        instruction: Instruction,
    ) -> bool {
        true
    }

    fn should_retry(&self, previous_instruction: &Option<Instruction>, retry_count: &u8) -> (instruction:
        Instruction)
        requires
            self.should_retry_requires(*previous_instruction, *retry_count),
        ensures
            self.should_retry_ensures(*previous_instruction, *retry_count, instruction),
    ;
}

impl<T> RetryStrategy for T where T: Fn(&Option<Instruction>, &u8) -> Instruction {
    open spec fn should_retry_requires(
        &self,
        previous_instruction: Option<Instruction>,
        retry_count: u8,
    ) -> bool {
        call_requires(*self, (&previous_instruction, &retry_count))
    }

    open spec fn should_retry_ensures(
        &self,
        previous_instruction: Option<Instruction>,
        retry_count: u8,
        instruction: Instruction,
    ) -> bool {
        call_ensures(*self, (&previous_instruction, &retry_count), instruction)
    }

    fn should_retry(&self, previous_instruction: &Option<Instruction>, retry_count: &u8) -> (instruction:
        Instruction) {
        self(previous_instruction, retry_count)
    }
}

impl<T> RetryStrategy for Arc<T> where T: RetryStrategy + ?Sized {
    open spec fn should_retry_requires(
        &self,
        previous_instruction: Option<Instruction>,
        retry_count: u8,
    ) -> bool {
        (**self).should_retry_requires(previous_instruction, retry_count)
    }

    open spec fn should_retry_ensures(
        &self,
        previous_instruction: Option<Instruction>,
        retry_count: u8,
        instruction: Instruction,
    ) -> bool {
        (**self).should_retry_ensures(previous_instruction, retry_count, instruction)
    }

    fn should_retry(&self, previous_instruction: &Option<Instruction>, retry_count: &u8) -> (instruction:
        Instruction) {
        (**self).should_retry(previous_instruction, retry_count)
    }
}

/// Hands out a fresh policy for every execution, all over one strategy.
pub struct RetryPolicyService<S> {
    strategy: Arc<S>,
}

impl<S: RetryStrategy> RetryPolicyService<S> {
    /// The strategy that every policy of this service asks.
    pub closed spec fn strategy(&self) -> S {
        *self.strategy
    }

    pub fn new(strategy: S) -> (service: Self)
        ensures
            service.strategy() == strategy,
    {
        Self { strategy: Arc::new(strategy) }
    }

    /// A policy that has not been asked yet.
    pub fn generate_policy(&self) -> (policy: RetryPolicy<Arc<S>>)
        ensures
            *policy.strategy() == self.strategy(),
            policy.retry_count() == 0,
            policy.instruction() == None::<Instruction>,
    {
        RetryPolicy::new(self.strategy.clone())
    }
}

/// The retries of one execution: the strategy, how often it has been asked,
/// and what it answered last.
pub struct RetryPolicy<S> {
    strategy: S,
    retry_count: u8,
    instruction: Option<Instruction>,
}

impl<S: RetryStrategy> RetryPolicy<S> {
    /// The strategy that is asked.
    pub closed spec fn strategy(&self) -> S {
        self.strategy
    }

    /// How often the strategy has been asked.
    pub closed spec fn retry_count(&self) -> u8 {
        self.retry_count
    }

    /// What the strategy answered last.
    pub closed spec fn instruction(&self) -> Option<Instruction> {
        self.instruction
    }

    /// Whether the policy can be asked once more: the count has not reached
    /// the limit of its type, and the strategy takes the question.
    pub open spec fn can_retry(&self) -> bool {
        self.retry_count() < u8::MAX && self.strategy().should_retry_requires(
            self.instruction(),
            self.retry_count(),
        )
    }

    pub fn new(strategy: S) -> (policy: Self)
        ensures
            policy.strategy() == strategy,
            policy.retry_count() == 0,
            policy.instruction() == None::<Instruction>,
    {
        Self { strategy, retry_count: 0, instruction: None }
    }

    /// How often the strategy has been asked.
    pub fn attempts(&self) -> (count: u8)
        ensures
            count == self.retry_count(),
    {
        self.retry_count
    }

    /// Asks the strategy, telling it its last answer and how often it has been
    /// asked, and remembers the answer.
    pub fn retry(&mut self) -> (instruction: Instruction)
        requires
            old(self).can_retry(),
        ensures
            old(self).strategy().should_retry_ensures(
                old(self).instruction(),
                old(self).retry_count(),
                instruction,
            ),
            final(self).strategy() == old(self).strategy(),
            final(self).retry_count() == old(self).retry_count() + 1,
            final(self).instruction() == Some(instruction),
    {
        let instruction = self.strategy.should_retry(&self.instruction, &self.retry_count);
        self.retry_count += 1;
        self.instruction = Some(instruction);
        instruction
    }
}

} // verus!
