//! Running a command against a stored log.
//!
//! An execution loads the stored value, renders it, lets the operation
//! compute an update, takes the update into the value and saves it. When
//! loading or saving fails, the retry policy decides whether the execution
//! starts over after a delay or ends with the error; after a fatal error it
//! ends at once.
//!
//! Loading, saving and waiting are the driver's work. The types of this
//! module lead the driver through an execution: each stage hands out what is
//! to be done next and takes the outcome, and no stage can be skipped or
//! repeated.
use vstd::prelude::*;
use std::sync::Arc;
use std::time::Duration;
use crate::util::store::{LoadEntity, SaveEntity};
use crate::util::transaction::retry::{Instruction, RetryPolicy, RetryPolicyService, RetryStrategy};

pub mod normalise_to;
pub mod operation;
pub mod process;
pub mod retry;
pub mod update_with;

pub use normalise_to::NormaliseTo;
pub use operation::Operation;
pub use update_with::UpdateWith;

verus! {

/// Whether `strategy` answers every question.
pub open spec fn always_answers<S: RetryStrategy>(strategy: S) -> bool {
    forall|previous_instruction: Option<Instruction>, retry_count: u8| #[trigger]
        strategy.should_retry_requires(previous_instruction, retry_count)
}

/// Runs executions, each with a retry policy of its own.
pub struct Transaction<S> {
    retry_policy_service: RetryPolicyService<S>,
}

/// An execution that is about to load the stored value.
pub struct Loading<S> {
    policy: RetryPolicy<Arc<S>>,
}

/// An execution that is about to save the value it has computed.
pub struct Saving<S, R> {
    policy: RetryPolicy<Arc<S>>,
    response: R,
}

/// An execution that waits before it starts over.
pub struct Waiting<S> {
    policy: RetryPolicy<Arc<S>>,
}

/// How an execution goes on after a failure.
pub enum Failed<S, E> {
    /// Wait for `delay`, then start over.
    Retry { delay: Duration, waiting: Waiting<S> },
    /// End with the error of the failed step.
    Abort(E),
}

/// How an execution goes on after loading.
pub enum Loaded<S, V, R, E> {
    /// Save `value`.
    Save { value: V, saving: Saving<S, R> },
    /// Loading failed.
    Failed(Failed<S, E>),
}

/// How an execution goes on after saving.
pub enum Saved<S, R, E> {
    /// The execution is done, with this answer.
    Done(R),
    /// Saving failed.
    Failed(Failed<S, E>),
}

/// How an error bears on what is done after it.
#[derive(Debug, Clone, Copy, PartialEq, Eq, Structural)]
pub enum ErrorKind {
    /// The step failed for now, as when a store is busy or out of reach. It
    /// may be tried again.
    Transient,
    /// What the step built on has changed in the meantime. It may be tried
    /// again, from loading on.
    Conflict,
    /// Trying again makes no sense.
    Fatal,
}

/// An error of which the kind can be told.
pub trait Failure {
    /// The kind of the error.
    spec fn kind_of(&self) -> ErrorKind;

    fn kind(&self) -> (kind: ErrorKind)
        ensures
            kind == self.kind_of(),
    ;
}

/// An error that is no more than a message is taken to be transient.
impl Failure for String {
    open spec fn kind_of(&self) -> ErrorKind {
        ErrorKind::Transient
    }

    fn kind(&self) -> (kind: ErrorKind) {
        ErrorKind::Transient
    }
}

/// Whether `after` is how an execution with the retry policy `policy` goes on
/// after a step has failed with `error`.
///
/// After a fatal error the execution ends with the error at once. After any
/// other the policy is asked; it is told what it answered the last time and
/// how often it has been asked. On `Retry` the execution waits and starts
/// over with the policy as it is then; on `Abort` it ends with `error`. A
/// policy that has been asked as often as its count can tell is not asked
/// again: the execution ends with `error`.
pub open spec fn fails_to<S: RetryStrategy, E: Failure>(
    policy: RetryPolicy<Arc<S>>,
    error: E,
    after: Failed<S, E>,
) -> bool {
    if error.kind_of() is Fatal || policy.retry_count() == u8::MAX {
        after == Failed::<S, E>::Abort(error)
    } else {
        exists|instruction: Instruction| #[trigger]
            policy.strategy().should_retry_ensures(
                policy.instruction(),
                policy.retry_count(),
                instruction,
            ) && match instruction {
                Instruction::Retry(delay) => after matches Failed::Retry {
                    delay: waited,
                    waiting,
                } && waited == delay && waiting.policy().strategy() == policy.strategy()
                    && waiting.policy().retry_count() == policy.retry_count() + 1
                    && waiting.policy().instruction() == Some(instruction),
                Instruction::Abort => after == Failed::<S, E>::Abort(error),
            }
    }
}

fn fail<S: RetryStrategy, E: Failure>(policy: RetryPolicy<Arc<S>>, error: E) -> (after: Failed<S, E>)
    requires
        always_answers(*policy.strategy()),
    ensures
        fails_to(policy, error, after),
{
    let mut policy = policy;
    match error.kind() {
        ErrorKind::Fatal => {
            return Failed::Abort(error);
        },
        _ => {},
    }
    if policy.attempts() == u8::MAX {
        return Failed::Abort(error);
    }
    let instruction = policy.retry();
    match instruction {
        Instruction::Retry(delay) => Failed::Retry { delay, waiting: Waiting { policy } },
        Instruction::Abort => Failed::Abort(error),
    }
}

impl<S: RetryStrategy> Transaction<S> {
    /// The strategy that is asked after every failure.
    pub closed spec fn strategy(&self) -> S {
        self.retry_policy_service.strategy()
    }

    pub fn new(retry_strategy: S) -> (transaction: Self)
        ensures
            transaction.strategy() == retry_strategy,
    {
        Self { retry_policy_service: RetryPolicyService::new(retry_strategy) }
    }

    /// Starts an execution: its retry policy has not been asked yet, and its
    /// first step is to load.
    pub fn execute(&self) -> (loading: Loading<S>)
        ensures
            *loading.policy().strategy() == self.strategy(),
            loading.policy().retry_count() == 0,
            loading.policy().instruction() == None::<Instruction>,
    {
        Loading { policy: self.retry_policy_service.generate_policy() }
    }
}

impl<S: RetryStrategy> Loading<S> {
    /// The retry policy of the execution.
    pub closed spec fn policy(&self) -> RetryPolicy<Arc<S>> {
        self.policy
    }

    /// Takes the outcome of loading and `operation`.
    ///
    /// A value that was loaded, or the default where nothing is stored, is
    /// rendered and updated with what `operation` computes from it; the
    /// outcome is to be saved. A failure goes to the retry policy.
    pub fn loaded<V, T, U, O, E>(self, outcome: Result<Option<V>, E>, operation: &O) -> (after: Loaded<
        S,
        V,
        V::UpdateResponse,
        E,
    >) where V: NormaliseTo<T> + UpdateWith<U> + Default, O: Operation<T, U>, E: Failure
        requires
            always_answers(*self.policy().strategy()),
            forall|input: V| process::can_process::<V, T, U, O>(input, operation),
        ensures
            match outcome {
                Ok(stored) => after matches Loaded::Save { value, saving } && saving.policy()
                    == self.policy() && exists|input: V| #[trigger]
                    process::processed::<V, T, U, O>(input, operation, value, saving.response())
                        && match stored {
                        Some(stored) => input == stored,
                        None => call_ensures(V::default, (), input),
                    },
                Err(error) => after matches Loaded::Failed(failed) && fails_to(
                    self.policy(),
                    error,
                    failed,
                ),
            },
    {
        match outcome {
            Ok(stored) => {
                let ghost found = stored;
                let input = match stored {
                    Some(stored) => stored,
                    None => V::default(),
                };
                let ghost processed = input;
                let result = process::process(input, operation);
                let after = Loaded::Save {
                    value: result.value,
                    saving: Saving { policy: self.policy, response: result.update_response },
                };
                assert(after matches Loaded::Save { value, saving } && process::processed::<
                    V,
                    T,
                    U,
                    O,
                >(processed, operation, value, saving.response()) && match found {
                    Some(stored) => processed == stored,
                    None => call_ensures(V::default, (), processed),
                });
                after
            },
            Err(error) => Loaded::Failed(fail(self.policy, error)),
        }
    }
}

impl<S: RetryStrategy, R> Saving<S, R> {
    /// The retry policy of the execution.
    pub closed spec fn policy(&self) -> RetryPolicy<Arc<S>> {
        self.policy
    }

    /// The answer that the execution ends with if saving succeeds.
    pub closed spec fn response(&self) -> R {
        self.response
    }

    /// Takes the outcome of saving: the execution is done with its answer if
    /// the value was saved, and a failure goes to the retry policy.
    pub fn saved<V, E: Failure>(self, outcome: Result<V, E>) -> (after: Saved<S, R, E>)
        requires
            always_answers(*self.policy().strategy()),
        ensures
            match outcome {
                Ok(_) => after == Saved::<S, R, E>::Done(self.response()),
                Err(error) => after matches Saved::Failed(failed) && fails_to(
                    self.policy(),
                    error,
                    failed,
                ),
            },
    {
        match outcome {
            Ok(_) => Saved::Done(self.response),
            Err(error) => Saved::Failed(fail(self.policy, error)),
        }
    }
}

impl<S: RetryStrategy> Waiting<S> {
    /// The retry policy of the execution.
    pub closed spec fn policy(&self) -> RetryPolicy<Arc<S>> {
        self.policy
    }

    /// Starts the execution over once the delay has passed: with the same
    /// retry policy, it loads again.
    pub fn retry(self) -> (loading: Loading<S>)
        ensures
            loading.policy() == self.policy(),
    {
        Loading { policy: self.policy }
    }
}

/// Whether `outcome` is what one attempt can come to once `stored` was
/// loaded: the value, or the default where nothing is stored, is rendered and
/// updated with what `operation` computes; the outcome of saving it decides.
pub open spec fn attempts_after_load<V, T, U, E, S, O>(
    save_entity: S,
    key: &String,
    operation: &O,
    stored: Option<V>,
    saved: S,
    outcome: Result<V::UpdateResponse, E>,
) -> bool where
    V: NormaliseTo<T> + UpdateWith<U> + Default,
    S: SaveEntity<V, Key = String, Error = E>,
    O: Operation<T, U>,
 {
    exists|input: V, value: V, response: V::UpdateResponse, written: Result<V, E>|
        #![trigger process::processed::<V, T, U, O>(input, operation, value, response), save_entity.saves(key, value, saved, written)]
        process::processed::<V, T, U, O>(input, operation, value, response) && match stored {
            Some(stored) => input == stored,
            None => call_ensures(V::default, (), input),
        } && save_entity.saves(key, value, saved, written) && match written {
            Ok(_) => outcome == Ok::<V::UpdateResponse, E>(response),
            Err(error) => outcome == Err::<V::UpdateResponse, E>(error),
        }
}

/// One attempt of an execution against stores that answer at once: the value
/// under `key` is loaded, `operation` is run on it, and the outcome is saved.
/// A failure of loading is the outcome, and nothing is saved then; a failure
/// of saving is the outcome as well. Otherwise the outcome is the answer of
/// the update.
pub fn try_operation<V, T, U, E, L, S, O>(
    load_entity: &L,
    save_entity: &mut S,
    key: &str,
    operation: &O,
) -> (outcome: Result<V::UpdateResponse, E>) where
    V: NormaliseTo<T> + UpdateWith<U> + Default,
    L: LoadEntity<V, Key = String, Error = E>,
    S: SaveEntity<V, Key = String, Error = E>,
    O: Operation<T, U>,

    requires
        forall|input: V| process::can_process::<V, T, U, O>(input, operation),
    ensures
        exists|key_held: String, loaded: Result<Option<V>, E>|
            #![trigger load_entity.loads(&key_held, loaded)]
            key_held@ == key@ && load_entity.loads(&key_held, loaded) && match loaded {
                Err(error) => outcome == Err::<V::UpdateResponse, E>(error) && *final(save_entity)
                    == *old(save_entity),
                Ok(stored) => attempts_after_load::<V, T, U, E, S, O>(
                    *old(save_entity),
                    &key_held,
                    operation,
                    stored,
                    *final(save_entity),
                    outcome,
                ),
            },
{
    let key_held = key.to_owned();
    let loaded = load_entity.load(&key_held);
    let outcome = match loaded {
        Err(error) => Err(error),
        Ok(stored) => {
            let input = match stored {
                Some(stored) => stored,
                None => V::default(),
            };
            let result = process::process(input, operation);
            let written = save_entity.save(&key_held, result.value);
            let outcome = match written {
                Ok(_) => Ok(result.update_response),
                Err(error) => Err(error),
            };
            outcome
        },
    };
    outcome
}

} // verus!
