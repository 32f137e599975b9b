//! Checking a command against the state it is meant for.
//!
//! A validator looks at the state and the command and names what is wrong, if
//! anything is. A `Validator` asks every validator it was given and collects
//! what they name; a `ChainedValidate` stops at the first.
use vstd::prelude::*;

verus! {

/// One check of a command `C` against a state `T`, naming an error `U`.
pub trait Validate<T, C, U> {
    /// What the check asks of a state and a command before it looks at them.
    /// Unless an implementation says otherwise, nothing.
    open spec fn validate_requires(&self, domain: &T, command: &C) -> bool {
        true
    }

    /// Whether `error` is what the check names for the state and the command.
    /// Unless an implementation says more, anything may be named.
    open spec fn validate_ensures(&self, domain: &T, command: &C, error: Option<U>) -> bool {
        true
    }

    fn validate(&self, domain: &T, command: &C) -> (error: Option<U>)
        requires
            self.validate_requires(domain, command),
        ensures
            self.validate_ensures(domain, command, error),
    ;
}

impl<V, T, U, C> Validate<T, C, U> for V where V: Fn(&T, &C) -> Option<U> {
    open spec fn validate_requires(&self, domain: &T, command: &C) -> bool {
        call_requires(*self, (domain, command))
    }

    open spec fn validate_ensures(&self, domain: &T, command: &C, error: Option<U>) -> bool {
        call_ensures(*self, (domain, command), error)
    }

    fn validate(&self, domain: &T, command: &C) -> (error: Option<U>) {
        self(domain, command)
    }
}

/// The errors that a row of checks names, as one sequence.
pub open spec fn named<U>(error: Option<U>) -> Seq<U> {
    match error {
        Some(error) => seq![error],
        None => Seq::empty(),
    }
}

/// A row of checks that are all made, in the order in which they were added.
pub trait ValidateEach<T, C, U> {
    /// What the checks ask of a state and a command.
    spec fn each_requires(&self, domain: &T, command: &C) -> bool;

    /// Whether `errors` is what the checks name, in their order.
    spec fn each_ensures(&self, domain: &T, command: &C, errors: Seq<U>) -> bool;

    /// Makes every check and adds what it names to `errors`.
    fn validate_each(&self, domain: &T, command: &C, errors: &mut Vec<U>)
        requires
            self.each_requires(domain, command),
        ensures
            exists|added: Seq<U>| #[trigger]
                self.each_ensures(domain, command, added) && final(errors)@ == old(errors)@
                    + added,
    ;
}

/// No check at all.
pub struct NoCheck;

impl<T, C, U> ValidateEach<T, C, U> for NoCheck {
    open spec fn each_requires(&self, domain: &T, command: &C) -> bool {
        true
    }

    open spec fn each_ensures(&self, domain: &T, command: &C, errors: Seq<U>) -> bool {
        errors == Seq::<U>::empty()
    }

    fn validate_each(&self, domain: &T, command: &C, errors: &mut Vec<U>) {
        assert(<Self as ValidateEach<T, C, U>>::each_ensures(self, domain, command, Seq::empty())
            && errors@ == old(errors)@ + Seq::<U>::empty());
    }
}

/// The checks of `earlier`, then the check `last`.
pub struct Checks<L, V> {
    pub earlier: L,
    pub last: V,
}

impl<T, C, U, L, V> ValidateEach<T, C, U> for Checks<L, V> where
    L: ValidateEach<T, C, U>,
    V: Validate<T, C, U>,
 {
    open spec fn each_requires(&self, domain: &T, command: &C) -> bool {
        self.earlier.each_requires(domain, command) && self.last.validate_requires(domain, command)
    }

    open spec fn each_ensures(&self, domain: &T, command: &C, errors: Seq<U>) -> bool {
        exists|before: Seq<U>, error: Option<U>|
            #![trigger self.earlier.each_ensures(domain, command, before), self.last.validate_ensures(domain, command, error)]
            self.earlier.each_ensures(domain, command, before) && self.last.validate_ensures(
                domain,
                command,
                error,
            ) && errors == before + named(error)
    }

    fn validate_each(&self, domain: &T, command: &C, errors: &mut Vec<U>) {
        self.earlier.validate_each(domain, command, errors);
        let ghost before = choose|added: Seq<U>| #[trigger]
            self.earlier.each_ensures(domain, command, added) && errors@ == old(errors)@ + added;
        let error = self.last.validate(domain, command);
        let ghost kept = error;
        if let Some(error) = error {
            errors.push(error);
        }
        proof {
            let added = before + named(kept);
            assert(self.each_ensures(domain, command, added));
        }
    }
}

/// A command and the checks that it is to pass.
pub struct Validator<'a, C, L> {
    command: &'a C,
    validate_list: L,
}

impl<'a, C> Validator<'a, C, NoCheck> {
    /// A validator of `command` without any check.
    pub fn new(command: &'a C) -> (validator: Self)
        ensures
            validator.command() == command,
    {
        Self { command, validate_list: NoCheck }
    }
}

impl<'a, C, L> Validator<'a, C, L> {
    /// The command that is checked.
    pub closed spec fn command(&self) -> &'a C {
        self.command
    }

    /// The checks, in the order in which they are made.
    pub closed spec fn checks(&self) -> L {
        self.validate_list
    }

    /// The validator with one more check, made after the others.
    pub fn should<V>(self, validator: V) -> (extended: Validator<'a, C, Checks<L, V>>)
        ensures
            extended.command() == self.command(),
            extended.checks() == (Checks { earlier: self.checks(), last: validator }),
    {
        Validator {
            command: self.command,
            validate_list: Checks { earlier: self.validate_list, last: validator },
        }
    }

    /// Makes every check against `domain`. The command comes back alone if no
    /// check names an error, and together with all the errors, in the order of
    /// the checks, otherwise.
    pub fn validate_against<T, U>(self, domain: &T) -> (outcome: Result<&'a C, (&'a C, Vec<U>)>) where
        L: ValidateEach<T, C, U>,

        requires
            self.checks().each_requires(domain, self.command()),
        ensures
            exists|errors: Seq<U>| #[trigger]
                self.checks().each_ensures(domain, self.command(), errors) && match outcome {
                    Ok(command) => errors.len() == 0 && command == self.command(),
                    Err((command, found)) => errors.len() > 0 && found@ == errors && command
                        == self.command(),
                },
    {
        let mut errors: Vec<U> = Vec::new();
        self.validate_list.validate_each(domain, self.command, &mut errors);
        if errors.len() == 0 {
            Ok(self.command)
        } else {
            Err((self.command, errors))
        }
    }
}

/// Starts a validator from the command itself.
pub trait ValidateCommand<'a>: Sized {
    /// A validator of this command with `validate` as its first check.
    fn should<V>(&'a self, validate: V) -> (validator: Validator<'a, Self, Checks<NoCheck, V>>)
        ensures
            validator.command() == self,
            validator.checks() == (Checks { earlier: NoCheck, last: validate }),
    ;
}

impl<'a, C> ValidateCommand<'a> for C where C: Sized {
    fn should<V>(&'a self, validate: V) -> (validator: Validator<'a, Self, Checks<NoCheck, V>>) {
        Validator::new(self).should(validate)
    }
}

/// The check that names no error.
pub struct Pass;

impl<T, C, U> Validate<T, C, U> for Pass {
    open spec fn validate_requires(&self, domain: &T, command: &C) -> bool {
        true
    }

    open spec fn validate_ensures(&self, domain: &T, command: &C, error: Option<U>) -> bool {
        error is None
    }

    fn validate(&self, domain: &T, command: &C) -> (error: Option<U>) {
        None
    }
}

/// Checks made one after another until one names an error.
pub struct ChainedValidate<A, B> {
    earlier: A,
    last: B,
}

impl<A, B> ChainedValidate<A, B> {
    /// The checks that are made first.
    pub closed spec fn earlier(&self) -> A {
        self.earlier
    }

    /// The check that is made if the earlier ones name no error.
    pub closed spec fn last(&self) -> B {
        self.last
    }

    /// The chain with one more check at its end.
    pub fn and<V>(self, validate: V) -> (chain: ChainedValidate<ChainedValidate<A, B>, V>)
        ensures
            chain.earlier() == self,
            chain.last() == validate,
    {
        ChainedValidate { earlier: self, last: validate }
    }
}

impl<V> ChainedValidate<Pass, V> {
    /// A chain of the one check `validate`.
    pub fn new(validate: V) -> (chain: Self)
        ensures
            chain.earlier() == Pass,
            chain.last() == validate,
    {
        ChainedValidate { earlier: Pass, last: validate }
    }
}

impl<T, C, U, A, B> Validate<T, C, U> for ChainedValidate<A, B> where
    A: Validate<T, C, U>,
    B: Validate<T, C, U>,
 {
    open spec fn validate_requires(&self, domain: &T, command: &C) -> bool {
        self.earlier().validate_requires(domain, command) && self.last().validate_requires(
            domain,
            command,
        )
    }

    open spec fn validate_ensures(&self, domain: &T, command: &C, error: Option<U>) -> bool {
        exists|first: Option<U>| #[trigger]
            self.earlier().validate_ensures(domain, command, first) && if first is Some {
                error == first
            } else {
                self.last().validate_ensures(domain, command, error)
            }
    }

    fn validate(&self, domain: &T, command: &C) -> (error: Option<U>) {
        let first = self.earlier.validate(domain, command);
        let error = match first {
            Some(error) => Some(error),
            None => self.last.validate(domain, command),
        };
        error
    }
}

/// Starts a chain from its first check.
pub trait ChainedValidateExt: Sized {
    /// The chain of this check and then `validate`.
    fn and<V>(self, validate: V) -> (chain: ChainedValidate<ChainedValidate<Pass, Self>, V>)
        ensures
            chain.earlier().earlier() == Pass,
            chain.earlier().last() == self,
            chain.last() == validate,
    ;
}

impl<F> ChainedValidateExt for F {
    fn and<V>(self, validate: V) -> (chain: ChainedValidate<ChainedValidate<Pass, Self>, V>) {
        ChainedValidate::new(self).and(validate)
    }
}

} // verus!
