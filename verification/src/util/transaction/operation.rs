//! What a transaction does to the value it has loaded.
use vstd::prelude::*;

verus! {

/// Computes an update of type `U` from an input of type `T`.
pub trait Operation<T, U> {
    /// What the operation asks of its input. Unless an implementation says
    /// otherwise, nothing.
    open spec fn operate_requires(&self, input: &T) -> bool {
        true
    }

    /// Whether `update` is what the operation computes from `input`. Unless
    /// an implementation says more, any update is.
    open spec fn operate_ensures(&self, input: &T, update: U) -> bool {
        true
    }

    fn operate_on(&self, input: &T) -> (update: U)
        requires
            self.operate_requires(input),
        ensures
            self.operate_ensures(input, update),
    ;
}

impl<T, R, U> Operation<R, U> for T where T: Fn(&R) -> U {
    open spec fn operate_requires(&self, input: &R) -> bool {
        call_requires(*self, (input,))
    }

    open spec fn operate_ensures(&self, input: &R, update: U) -> bool {
        call_ensures(*self, (input,), update)
    }

    fn operate_on(&self, input: &R) -> (update: U) {
        self(input)
    }
}

} // verus!
