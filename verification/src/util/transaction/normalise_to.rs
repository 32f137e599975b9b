//! From what is stored to what a command is applied to.
use vstd::prelude::*;

verus! {

/// A stored value that can be rendered as a `T`.
pub trait NormaliseTo<T> {
    /// Whether `normalised` is what the value is rendered as. Unless an
    /// implementation says more, anything is.
    open spec fn normalises_to(&self, normalised: T) -> bool {
        true
    }

    fn render_normalised(&self) -> (normalised: T)
        ensures
            self.normalises_to(normalised),
    ;
}

} // verus!
