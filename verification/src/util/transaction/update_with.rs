//! Taking an update into a stored value.
use vstd::prelude::*;

verus! {

/// A stored value that takes updates of type `T`.
pub trait UpdateWith<T>: Sized {
    type UpdateResponse;

    /// Whether the update `update_value` turns this value into `updated` and
    /// is answered with `response`. Unless an implementation says more, any
    /// outcome is possible.
    open spec fn updates_to(
        &self,
        update_value: T,
        updated: Self,
        response: Self::UpdateResponse,
    ) -> bool {
        true
    }

    fn update_with(&mut self, update_value: T) -> (response: Self::UpdateResponse)
        ensures
            old(self).updates_to(update_value, *final(self), response),
    ;
}

} // verus!
