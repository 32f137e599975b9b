//! One attempt of a transaction, between loading and saving.
use vstd::prelude::*;
use crate::util::transaction::normalise_to::NormaliseTo;
use crate::util::transaction::operation::Operation;
use crate::util::transaction::update_with::UpdateWith;

verus! {

/// What an attempt leaves: the value to save and the answer to the caller.
pub struct ProcessResult<V, U> {
    pub value: V,
    pub update_response: U,
}

/// Whether `operation` can be run on `input`: it takes whatever `input` is
/// rendered as.
pub open spec fn can_process<V, R, U, O>(input: V, operation: &O) -> bool where
    V: NormaliseTo<R> + UpdateWith<U>,
    O: Operation<R, U>,
 {
    forall|normalised: R| #[trigger]
        input.normalises_to(normalised) ==> operation.operate_requires(&normalised)
}

/// Whether `value` and `update_response` are what running `operation` on
/// `input` leaves: `input` is rendered, `operation` computes an update from
/// the rendering, and `input` takes the update.
pub open spec fn processed<V, R, U, O>(
    input: V,
    operation: &O,
    value: V,
    update_response: V::UpdateResponse,
) -> bool where V: NormaliseTo<R> + UpdateWith<U>, O: Operation<R, U> {
    exists|normalised: R, update: U|
        #![trigger input.normalises_to(normalised), operation.operate_ensures(&normalised, update)]
        input.normalises_to(normalised) && operation.operate_ensures(&normalised, update)
            && input.updates_to(update, value, update_response)
}

/// Renders `input`, runs `operation` on the rendering and lets `input` take
/// the update that it computes.
pub fn process<V, R, U, O>(input: V, operation: &O) -> (result: ProcessResult<
    V,
    V::UpdateResponse,
>) where V: NormaliseTo<R> + UpdateWith<U>, O: Operation<R, U>
    requires
        can_process::<V, R, U, O>(input, operation),
    ensures
        processed::<V, R, U, O>(input, operation, result.value, result.update_response),
{
    let mut input = input;
    let normalised = input.render_normalised();
    let update_response = operation.operate_on(&normalised);
    let update_result = input.update_with(update_response);
    ProcessResult { value: input, update_response: update_result }
}

} // verus!
