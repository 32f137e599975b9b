//! States that are folded from a log of events.
use vstd::prelude::*;
use crate::util::view;

verus! {

/// A state that changes by events alone.
///
/// What an event does to a state is a function of the state and the event, so
/// a state folded from a log is a function of the log.
pub trait HandleEvent: Sized + Default {
    type Event: View;

    /// The state as mathematics.
    type Model;

    /// The state as mathematics.
    spec fn model(&self) -> Self::Model;

    /// The state that every fold starts from.
    spec fn initial() -> Self::Model;

    /// The state that `event` leaves behind.
    spec fn applied(model: Self::Model, event: <Self::Event as View>::V) -> Self::Model;

    /// How many more events the state takes within the limits of the machine.
    spec fn headroom(&self) -> nat;

    /// The default state is the initial one, and takes a whole log.
    proof fn default_is_initial(state: Self)
        requires
            call_ensures(Self::default, (), state),
        ensures
            state.model() == Self::initial(),
            state.headroom() >= usize::MAX,
    ;

    /// Applies `event` in place.
    fn apply(&mut self, event: &Self::Event)
        requires
            old(self).headroom() > 0,
        ensures
            final(self).model() == Self::applied(old(self).model(), event@),
            final(self).headroom() + 1 >= old(self).headroom(),
    ;
}

/// The state that a log of events leaves behind: the fold of `applied` over
/// the log, from the initial state.
pub open spec fn replay<T: HandleEvent>(events: Seq<<T::Event as View>::V>) -> T::Model {
    events.fold_left(T::initial(), |model: T::Model, event: <T::Event as View>::V| T::applied(model, event))
}

/// The state that `events` leave behind when they are applied to `model` in
/// order.
pub open spec fn apply_all<T: HandleEvent>(model: T::Model, events: Seq<<T::Event as View>::V>) -> T::Model {
    events.fold_left(model, |model: T::Model, event: <T::Event as View>::V| T::applied(model, event))
}

/// A state that can be built from a log.
pub trait EventSourced: Sized {
    type Event;

    /// Whether `state` is what `events` fold to.
    spec fn sourced(events: Seq<Self::Event>, state: Self) -> bool;

    /// Folds `events` into a state, starting from the default.
    fn source(events: &[Self::Event]) -> (state: Self)
        ensures
            Self::sourced(events@, state),
    ;
}

impl<T, E> EventSourced for T where T: HandleEvent<Event = E>, E: View {
    type Event = E;

    open spec fn sourced(events: Seq<E>, state: Self) -> bool {
        state.model() == replay::<T>(view::views(events)) && state.headroom() + events.len()
            >= usize::MAX
    }

    fn source(events: &[E]) -> (state: Self) {
        let mut state = Self::default();
        proof {
            Self::default_is_initial(state);
        }
        let mut i: usize = 0;
        while i < events.len()
            invariant
                i <= events@.len(),
                state.model() == replay::<T>(view::views(events@.take(i as int))),
                state.headroom() + i >= usize::MAX,
            decreases events@.len() - i,
        {
            state.apply(&events[i]);
            proof {
                let before = view::views(events@.take(i as int));
                let after = view::views(events@.take(i + 1));
                assert(after.drop_last() =~= before);
            }
            i += 1;
        }
        assert(events@.take(i as int) =~= events@);
        state
    }
}

/// Folding a log is applying its events, in order, to the initial state;
/// nothing but the log bears on what it folds to.
pub proof fn lemma_replay_is_apply_all<T: HandleEvent>(events: Seq<<T::Event as View>::V>)
    ensures
        replay::<T>(events) == apply_all::<T>(T::initial(), events),
        replay::<T>(Seq::empty()) == T::initial(),
{
}

/// Applying two runs of events one after the other is applying them joined.
pub proof fn lemma_apply_all_add<T: HandleEvent>(
    model: T::Model,
    first: Seq<<T::Event as View>::V>,
    second: Seq<<T::Event as View>::V>,
)
    ensures
        apply_all::<T>(model, first + second) == apply_all::<T>(
            apply_all::<T>(model, first),
            second,
        ),
    decreases second.len(),
{
    if second.len() > 0 {
        lemma_apply_all_add::<T>(model, first, second.drop_last());
        assert((first + second).drop_last() =~= first + second.drop_last());
    }
}

/// The state that a log folds to is the state that its first part folds to
/// with the events of the rest applied to it: a state can be built from the
/// whole log at once or event by event as the log grows, to the same end.
pub proof fn lemma_replay_add<T: HandleEvent>(
    prefix: Seq<<T::Event as View>::V>,
    suffix: Seq<<T::Event as View>::V>,
)
    ensures
        replay::<T>(prefix + suffix) == apply_all::<T>(replay::<T>(prefix), suffix),
{
    lemma_apply_all_add::<T>(T::initial(), prefix, suffix);
}

/// Folding a log with one more event is applying the event to what the log
/// folds to.
pub proof fn lemma_replay_push<T: HandleEvent>(
    events: Seq<<T::Event as View>::V>,
    event: <T::Event as View>::V,
)
    ensures
        replay::<T>(events.push(event)) == T::applied(replay::<T>(events), event),
{
    assert(events.push(event).drop_last() =~= events);
}

} // verus!
