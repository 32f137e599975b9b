//! Where entities are kept.
use vstd::prelude::*;

verus! {

/// A store that entities can be loaded from.
pub trait LoadEntity<Entity> {
    type Key;

    type Error;

    /// Whether `outcome` is what loading the entity under `key` can come to.
    /// Unless an implementation says more, anything can happen.
    open spec fn loads(&self, key: &Self::Key, outcome: Result<Option<Entity>, Self::Error>) -> bool {
        true
    }

    /// The entity under `key`, or nothing where none is stored.
    fn load(&self, key: &Self::Key) -> (outcome: Result<Option<Entity>, Self::Error>)
        ensures
            self.loads(key, outcome),
    ;
}

/// A store that entities can be saved to.
pub trait SaveEntity<Entity>: Sized {
    type Key;

    type Error;

    /// Whether saving `entity` under `key` can turn this store into `saved`
    /// and come to `outcome`. Unless an implementation says more, anything can
    /// happen.
    open spec fn saves(
        &self,
        key: &Self::Key,
        entity: Entity,
        saved: Self,
        outcome: Result<Entity, Self::Error>,
    ) -> bool {
        true
    }

    /// Puts `entity` in the place of what is stored under `key`, and hands it
    /// back.
    fn save(&mut self, key: &Self::Key, entity: Entity) -> (outcome: Result<Entity, Self::Error>)
        ensures
            old(self).saves(key, entity, *final(self), outcome),
    ;
}

} // verus!
