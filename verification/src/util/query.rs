//! Rendering a model as a presentation.
use vstd::prelude::*;
use crate::util::store::LoadEntity;
use crate::util::transaction::NormaliseTo;

verus! {

/// A presentation that is rendered from a model.
pub trait PresentationOf: Sized {
    type Model;

    /// Whether `presentation` is what `model` is rendered as. Unless an
    /// implementation says more, anything is.
    open spec fn presents(model: &Self::Model, presentation: Self) -> bool {
        true
    }

    fn from_model(model: &Self::Model) -> (presentation: Self)
        ensures
            Self::presents(model, presentation),
    ;
}

/// A model that can be rendered as a `T`.
pub trait PresentAs<T> {
    /// Whether `presentation` is what the model is rendered as.
    spec fn presented_as(&self, presentation: T) -> bool;

    fn present_as(&self) -> (presentation: T)
        ensures
            self.presented_as(presentation),
    ;
}

impl<T, U> PresentAs<U> for T where U: PresentationOf<Model = T> {
    open spec fn presented_as(&self, presentation: U) -> bool {
        U::presents(self, presentation)
    }

    fn present_as(&self) -> (presentation: U) {
        U::from_model(self)
    }
}

/// Answers queries from the logs of a store.
pub struct Query<L> {
    loader: L,
}

/// Whether `presentation` is a rendering of what `log` is rendered as.
pub open spec fn presents_log<T, Entity>(log: Vec<T>, presentation: Entity) -> bool where
    Entity: PresentationOf,
    Vec<T>: NormaliseTo<Entity::Model>,
 {
    exists|model: Entity::Model| #[trigger]
        log.normalises_to(model) && Entity::presents(&model, presentation)
}

/// Whether `presentation` is a rendering of what was loaded: of the log, or of
/// an empty log where nothing is stored.
pub open spec fn presents_loaded<T, Entity>(loaded: Option<Vec<T>>, presentation: Entity) -> bool where
    Entity: PresentationOf,
    Vec<T>: NormaliseTo<Entity::Model>,
 {
    exists|log: Vec<T>| #[trigger]
        presents_log::<T, Entity>(log, presentation) && match loaded {
            Some(stored) => log == stored,
            None => log@.len() == 0,
        }
}

impl<L> Query<L> {
    /// The store that the logs are loaded from.
    pub closed spec fn loader(&self) -> L {
        self.loader
    }

    pub fn new(loader: L) -> (query: Self)
        ensures
            query.loader() == loader,
    {
        Self { loader }
    }

    /// The presentation of what was loaded: of the log, or of the empty log
    /// where nothing is stored.
    pub fn present<T, Entity>(loaded: Option<Vec<T>>) -> (presentation: Entity) where
        Entity: PresentationOf,
        Vec<T>: NormaliseTo<Entity::Model>,

        ensures
            presents_loaded::<T, Entity>(loaded, presentation),
    {
        let log = match loaded {
            Some(log) => log,
            None => Vec::new(),
        };
        let model: Entity::Model = log.render_normalised();
        let presentation = Entity::from_model(&model);
        assert(presents_log::<T, Entity>(log, presentation) && match loaded {
            Some(stored) => log == stored,
            None => log@.len() == 0,
        });
        presentation
    }

    /// Loads the log under `key` and renders it. A failure of the store is
    /// the outcome; otherwise the outcome is the presentation of what was
    /// loaded.
    pub fn query<T, Entity>(&self, key: &str) -> (outcome: Result<Entity, L::Error>) where
        L: LoadEntity<Vec<T>, Key = String>,
        Entity: PresentationOf,
        Vec<T>: NormaliseTo<Entity::Model>,

        ensures
            exists|key_held: String, loaded: Result<Option<Vec<T>>, L::Error>|
                #![trigger self.loader().loads(&key_held, loaded)]
                key_held@ == key@ && self.loader().loads(&key_held, loaded) && match loaded {
                    Ok(stored) => outcome matches Ok(presentation) && presents_loaded::<T, Entity>(
                        stored,
                        presentation,
                    ),
                    Err(error) => outcome == Err::<Entity, L::Error>(error),
                },
    {
        let key_held = key.to_owned();
        let loaded = self.loader.load(&key_held);
        let ghost found = loaded;
        let outcome = match loaded {
            Ok(entity) => Ok(Self::present(entity)),
            Err(error) => Err(error),
        };
        assert(key_held@ == key@ && self.loader().loads(&key_held, found));
        outcome
    }
}

} // verus!
