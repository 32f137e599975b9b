//! The event-sourcing engine, independent of any one domain.
pub mod command;
pub mod entity;
pub mod keyed;
pub mod presentation;
pub mod query;
pub mod store;
pub mod text;
pub mod validate;
pub mod transaction;
pub mod use_case;
pub mod view;
