//! A planning-poker board as an event-sourced command/query engine.
//!
//! Every board is an append-only log of events. Commands are validated against
//! an aggregate folded from that log and answer with new events; clients are
//! served a presentation folded from the same log. The modules under [`util`]
//! hold the engine, [`command`] and [`query`] the two projections of a board,
//! and [`websockets`] the bookkeeping of the realtime fan-out.
pub mod util;
pub mod command;
pub mod query;
pub mod websockets;
pub mod port;
pub mod adapter;
pub mod service;
pub mod presentation;
pub mod query_param;
