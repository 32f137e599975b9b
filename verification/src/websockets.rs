//! The bookkeeping of the realtime fan-out.
//!
//! The fan-out pushes events: a broker keeps, for every board with
//! subscribers, who they are and how far the log has been broadcast, and a
//! session turns what it is sent into its own view of the board. Nothing here
//! sends anything: every function says what is to be sent, to whom and in
//! which order.
pub mod message;
pub mod server;
pub mod session;
pub mod sidecar;
pub mod store;
pub mod websocket;
