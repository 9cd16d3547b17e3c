//! A gateway between a request/reply RPC front end and a backend compute
//! engine that answers one synchronous exchange at a time.
//!
//! The crate holds the task-correlation protocol: the registry of in-flight
//! and finished tasks, the dispatch rules that turn a request into a reply and
//! an action for the caller to perform, the adapter for multiplexed streams,
//! and the encoding of the backend's command envelope.
pub mod message;
pub mod registry;
pub mod backend;
pub mod pool;
pub mod read;
pub mod dispatch;
pub mod stream;
pub mod laws;
