//! Client-side engine of a federated-computation protocol.
//!
//! A long-running client registers with a coordinating server, repeatedly
//! receives task envelopes describing one of four machine-learning
//! operations, executes the operation through a user-supplied [`client::Client`]
//! capability, and returns a correlated reply.  This crate holds the
//! protocol logic: the domain types, the wire translation, the dispatcher
//! and the task-loop state machine.  The network transport itself (gRPC
//! streams or polling) lives outside, driven through the events and actions
//! of [`task_loop`].

pub mod backoff;
pub mod client;
pub mod codec;
pub mod dispatch;
pub mod task_handler;
pub mod task_loop;
pub mod types;
pub mod wire;
