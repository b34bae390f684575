//! A call/return client surface over a callback-driven publish/subscribe
//! transport.
//!
//! The transport reports every outcome (connect, publish and subscribe
//! acknowledgements, inbound messages) through callbacks on threads of its
//! own.  This crate holds the rules that turn those callbacks into blocking
//! operations:
//!
//! - `correlator`: the one-shot meeting point that ties a completion to the
//!   request in flight;
//! - `context`: the arena that gives every client a context that never
//!   changes, and routes the callbacks by it;
//! - `client`: the state of one client and the steps of its operations;
//! - `handle`: the movable handle that an application holds for a client;
//! - `queue`: the first-in, first-out buffer of inbound messages;
//! - `iterator`: the cursor that pulls from a queue, with or without a
//!   deadline;
//! - `message`, `options`, `error`, `text`: the values that go in and out.
//!
//! Nothing here blocks or talks to the transport.  Each operation is cut into
//! steps between which the caller performs the transport call or the wait, and
//! hands back what came of it.

pub mod client;
pub mod context;
pub mod correlator;
pub mod error;
pub mod handle;
pub mod iterator;
pub mod message;
pub mod options;
pub mod queue;
pub mod text;
