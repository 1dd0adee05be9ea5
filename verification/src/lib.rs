//! Verified core of an asynchronous AMQP 0-9-1 client.
//!
//! The crate models the connection-and-channel runtime as a collection of
//! plain state machines: the opening handshake, the channel registry owned
//! by the reader task, inbound frame routing, per-channel content assembly,
//! and the heartbeat timers.  Every transition is an executable function
//! with a contract; the asynchronous plumbing (sockets, queues, tasks)
//! lives outside the crate and drives these functions.

pub mod connection;
pub mod dispatcher;
pub mod error;
pub mod frame;
pub mod handshake;
pub mod heartbeat;
pub mod method;
pub mod reader;
pub mod registry;

use vstd::prelude::*;

verus! {

} // verus!
