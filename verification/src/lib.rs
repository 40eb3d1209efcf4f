//! Correlation routing between synchronous callers and asynchronous workers.
//!
//! A caller registers a request together with a private reply handle. The
//! router tags the request with a fresh call identifier, remembers which reply
//! handle waits under that identifier, and hands the tagged request out for a
//! worker. When a tagged response comes back, the router finds the waiting
//! reply handle again, removes it, and hands both out for delivery.
//!
//! Everything here is synchronous: each function takes one event and returns
//! what to do next. Awaiting queues and timers is left to the caller.
//!
//! - [`router`]: the router, its queues, and the two routing decisions.
//! - [`endpoint`]: the caller's handle and what a call comes to.
//! - [`pending`]: the table of pending calls.
//! - [`index`]: the concurrent map under that table.
//! - [`identifier`]: random call identifiers.
//! - [`queue`]: the channels between callers, router and workers.
//! - [`history`]: what holds of every sequence of registrations and
//!   responses.
pub mod endpoint;
pub mod history;
pub mod identifier;
pub mod index;
pub mod pending;
pub mod queue;
pub mod router;
