//! A bridge between a background worker and an event-driven front-end.
//!
//! The front-end hands requests to the worker through one channel and folds
//! the worker's responses, which come back through a second channel, into
//! its own state, without ever blocking its event loop.
//!
//! - `worker`: what the worker answers, and when it exits.
//! - `controller`: the front-end's state and its reaction to each event.
//! - `dispatch`: sending a request without blocking, with backpressure and
//!   closure reported as values.
//! - `adapter`: polling the receiving end of the response channel.
//! - `subscription`: the slot in which a host keeps the adapter it polls.
//! - `bridge`: a model of all of these together, and the laws that hold of
//!   it.
//! - `channel`: the channel endpoints and the calls that reach them.

pub mod adapter;
pub mod bridge;
pub mod channel;
pub mod controller;
pub mod dispatch;
pub mod subscription;
pub mod worker;
