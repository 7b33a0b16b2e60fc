//! Client-side orchestration for a small set of message-bus tools.
//!
//! The crate decides *what* each tool does against the bus: which
//! configuration layers apply, which subject / queue group / stream /
//! consumer an operation targets, how a request resolves into a reply or a
//! timeout, in which order a durable consumer is bootstrapped, and when a
//! pull loop acknowledges and stops.  Talking to the bus itself is left to
//! the caller, which performs each returned action and reports back what
//! happened.

pub mod cli;
pub mod config;
pub mod durable;
pub mod label;
pub mod pubsub;
pub mod pull;
pub mod request;
pub mod resolve;
pub mod responder;
pub mod setup;
pub mod text;
