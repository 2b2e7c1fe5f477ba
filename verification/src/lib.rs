//! Command/event correlation for a Host Controller Interface transport.
//!
//! A host sends commands to a controller and receives events from it over one
//! duplex channel. This crate holds the bookkeeping that turns the two
//! interleaved streams into requests with answers: the registry of commands
//! that await their event, the set of event codes that a consumer has
//! subscribed to, and the two step functions that a command loop and an
//! event loop call for each item they take from their queue. The functions
//! here decide; sending and receiving is left to the caller.

pub mod error;
pub mod facade;
pub mod guarantees;
pub mod packet;
pub mod registry;
pub mod router;
pub mod subscription;
