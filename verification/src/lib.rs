//! Provisioning of isolated, named multi-container environments on a single
//! container host, with the outcome recorded in a relational store.
//!
//! The crate holds the decision core: subnet and host-port allocation
//! ([`docker`]), the network and container specifications handed to the
//! engine ([`docker`]), the provisioning state machine that sequences them
//! and short-circuits on failure ([`pipeline`]), the persistence entities,
//! error taxonomy and an in-memory provider ([`db`], [`store`], [`error`]),
//! and the request-facing entities and operations ([`model`]). Everything
//! here is free of I/O: a shell around the crate probes ports, calls the
//! engine and the database, and feeds the outcomes back in.
pub mod client;
pub mod db;
pub mod docker;
pub mod error;
pub mod model;
pub mod pipeline;
pub mod store;
pub mod text;
pub mod utils;
