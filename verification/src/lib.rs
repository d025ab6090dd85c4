//! A minimal actor runtime: each agent owns a private, ordered mailbox and
//! processes messages one at a time inside an independently scheduled worker
//! task. This crate holds the verified core — the sender/delivery semantics,
//! the termination protocol's decisions, and a model of the agent lifecycle
//! with its ordering laws. The asynchronous shell that drives the worker
//! loops lives outside the verified library.

pub mod agent;

pub use agent::Agent;
