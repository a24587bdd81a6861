//! Orchestration for a reasoning engine that is embedded in the host
//! process: activating the runtime once, loading the layers of the
//! knowledge base in their order, and running suites of validation queries
//! against what has been loaded.
//!
//! The library decides and the host acts. Whatever touches the runtime or
//! the file system is asked of the host as an [`job::Action`] or an
//! [`activation::Directive`]; the host performs it and hands back a
//! [`job::Reply`] or an [`activation::Signal`]. Every decision is a verified
//! function from the state and what the host found to the next state and
//! what to do next.

pub mod activation;
pub mod engine;
pub mod error;
pub mod job;
pub mod laws;
pub mod path;
pub mod query;
pub mod runtime;
pub mod source;
pub mod step;
