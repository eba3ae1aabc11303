//! A personal store of idioms: short phrases, each with an optional example.
//!
//! The crate holds the record model, the parsed command line, and the
//! dispatcher that turns one command into requests to the store and one line
//! (or block) of output. It performs no I/O itself: the dispatcher is a state
//! machine that says what to ask of the store next, and whoever owns the
//! store connection performs the request and reports the answer.

pub mod app;
pub mod cli;
pub mod connection;
pub mod error;
pub mod json;
pub mod laws;
pub mod listing;
pub mod models;
pub mod store;
