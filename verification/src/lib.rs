//! Lorekeeper: a structured long-term memory bank for coding agents.
//!
//! The library holds the entry model, the validation rules (role enforcement,
//! metadata schemas, status state machines), the Markdown renderer, the help
//! texts and the decision logic that the `SQLite` repository runs around its
//! queries.

pub mod config;
pub mod error;
pub mod model;
pub mod project;
pub mod render;
pub mod server;
pub mod store;
pub mod text;
