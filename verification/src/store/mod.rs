//! The repository's data types and the decisions it takes around its queries.

pub mod columns;
pub mod ops;
pub mod reflect;
pub mod repository;
