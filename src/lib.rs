//! Validation and projection of a parsed site configuration tree into a
//! typed domain model.
pub mod collect;
pub mod config;
pub mod generate;
pub mod laws;
pub mod tree;
