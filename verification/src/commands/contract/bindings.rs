//! Generating client bindings for a contract.

pub mod typescript;
