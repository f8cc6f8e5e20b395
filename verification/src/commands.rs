//! The commands of the tool, as far as they decide or compute anything.

pub mod config;
pub mod contract;
