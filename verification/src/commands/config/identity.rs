//! Commands on identities.

pub mod generate;
