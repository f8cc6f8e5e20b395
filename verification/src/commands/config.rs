//! Identities, secrets, the store of saved entries, and network selection.

pub mod identity;
pub mod locator;
pub mod network;
pub mod secret;
