//! Identities and networks for a command-line tool of the Stellar network.
//!
//! A secret (a mnemonic seed phrase or a raw private key) gives a key pair; a
//! command's network arguments give the one network to talk to; an identity
//! is generated, saved, and funded through the network's funding helper.
//!
//! The library decides and computes. It does no input or output: the caller
//! reads files and talks to the network, and hands over what it got.
//!
//! Calls into other crates (`sep5`, `stellar-strkey`, `ed25519-dalek`, `http`,
//! `serde_json`) are made in small wrappers whose contracts are believed
//! without proof; each module that has such wrappers says so at its top.

pub mod commands;
pub mod json;
pub mod keys;
pub mod table;
pub mod text;
pub mod uri;
