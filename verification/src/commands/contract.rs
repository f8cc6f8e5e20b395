//! Commands on contracts.

use vstd::prelude::*;

pub mod bindings;
pub mod inspect;

verus! {

/// How the specification of a contract is shown.
#[derive(Clone, Copy, PartialEq, Eq, Structural, Debug)]
pub enum SpecOutput {
    /// XDR of array of contract spec entries.
    XdrBase64,
    /// Array of XDR of contract spec entries.
    XdrBase64Array,
    /// Pretty print of contract spec entries.
    Docs,
}

} // verus!
