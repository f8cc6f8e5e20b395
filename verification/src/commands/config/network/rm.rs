//! Removing a saved network.

use vstd::prelude::*;
use crate::commands::config::locator;
use crate::commands::config::locator::ConfigLocator;

verus! {

/// What is asked when a network is removed.
#[derive(Clone, Debug)]
pub struct Cmd {
    /// Name of network.
    pub name: String,
}

impl Cmd {
    /// Removes the network of the name; `NotFound`, and no change, where none
    /// is saved under it.
    pub fn run(&self, locator: &mut ConfigLocator) -> (r: Result<(), locator::Error>)
        ensures
            locator::unit_result(r) == (if old(locator).networks().contains_key(self.name@) {
                Ok::<(), locator::ErrorView>(())
            } else {
                Err::<(), locator::ErrorView>(locator::ErrorView::NotFound(self.name@))
            }),
            final(locator).networks() == old(locator).networks().remove(self.name@),
            final(locator).identities() == old(locator).identities(),
    {
        locator.remove_network(self.name.as_str())
    }
}

} // verus!
