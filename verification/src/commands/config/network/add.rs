//! Saving a network under a name.

use vstd::prelude::*;
use crate::commands::config::locator;
use crate::commands::config::locator::ConfigLocator;
use crate::commands::config::network::Network;

verus! {

/// What is asked when a network is added.
#[derive(Clone, Debug)]
pub struct Cmd {
    /// Name of network.
    pub name: String,
    /// The network to save.
    pub network: Network,
}

impl Cmd {
    /// Saves the network under the name, in place of a network of that name if
    /// there is one.
    pub fn run(&self, locator: &mut ConfigLocator) -> (r: Result<(), locator::Error>)
        ensures
            r is Ok,
            final(locator).networks() == old(locator).networks().insert(
                self.name@,
                self.network@,
            ),
            final(locator).identities() == old(locator).identities(),
    {
        locator.write_network(self.name.as_str(), &self.network)
    }
}

} // verus!
