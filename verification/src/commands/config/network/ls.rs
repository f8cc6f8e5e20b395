//! Listing the saved networks.

use vstd::prelude::*;
use crate::commands::config::locator::ConfigLocator;

verus! {

/// What is asked when the networks are listed.
#[derive(Clone, Copy, Debug)]
pub struct Cmd {}

impl Cmd {
    /// The names of the saved networks, each once: the lines to print.
    pub fn run(&self, locator: &ConfigLocator) -> (r: Vec<String>)
        ensures
            forall|i: int, j: int| 0 <= i < j < r@.len() ==> r@[i]@ != r@[j]@,
            forall|name: Seq<char>|
                locator.networks().contains_key(name) <==> exists|i: int|
                    0 <= i < r@.len() && r@[i]@ == name,
    {
        locator.list_networks()
    }
}

} // verus!
