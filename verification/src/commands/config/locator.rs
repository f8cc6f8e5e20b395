//! The store of saved entries: identities and networks, each under a name.
//!
//! The store is held in memory. Where the entries live on disk, the caller
//! loads what a command needs into a `ConfigLocator` and writes back what the
//! command stored.

use vstd::prelude::*;
use crate::commands::config::network::{Network, NetworkView};
use crate::commands::config::secret::{Secret, SecretView};
use crate::table::Table;

verus! {

/// Why the store could not answer.
#[derive(Clone, PartialEq, Eq, Debug)]
pub enum Error {
    /// Nothing is stored under this name.
    NotFound(String),
}

/// The mathematical value of an `Error`.
pub enum ErrorView {
    NotFound(Seq<char>),
}

impl View for Error {
    type V = ErrorView;

    open spec fn view(&self) -> ErrorView {
        match self {
            Error::NotFound(name) => ErrorView::NotFound(name@),
        }
    }
}

/// What reading `name` from `entries` gives: the entry, or `NotFound` with the name.
pub open spec fn lookup<V>(entries: Map<Seq<char>, V>, name: Seq<char>) -> Result<V, ErrorView> {
    if entries.contains_key(name) {
        Ok(entries[name])
    } else {
        Err(ErrorView::NotFound(name))
    }
}

/// The view of a result that holds a network.
pub open spec fn network_result(r: Result<Network, Error>) -> Result<NetworkView, ErrorView> {
    match r {
        Ok(network) => Ok(network@),
        Err(e) => Err(e@),
    }
}

/// The view of a result that holds a secret.
pub open spec fn identity_result(r: Result<Secret, Error>) -> Result<SecretView, ErrorView> {
    match r {
        Ok(secret) => Ok(secret@),
        Err(e) => Err(e@),
    }
}

/// The view of a result that holds nothing.
pub open spec fn unit_result(r: Result<(), Error>) -> Result<(), ErrorView> {
    match r {
        Ok(_) => Ok(()),
        Err(e) => Err(e@),
    }
}

/// Saving is idempotent by name: saving the same entry twice leaves what
/// saving it once leaves, and of two entries saved under one name the second
/// stays.
pub proof fn lemma_saving_is_idempotent<V>(
    entries: Map<Seq<char>, V>,
    name: Seq<char>,
    first: V,
    second: V,
)
    ensures
        entries.insert(name, first).insert(name, first) == entries.insert(name, first),
        entries.insert(name, first).insert(name, second) == entries.insert(name, second),
        lookup(entries.insert(name, first), name) == Ok::<V, ErrorView>(first),
{
    assert(entries.insert(name, first).insert(name, first) =~= entries.insert(name, first));
    assert(entries.insert(name, first).insert(name, second) =~= entries.insert(name, second));
}

/// The saved identities and networks.
pub struct ConfigLocator {
    networks: Table<Network>,
    identities: Table<Secret>,
}

impl ConfigLocator {
    /// The saved networks, by name.
    pub closed spec fn networks(&self) -> Map<Seq<char>, NetworkView> {
        self.networks@
    }

    /// The saved identities, by name.
    pub closed spec fn identities(&self) -> Map<Seq<char>, SecretView> {
        self.identities@
    }

    /// A store with nothing in it.
    pub fn new() -> (r: ConfigLocator)
        ensures
            r.networks() == Map::<Seq<char>, NetworkView>::empty(),
            r.identities() == Map::<Seq<char>, SecretView>::empty(),
    {
        ConfigLocator { networks: Table::new(), identities: Table::new() }
    }

    /// Saves `secret` as the identity `name`, in place of an identity of that
    /// name if there is one. The networks stay as they are.
    pub fn write_identity(&mut self, name: &str, secret: &Secret) -> (r: Result<(), Error>)
        ensures
            r is Ok,
            final(self).identities() == old(self).identities().insert(name@, secret@),
            final(self).networks() == old(self).networks(),
    {
        self.identities.insert(name.to_owned(), secret.clone());
        Ok(())
    }

    /// The identity saved as `name`; `NotFound` where there is none.
    pub fn read_identity(&self, name: &str) -> (r: Result<Secret, Error>)
        ensures
            identity_result(r) == lookup(self.identities(), name@),
    {
        match self.identities.get(name) {
            Some(secret) => Ok(secret.clone()),
            None => Err(Error::NotFound(name.to_owned())),
        }
    }

    /// Saves `network` as the network `name`, in place of a network of that
    /// name if there is one. The identities stay as they are.
    pub fn write_network(&mut self, name: &str, network: &Network) -> (r: Result<(), Error>)
        ensures
            r is Ok,
            final(self).networks() == old(self).networks().insert(name@, network@),
            final(self).identities() == old(self).identities(),
    {
        self.networks.insert(name.to_owned(), network.clone());
        Ok(())
    }

    /// The network saved as `name`; `NotFound` where there is none.
    pub fn read_network(&self, name: &str) -> (r: Result<Network, Error>)
        ensures
            network_result(r) == lookup(self.networks(), name@),
    {
        match self.networks.get(name) {
            Some(network) => Ok(network.clone()),
            None => Err(Error::NotFound(name.to_owned())),
        }
    }

    /// Removes the network saved as `name`; `NotFound`, and no change, where
    /// there is none. The identities stay as they are.
    pub fn remove_network(&mut self, name: &str) -> (r: Result<(), Error>)
        ensures
            unit_result(r) == (if old(self).networks().contains_key(name@) {
                Ok::<(), ErrorView>(())
            } else {
                Err::<(), ErrorView>(ErrorView::NotFound(name@))
            }),
            final(self).networks() == old(self).networks().remove(name@),
            final(self).identities() == old(self).identities(),
    {
        if self.networks.remove(name) {
            Ok(())
        } else {
            Err(Error::NotFound(name.to_owned()))
        }
    }

    /// The names of the saved networks, each once.
    pub fn list_networks(&self) -> (r: Vec<String>)
        ensures
            forall|i: int, j: int| 0 <= i < j < r@.len() ==> r@[i]@ != r@[j]@,
            forall|name: Seq<char>|
                self.networks().contains_key(name) <==> exists|i: int|
                    0 <= i < r@.len() && r@[i]@ == name,
    {
        self.networks.names()
    }
}

} // verus!
