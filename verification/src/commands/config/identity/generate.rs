//! Generating an identity: a secret is made, saved under a name, and, where a
//! network is selected, funding of its address begins.

use vstd::prelude::*;
use vstd::utf8::encode_utf8;
use crate::commands::config::locator;
use crate::commands::config::locator::ConfigLocator;
use crate::commands::config::network;
use crate::commands::config::network::{HelperUrlQuery, HelperUrlQueryView, NetworkView};
use crate::commands::config::secret;
use crate::commands::config::secret::{Secret, SecretView};
use crate::keys::{strkey_private_text, strkey_public_text};
use crate::text::view_of;

verus! {

/// Why an identity could not be generated.
#[derive(Clone, PartialEq, Eq, Debug)]
pub enum Error {
    /// The store of saved entries failed.
    Config(locator::Error),
    /// The secret could not be made, or a key could not be derived from it.
    Secret(secret::Error),
    /// No network could be selected.
    Network(network::Error),
}

/// The mathematical value of an `Error`.
pub enum ErrorView {
    Config(locator::ErrorView),
    Secret(secret::Error),
    Network(network::ErrorView),
}

impl View for Error {
    type V = ErrorView;

    open spec fn view(&self) -> ErrorView {
        match self {
            Error::Config(e) => ErrorView::Config(e@),
            Error::Secret(e) => ErrorView::Secret(*e),
            Error::Network(e) => ErrorView::Network(e@),
        }
    }
}

/// What is asked when an identity is generated.
#[derive(Clone, Debug)]
pub struct Cmd {
    /// Name of identity.
    pub name: String,
    /// Optional seed to use when generating the seed phrase. Random otherwise.
    pub seed: Option<String>,
    /// Save the generated identity as a secret key.
    pub as_secret: bool,
    /// When generating a secret key, which HD path of the seed phrase gives
    /// it. The saved secret is asked for its address at this path too, and a
    /// saved secret key refuses a path.
    pub hd_path: Option<usize>,
    /// Generate the default seed phrase. Useful for testing. Equivalent to
    /// the seed `0000000000000000`, and takes precedence over `seed`.
    pub default_seed: bool,
    /// The network on which to fund the identity, if any.
    pub network: network::Args,
}

/// The mathematical value of a `Cmd`.
pub struct CmdView {
    pub name: Seq<char>,
    pub seed: Option<Seq<char>>,
    pub as_secret: bool,
    pub hd_path: Option<usize>,
    pub default_seed: bool,
    pub network: network::ArgsView,
}

impl View for Cmd {
    type V = CmdView;

    open spec fn view(&self) -> CmdView {
        CmdView {
            name: self.name@,
            seed: view_of(self.seed),
            as_secret: self.as_secret,
            hd_path: self.hd_path,
            default_seed: self.default_seed,
            network: self.network@,
        }
    }
}

/// The view of what `run` returns.
pub open spec fn run_result(r: Result<Option<HelperUrlQuery>, Error>) -> Result<
    Option<HelperUrlQueryView>,
    ErrorView,
> {
    match r {
        Ok(Some(query)) => Ok(Some(query@)),
        Ok(None) => Ok(None),
        Err(e) => Err(e@),
    }
}

/// Whether `seed_phrase` is a seed phrase that `cmd` asks for: the fixed
/// phrase with the default-seed switch, else the phrase of the seed, else any
/// phrase that the generator gives without a seed.
pub open spec fn chosen(cmd: CmdView, seed_phrase: Result<SecretView, secret::Error>) -> bool {
    if cmd.default_seed {
        seed_phrase == secret::seeded(secret::test_seed())
    } else {
        match cmd.seed {
            Some(seed) => seed_phrase == secret::seeded(encode_utf8(seed)),
            None => seed_phrase matches Ok(phrase) && secret::generated(phrase),
        }
    }
}

/// The secret that is saved for `seed_phrase`: the phrase itself, or, where a
/// secret key is asked for, its private key at the HD path as a raw key.
pub open spec fn secret_to_save(cmd: CmdView, seed_phrase: SecretView) -> Result<
    SecretView,
    secret::Error,
> {
    if cmd.as_secret {
        match secret::private_key_of(seed_phrase, cmd.hd_path) {
            Ok(key) => Ok(SecretView::SecretKey { secret_key: strkey_private_text(key) }),
            Err(e) => Err(e),
        }
    } else {
        Ok(seed_phrase)
    }
}

/// What follows once `secret` is saved under the name. Where nothing was said
/// about the network: nothing. Else the saved secret is asked for its public
/// key at the HD path, which a raw key refuses where a path is given; the
/// network is selected; and funding begins with a query to its RPC endpoint.
pub open spec fn funding_of(cmd: CmdView, secret: SecretView, saved: Map<Seq<char>, NetworkView>)
    -> Result<Option<HelperUrlQueryView>, ErrorView> {
    if network::no_network(cmd.network) {
        Ok(None)
    } else {
        match secret::public_key_of(secret, cmd.hd_path) {
            Err(e) => Err(ErrorView::Secret(e)),
            Ok(address) => match network::resolved(cmd.network, saved) {
                Err(e) => Err(ErrorView::Network(e)),
                Ok(selected) => Ok(
                    Some(
                        HelperUrlQueryView {
                            rpc_url: selected.rpc_url,
                            address: strkey_public_text(address),
                        },
                    ),
                ),
            },
        }
    }
}

/// Generating failed before anything was saved: the store is as it was, and
/// the error is returned.
pub open spec fn nothing_saved(
    e: secret::Error,
    before: &ConfigLocator,
    after: &ConfigLocator,
    result: Result<Option<HelperUrlQueryView>, ErrorView>,
) -> bool {
    &&& result == Err::<Option<HelperUrlQueryView>, ErrorView>(ErrorView::Secret(e))
    &&& after.identities() == before.identities()
    &&& after.networks() == before.networks()
}

/// What generating does with the chosen `seed_phrase`, as a relation between
/// the store before and after and the result. Where no seed phrase or no
/// secret could be made, nothing is saved. Else the secret is saved under the
/// name, in place of an identity of that name, the networks stay, and the
/// result is that of `funding_of` for the saved secret: where that is an
/// error, the identity stays saved.
pub open spec fn generates(
    cmd: CmdView,
    seed_phrase: Result<SecretView, secret::Error>,
    before: &ConfigLocator,
    after: &ConfigLocator,
    result: Result<Option<HelperUrlQueryView>, ErrorView>,
) -> bool {
    match seed_phrase {
        Err(e) => nothing_saved(e, before, after, result),
        Ok(phrase) => match secret_to_save(cmd, phrase) {
            Err(e) => nothing_saved(e, before, after, result),
            Ok(secret) => {
                &&& result == funding_of(cmd, secret, before.networks())
                &&& after.identities() == before.identities().insert(cmd.name, secret)
                &&& after.networks() == before.networks()
            },
        },
    }
}

impl Cmd {
    /// What follows once `secret` is saved: the query with which funding
    /// begins, or `None` where nothing was said about the network.
    pub fn funding(&self, secret: &Secret, locator: &ConfigLocator) -> (r: Result<
        Option<HelperUrlQuery>,
        Error,
    >)
        ensures
            run_result(r) == funding_of(self@, secret@, locator.networks()),
    {
        if self.network.is_no_network() {
            return Ok(None);
        }
        let address = match secret.public_key(self.hd_path) {
            Ok(address) => address,
            Err(e) => {
                return Err(Error::Secret(e));
            },
        };
        match self.network.get(locator) {
            Ok(selected) => Ok(Some(selected.fund_address(&address))),
            Err(e) => Err(Error::Network(e)),
        }
    }

    /// Generates the identity from a seed phrase that was chosen already.
    pub fn save(&self, seed_phrase: Result<Secret, secret::Error>, locator: &mut ConfigLocator)
        -> (r: Result<Option<HelperUrlQuery>, Error>)
        ensures
            generates(
                self@,
                secret::secret_result(seed_phrase),
                old(locator),
                final(locator),
                run_result(r),
            ),
    {
        let seed_phrase = match seed_phrase {
            Ok(seed_phrase) => seed_phrase,
            Err(e) => {
                return Err(Error::Secret(e));
            },
        };
        let secret = if self.as_secret {
            match seed_phrase.private_key(self.hd_path) {
                Ok(key) => Secret::SecretKey { secret_key: key.to_string() },
                Err(e) => {
                    return Err(Error::Secret(e));
                },
            }
        } else {
            seed_phrase
        };
        match locator.write_identity(self.name.as_str(), &secret) {
            Ok(_) => {},
            Err(e) => {
                return Err(Error::Config(e));
            },
        }
        self.funding(&secret, locator)
    }

    /// Generates the identity: chooses the seed phrase, saves the secret in
    /// `locator`, and returns the query with which funding begins, or `None`
    /// where nothing was said about the network.
    pub fn run(&self, locator: &mut ConfigLocator) -> (r: Result<Option<HelperUrlQuery>, Error>)
        ensures
            exists|seed_phrase: Result<SecretView, secret::Error>| #[trigger]
                chosen(self@, seed_phrase) && generates(
                    self@,
                    seed_phrase,
                    old(locator),
                    final(locator),
                    run_result(r),
                ),
    {
        let seed_phrase = if self.default_seed {
            Secret::test_seed_phrase()
        } else {
            match &self.seed {
                Some(seed) => Secret::from_seed(Some(seed.as_str())),
                None => Secret::from_seed(None),
            }
        };
        proof {
            assert(chosen(self@, secret::secret_result(seed_phrase)));
        }
        self.save(seed_phrase, locator)
    }
}

/// A failure after saving is returned, and the identity stays saved: whatever
/// funding comes to, the secret is in the store under the name.
pub proof fn lemma_saved_identity_stays(
    cmd: CmdView,
    seed_phrase: SecretView,
    secret: SecretView,
    before: &ConfigLocator,
    after: &ConfigLocator,
    result: Result<Option<HelperUrlQueryView>, ErrorView>,
)
    requires
        secret_to_save(cmd, seed_phrase) == Ok::<SecretView, secret::Error>(secret),
        generates(cmd, Ok(seed_phrase), before, after, result),
    ensures
        after.identities().contains_key(cmd.name),
        after.identities()[cmd.name] == secret,
        result == funding_of(cmd, secret, before.networks()),
{
}

/// A saved raw key has no HD paths. Where a secret key is saved, an HD path
/// is given and something is said about the network, the key is saved, and
/// funding does not begin: the result is `HdPathNotApplicable`.
pub proof fn lemma_saved_key_has_no_hd_path(
    cmd: CmdView,
    seed_phrase: SecretView,
    before: &ConfigLocator,
    after: &ConfigLocator,
    result: Result<Option<HelperUrlQueryView>, ErrorView>,
)
    requires
        cmd.as_secret,
        cmd.hd_path is Some,
        !network::no_network(cmd.network),
        secret::private_key_of(seed_phrase, cmd.hd_path) is Ok,
        generates(cmd, Ok(seed_phrase), before, after, result),
    ensures
        result == Err::<Option<HelperUrlQueryView>, ErrorView>(
            ErrorView::Secret(secret::Error::HdPathNotApplicable),
        ),
        after.identities() == before.identities().insert(
            cmd.name,
            SecretView::SecretKey {
                secret_key: strkey_private_text(
                    secret::private_key_of(seed_phrase, cmd.hd_path)->Ok_0,
                ),
            },
        ),
{
}

/// Generating with a network is generating without one, followed by
/// `funding` of the saved secret: the store is left the same, and the result
/// is that of `funding_of`.
pub proof fn lemma_funding_follows_saving(
    cmd: CmdView,
    seed_phrase: SecretView,
    secret: SecretView,
    before: &ConfigLocator,
    after: &ConfigLocator,
)
    requires
        secret_to_save(cmd, seed_phrase) == Ok::<SecretView, secret::Error>(secret),
        generates(
            CmdView {
                network: network::ArgsView {
                    rpc_url: None,
                    network_passphrase: None,
                    network: None,
                },
                ..cmd
            },
            Ok(seed_phrase),
            before,
            after,
            Ok(None),
        ),
    ensures
        generates(cmd, Ok(seed_phrase), before, after, funding_of(cmd, secret, before.networks())),
        after.networks() == before.networks(),
{
}

/// Without a seed, the phrase that is saved is the mnemonic of the 16 bytes
/// that the generator drew, and of nothing else: it is the same for the same
/// bytes. (Whether different bytes give different phrases is the generator's
/// matter and is not stated here.)
pub proof fn lemma_unseeded_phrase_is_of_the_drawn_entropy(
    cmd: CmdView,
    seed_phrase: Result<SecretView, secret::Error>,
    before: &ConfigLocator,
    after: &ConfigLocator,
    result: Result<Option<HelperUrlQueryView>, ErrorView>,
)
    requires
        !cmd.default_seed,
        cmd.seed is None,
        !cmd.as_secret,
        network::no_network(cmd.network),
        chosen(cmd, seed_phrase),
        generates(cmd, seed_phrase, before, after, result),
    ensures
        result == Ok::<Option<HelperUrlQueryView>, ErrorView>(None),
        exists|entropy: Seq<u8>|
            entropy.len() == 16 && after.identities() == before.identities().insert(
                cmd.name,
                SecretView::SeedPhrase { seed_phrase: #[trigger] secret::mnemonic_phrase(entropy) },
            ),
{
    let phrase = seed_phrase->Ok_0->seed_phrase;
    let entropy = choose|entropy: Seq<u8>|
        entropy.len() == 16 && phrase == #[trigger] secret::mnemonic_phrase(entropy);
    assert(after.identities() == before.identities().insert(
        cmd.name,
        SecretView::SeedPhrase { seed_phrase: secret::mnemonic_phrase(entropy) },
    ));
}

/// Where a secret key is saved and nothing is said about the network, the
/// key that is saved is the private key of the seed phrase at the HD path, as
/// strkey text. (Whether different paths give different keys is the
/// derivation's matter and is not stated here.)
pub proof fn lemma_key_of_the_hd_path_is_saved(
    cmd: CmdView,
    seed_phrase: SecretView,
    key: Seq<u8>,
    before: &ConfigLocator,
    after: &ConfigLocator,
    result: Result<Option<HelperUrlQueryView>, ErrorView>,
)
    requires
        cmd.as_secret,
        network::no_network(cmd.network),
        secret::private_key_of(seed_phrase, cmd.hd_path) == Ok::<Seq<u8>, secret::Error>(key),
        generates(cmd, Ok(seed_phrase), before, after, result),
    ensures
        result == Ok::<Option<HelperUrlQueryView>, ErrorView>(None),
        after.identities() == before.identities().insert(
            cmd.name,
            SecretView::SecretKey { secret_key: strkey_private_text(key) },
        ),
{
}

} // verus!
