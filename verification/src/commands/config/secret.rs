//! A secret is a mnemonic seed phrase or a raw private key. Key pairs are
//! derived from it, for a seed phrase at a hierarchical-deterministic (HD)
//! path index.
//!
//! Phrases are made and keys are derived by the `sep5` crate. What it returns
//! is named by `mnemonic_phrase` and `hd_private_key`; the wrappers at the end
//! of this file are the only places where the crate is called, and their
//! contracts are believed, not proved.

use vstd::prelude::*;
use vstd::string::StringSliceAdditionalSpecFns;
use vstd::utf8::encode_utf8;
use crate::keys::{ed25519_public_key, strkey_private_key, PrivateKey, PublicKey};

verus! {

broadcast use vstd::string::group_string_axioms;

/// Why a secret could not be made or a key could not be derived.
#[derive(Clone, Copy, PartialEq, Eq, Structural, Debug)]
pub enum Error {
    /// The seed cannot seed the phrase generator: it is not 16, 20, 24, 28 or
    /// 32 bytes long.
    InvalidSeed,
    /// The seed phrase is not a valid mnemonic (word count, word list, checksum).
    InvalidSeedPhrase,
    /// The HD path index lies outside the range of hardened derivation.
    InvalidHdPath,
    /// An HD path was asked of a raw key, from which nothing can be derived.
    HdPathNotApplicable,
    /// The text is not the strkey of a private key.
    InvalidSecretKey,
}

/// A mnemonic seed phrase or an already-derived private key.
#[derive(PartialEq, Eq)]
pub enum Secret {
    /// A private key in its strkey text form.
    SecretKey { secret_key: String },
    /// A mnemonic phrase.
    SeedPhrase { seed_phrase: String },
}

/// The mathematical value of a `Secret`.
pub enum SecretView {
    SecretKey { secret_key: Seq<char> },
    SeedPhrase { seed_phrase: Seq<char> },
}

impl View for Secret {
    type V = SecretView;

    open spec fn view(&self) -> SecretView {
        match self {
            Secret::SecretKey { secret_key } => SecretView::SecretKey { secret_key: secret_key@ },
            Secret::SeedPhrase { seed_phrase } => SecretView::SeedPhrase {
                seed_phrase: seed_phrase@,
            },
        }
    }
}

impl Clone for Secret {
    fn clone(&self) -> (r: Secret)
        ensures
            r@ == self@,
    {
        match self {
            Secret::SecretKey { secret_key } => Secret::SecretKey { secret_key: secret_key.clone() },
            Secret::SeedPhrase { seed_phrase } => Secret::SeedPhrase {
                seed_phrase: seed_phrase.clone(),
            },
        }
    }
}

/// The mnemonic phrase that `sep5::SeedPhrase::from_entropy` makes of `entropy`.
pub uninterp spec fn mnemonic_phrase(entropy: Seq<u8>) -> Seq<char>;

/// The private key that `sep5` derives from the mnemonic `phrase` at the path
/// `m/44'/148'/index'` (`SeedPhrase::from_str`, then `from_path_index` with no
/// passphrase), or `None` where it rejects the phrase.
pub uninterp spec fn hd_private_key(phrase: Seq<char>, index: nat) -> Option<Seq<u8>>;

/// The largest HD path index: derivation is hardened, so the index has 31 bits.
pub const MAX_HD_PATH: usize = 0x7fff_ffff;

/// The seed given with the default-seed switch: sixteen `0` characters.
pub open spec fn test_seed() -> Seq<u8> {
    Seq::new(16, |i: int| 0x30u8)
}

/// The entropy lengths, in bytes, that a mnemonic can be made of.
pub open spec fn valid_entropy_len(len: nat) -> bool {
    len == 16 || len == 20 || len == 24 || len == 28 || len == 32
}

/// What `from_seed` returns for the seed bytes `seed`.
pub open spec fn seeded(seed: Seq<u8>) -> Result<SecretView, Error> {
    if valid_entropy_len(seed.len()) {
        Ok(SecretView::SeedPhrase { seed_phrase: mnemonic_phrase(seed) })
    } else {
        Err(Error::InvalidSeed)
    }
}

/// Whether `phrase` is one that the generator can give without a seed: the
/// mnemonic of some 16 bytes of entropy (twelve words).
pub open spec fn twelve_words(phrase: Seq<char>) -> bool {
    exists|entropy: Seq<u8>| entropy.len() == 16 && phrase == #[trigger] mnemonic_phrase(entropy)
}

/// Whether `secret` is a seed phrase that the generator can give without a seed.
pub open spec fn generated(secret: SecretView) -> bool {
    secret matches SecretView::SeedPhrase { seed_phrase } && twelve_words(seed_phrase)
}

/// The HD path index that is used where none is given.
pub open spec fn hd_index(hd_path: Option<usize>) -> usize {
    match hd_path {
        Some(index) => index,
        None => 0,
    }
}

/// The private key of `secret` at `hd_path`.
pub open spec fn private_key_of(secret: SecretView, hd_path: Option<usize>) -> Result<
    Seq<u8>,
    Error,
> {
    match secret {
        SecretView::SecretKey { secret_key } => if hd_path is Some {
            Err(Error::HdPathNotApplicable)
        } else {
            match strkey_private_key(secret_key) {
                Some(key) => Ok(key),
                None => Err(Error::InvalidSecretKey),
            }
        },
        SecretView::SeedPhrase { seed_phrase } => if hd_index(hd_path) > MAX_HD_PATH {
            Err(Error::InvalidHdPath)
        } else {
            match hd_private_key(seed_phrase, hd_index(hd_path) as nat) {
                Some(key) => Ok(key),
                None => Err(Error::InvalidSeedPhrase),
            }
        },
    }
}

/// The public key of `secret` at `hd_path`: the one that belongs to its
/// private key there.
pub open spec fn public_key_of(secret: SecretView, hd_path: Option<usize>) -> Result<
    Seq<u8>,
    Error,
> {
    match private_key_of(secret, hd_path) {
        Ok(key) => Ok(ed25519_public_key(key)),
        Err(e) => Err(e),
    }
}

/// The view of a result that holds a secret.
pub open spec fn secret_result(r: Result<Secret, Error>) -> Result<SecretView, Error> {
    match r {
        Ok(secret) => Ok(secret@),
        Err(e) => Err(e),
    }
}

/// The view of a result that holds a private key.
pub open spec fn private_key_result(r: Result<PrivateKey, Error>) -> Result<Seq<u8>, Error> {
    match r {
        Ok(key) => Ok(key@),
        Err(e) => Err(e),
    }
}

/// The view of a result that holds a public key.
pub open spec fn public_key_result(r: Result<PublicKey, Error>) -> Result<Seq<u8>, Error> {
    match r {
        Ok(key) => Ok(key@),
        Err(e) => Err(e),
    }
}

impl Secret {
    /// The seed phrase for the seed bytes `seed`: the same phrase for the same
    /// bytes, and `InvalidSeed` where their number is not one that a mnemonic
    /// can be made of.
    pub fn from_entropy(seed: &[u8]) -> (r: Result<Secret, Error>)
        ensures
            secret_result(r) == seeded(seed@),
    {
        if seed.len() > 32 {
            return Err(Error::InvalidSeed);
        }
        Secret::from_phrase(phrase_from_entropy(seed))
    }

    /// Wraps what the phrase generator gave: the phrase as a secret, and
    /// `InvalidSeed` where it gave none.
    pub fn from_phrase(phrase: Option<String>) -> (r: Result<Secret, Error>)
        ensures
            match phrase {
                Some(seed_phrase) => secret_result(r) == Ok::<SecretView, Error>(
                    SecretView::SeedPhrase { seed_phrase: seed_phrase@ },
                ),
                None => secret_result(r) == Err::<SecretView, Error>(Error::InvalidSeed),
            },
    {
        match phrase {
            Some(seed_phrase) => Ok(Secret::SeedPhrase { seed_phrase }),
            None => Err(Error::InvalidSeed),
        }
    }

    /// A seed phrase: the one that the UTF-8 bytes of `seed` determine, or a
    /// random one of twelve words where no seed is given.
    pub fn from_seed(seed: Option<&str>) -> (r: Result<Secret, Error>)
        ensures
            match seed {
                Some(seed) => secret_result(r) == seeded(encode_utf8(seed@)),
                None => r matches Ok(secret) && generated(secret@),
            },
    {
        match seed {
            Some(seed) => Secret::from_entropy(seed.as_bytes()),
            None => Secret::from_phrase(random_phrase()),
        }
    }

    /// The fixed seed phrase for reproducible fixtures: the one of the seed
    /// `0000000000000000`.
    pub fn test_seed_phrase() -> (r: Result<Secret, Error>)
        ensures
            secret_result(r) == Ok::<SecretView, Error>(
                SecretView::SeedPhrase { seed_phrase: mnemonic_phrase(test_seed()) },
            ),
    {
        let seed = "0000000000000000";
        proof {
            reveal_strlit("0000000000000000");
            assert(vstd::string::is_ascii(seed));
            vstd::string::is_ascii_spec_bytes(seed);
            assert('0' as u8 == 0x30u8);
            assert(forall|i: int| 0 <= i < 16 ==> seed@[i] == '0');
            assert(seed.spec_bytes() =~= test_seed());
        }
        Secret::from_seed(Some(seed))
    }

    /// The private key: of a raw key the key itself, and no HD path may be
    /// asked of it; of a seed phrase the key derived at `hd_path`, or at index
    /// 0 where none is given.
    pub fn private_key(&self, hd_path: Option<usize>) -> (r: Result<PrivateKey, Error>)
        ensures
            private_key_result(r) == private_key_of(self@, hd_path),
    {
        match self {
            Secret::SecretKey { secret_key } => {
                if hd_path.is_some() {
                    return Err(Error::HdPathNotApplicable);
                }
                match PrivateKey::from_string(secret_key.as_str()) {
                    Some(key) => Ok(key),
                    None => Err(Error::InvalidSecretKey),
                }
            },
            Secret::SeedPhrase { seed_phrase } => {
                let index: usize = match hd_path {
                    Some(index) => index,
                    None => 0,
                };
                if index > MAX_HD_PATH {
                    return Err(Error::InvalidHdPath);
                }
                match derive_private_key(seed_phrase.as_str(), index) {
                    Some(bytes) => Ok(PrivateKey(bytes)),
                    None => Err(Error::InvalidSeedPhrase),
                }
            },
        }
    }

    /// The public key that belongs to `private_key(hd_path)`.
    pub fn public_key(&self, hd_path: Option<usize>) -> (r: Result<PublicKey, Error>)
        ensures
            public_key_result(r) == public_key_of(self@, hd_path),
    {
        match self.private_key(hd_path) {
            Ok(key) => Ok(key.public_key()),
            Err(e) => Err(e),
        }
    }
}

/// Seeding is deterministic: two results of `from_seed` for the same seed are
/// the same secret or the same error, and so are the private and the public
/// keys derived from them at any one HD path.
pub proof fn lemma_from_seed_is_deterministic(
    seed: Seq<char>,
    first: Result<SecretView, Error>,
    second: Result<SecretView, Error>,
    hd_path: Option<usize>,
)
    requires
        first == seeded(encode_utf8(seed)),
        second == seeded(encode_utf8(seed)),
    ensures
        first == second,
        first matches Ok(a) ==> second matches Ok(b) && private_key_of(a, hd_path)
            == private_key_of(b, hd_path) && public_key_of(a, hd_path) == public_key_of(
            b,
            hd_path,
        ),
{
}

/// Where no HD path is given, a key is derived at index 0.
pub proof fn lemma_default_hd_path_is_zero(secret: SecretView)
    requires
        secret is SeedPhrase,
    ensures
        private_key_of(secret, None) == private_key_of(secret, Some(0usize)),
        public_key_of(secret, None) == public_key_of(secret, Some(0usize)),
{
}

/// A raw key has no HD paths: asking for one fails, whatever the key and the index.
pub proof fn lemma_raw_key_has_no_hd_path(secret: SecretView, index: usize)
    requires
        secret is SecretKey,
    ensures
        private_key_of(secret, Some(index)) == Err::<Seq<u8>, Error>(Error::HdPathNotApplicable),
        public_key_of(secret, Some(index)) == Err::<Seq<u8>, Error>(Error::HdPathNotApplicable),
{
}

/// Calls `sep5::SeedPhrase::from_entropy` and takes the phrase of the result.
/// Believed: the call succeeds exactly where the entropy is 16, 20, 24, 28 or
/// 32 bytes long (its only check is the mnemonic type for that key size), and
/// the phrase is a function of the entropy alone.
#[verifier::external_body]
fn phrase_from_entropy(entropy: &[u8]) -> (r: Option<String>)
    requires
        entropy@.len() <= 32,
    ensures
        r is Some <==> valid_entropy_len(entropy@.len()),
        r matches Some(phrase) ==> phrase@ == mnemonic_phrase(entropy@),
{
    sep5::SeedPhrase::from_entropy(entropy).ok().map(|phrase| phrase.seed_phrase.into_phrase())
}

/// Calls `sep5::SeedPhrase::random` for twelve words and takes the phrase of
/// the result. Believed: the call gives a phrase, made as by `from_entropy`
/// of 16 bytes (which the crate draws from the thread's random number
/// generator). Nothing is claimed about which bytes they are.
#[verifier::external_body]
fn random_phrase() -> (r: Option<String>)
    ensures
        r is Some,
        r matches Some(phrase) ==> twelve_words(phrase@),
{
    sep5::SeedPhrase::random(sep5::MnemonicType::Words12).ok().map(
        |phrase| phrase.seed_phrase.into_phrase(),
    )
}

/// Calls `sep5::SeedPhrase::from_str` on `phrase`, then `from_path_index`
/// with `index` and no passphrase, and takes the private key of the pair.
/// Believed: whether the phrase is accepted, and the 32 bytes derived, are
/// functions of the phrase and the index alone. Indices of more than 31 bits
/// are kept out: the crate adds the hardening bit to the index unchecked.
#[verifier::external_body]
fn derive_private_key(phrase: &str, index: usize) -> (r: Option<[u8; 32]>)
    requires
        index <= MAX_HD_PATH,
    ensures
        match r {
            Some(key) => hd_private_key(phrase@, index as nat) == Some(key@),
            None => hd_private_key(phrase@, index as nat) is None,
        },
{
    let seed_phrase: sep5::SeedPhrase = phrase.parse().ok()?;
    seed_phrase.from_path_index(index, None).ok().map(|pair| pair.private().0)
}

} // verus!
