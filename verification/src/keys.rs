//! Ed25519 key material and its textual (strkey) form.
//!
//! The encoding, the decoding and the curve arithmetic are done by the
//! `stellar-strkey` and `ed25519-dalek` crates. Their results are named by the
//! uninterpreted functions below; the wrappers at the end of this file are the
//! only places where those crates are called, and their contracts are believed,
//! not proved.

use vstd::prelude::*;

verus! {

/// The strkey text (`G...`) of a 32-byte public key, as
/// `stellar_strkey::ed25519::PublicKey::to_string` renders it.
pub uninterp spec fn strkey_public_text(key: Seq<u8>) -> Seq<char>;

/// The strkey text (`S...`) of a 32-byte private key, as `to_string` on an
/// unredacted `stellar_strkey::ed25519::PrivateKey` renders it.
pub uninterp spec fn strkey_private_text(key: Seq<u8>) -> Seq<char>;

/// The 32 bytes that `stellar_strkey::ed25519::PrivateKey::from_string` decodes
/// from `text`, or `None` where it rejects `text`.
pub uninterp spec fn strkey_private_key(text: Seq<char>) -> Option<Seq<u8>>;

/// The public key that `ed25519_dalek` derives from a 32-byte secret key.
pub uninterp spec fn ed25519_public_key(secret: Seq<u8>) -> Seq<u8>;

/// A raw Ed25519 private key (the 32-byte seed).
#[derive(Clone, PartialEq, Eq)]
pub struct PrivateKey(pub [u8; 32]);

/// A raw Ed25519 public key.
#[derive(Clone, Copy, PartialEq, Eq, Debug)]
pub struct PublicKey(pub [u8; 32]);

impl View for PrivateKey {
    type V = Seq<u8>;

    open spec fn view(&self) -> Seq<u8> {
        self.0@
    }
}

impl View for PublicKey {
    type V = Seq<u8>;

    open spec fn view(&self) -> Seq<u8> {
        self.0@
    }
}

impl PrivateKey {
    /// Decodes a private key from its strkey text. `None` where the text is
    /// not the strkey of a private key.
    pub fn from_string(s: &str) -> (r: Option<PrivateKey>)
        ensures
            match r {
                Some(key) => strkey_private_key(s@) == Some(key@),
                None => strkey_private_key(s@) is None,
            },
    {
        match decode_private_key(s) {
            Ok(bytes) => Some(PrivateKey(bytes)),
            Err(_) => None,
        }
    }

    /// The strkey text of this key.
    pub fn to_string(&self) -> (r: String)
        ensures
            r@ == strkey_private_text(self@),
    {
        encode_private_key(&self.0)
    }

    /// The public key that belongs to this private key.
    pub fn public_key(&self) -> (r: PublicKey)
        ensures
            r@ == ed25519_public_key(self@),
    {
        PublicKey(derive_public_key(&self.0))
    }
}

impl PublicKey {
    /// The strkey text of this key.
    pub fn to_string(&self) -> (r: String)
        ensures
            r@ == strkey_public_text(self@),
    {
        encode_public_key(&self.0)
    }
}

/// The error of `stellar-strkey`'s decoders. Nothing is read from it.
#[verifier::external_type_specification]
#[verifier::external_body]
pub struct ExDecodeError(stellar_strkey::DecodeError);

/// Calls `stellar_strkey::ed25519::PublicKey::to_string` on the key made of
/// `key`. Believed: the text is a function of the 32 bytes alone.
#[verifier::external_body]
fn encode_public_key(key: &[u8; 32]) -> (r: String)
    ensures
        r@ == strkey_public_text(key@),
{
    stellar_strkey::ed25519::PublicKey(*key).to_string().as_str().to_owned()
}

/// Calls `to_string` on the unredacted `stellar_strkey::ed25519::PrivateKey`
/// made of `key`. Believed: the text is a function of the 32 bytes alone.
#[verifier::external_body]
fn encode_private_key(key: &[u8; 32]) -> (r: String)
    ensures
        r@ == strkey_private_text(key@),
{
    stellar_strkey::ed25519::PrivateKey(*key).as_unredacted().to_string().as_str().to_owned()
}

/// Calls `stellar_strkey::ed25519::PrivateKey::from_string`. Believed: whether
/// it accepts `s`, and the 32 bytes it yields, are functions of `s` alone.
#[verifier::external_body]
fn decode_private_key(s: &str) -> (r: Result<[u8; 32], stellar_strkey::DecodeError>)
    ensures
        match r {
            Ok(bytes) => strkey_private_key(s@) == Some(bytes@),
            Err(_) => strkey_private_key(s@) is None,
        },
{
    stellar_strkey::ed25519::PrivateKey::from_string(s).map(|key| key.0)
}

/// Calls `ed25519_dalek::SigningKey::from_bytes`, then `verifying_key` and
/// `to_bytes`. Believed: the public key is a function of the secret key alone.
#[verifier::external_body]
fn derive_public_key(secret: &[u8; 32]) -> (r: [u8; 32])
    ensures
        r@ == ed25519_public_key(secret@),
{
    ed25519_dalek::SigningKey::from_bytes(secret).verifying_key().to_bytes()
}

} // verus!
