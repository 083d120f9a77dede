//! Message authentication: HMAC-SHA-256 keys.
//!
//! An `HmacKey` computes and verifies 32-byte tags over bytes.  The tag
//! is a deterministic function of the key and the data; verification
//! succeeds exactly when the presented tag is that function's value.

use vstd::prelude::*;

use hmac::{Hmac, Mac};
use sha2::Sha256;

use crate::errors::InvalidKeySizeError;
use crate::identifier::{KeyIdentifier, KeyIdentifierView};

verus! {

/// The HMAC-SHA-256 tag over data under a key: 32 bytes, deterministic
/// in both arguments.
pub uninterp spec fn hmac_sha256(key: Seq<u8>, data: Seq<u8>) -> Seq<u8>;

/// Relies on hmac's `Hmac::<Sha256>`: `new_from_slice` accepts keys of
/// any size, and the finalized output is the 32-byte HMAC-SHA-256 tag,
/// a deterministic function of key and data.
#[verifier::external_body]
fn hmac_sha256_tag(key: &[u8], data: &[u8]) -> (r: Vec<u8>)
    ensures
        r@ == hmac_sha256(key@, data@),
        r@.len() == 32,
{
    let mut mac = <Hmac<Sha256> as Mac>::new_from_slice(key).expect("HMAC accepts any key size");
    mac.update(data);
    mac.finalize().into_bytes().to_vec()
}

/// Relies on hmac's `Mac::verify_slice`: it succeeds exactly when the
/// presented bytes equal the computed tag, compared in constant time.
#[verifier::external_body]
fn hmac_sha256_check(key: &[u8], data: &[u8], tag: &[u8]) -> (r: bool)
    ensures
        r == (tag@ == hmac_sha256(key@, data@)),
{
    let mut mac = <Hmac<Sha256> as Mac>::new_from_slice(key).expect("HMAC accepts any key size");
    mac.update(data);
    mac.verify_slice(tag).is_ok()
}

/// The presented tag did not match the computed tag.
#[derive(Debug, Clone, Copy, PartialEq, Eq, Structural)]
pub struct InvalidMacError;

/// The mathematical value of an `HmacKey`.
pub struct HmacKeyView {
    pub key: Seq<u8>,
    pub id: KeyIdentifierView,
}

/// A 32-byte MAC key with its identity.
#[derive(Debug)]
pub struct HmacKey {
    key: Vec<u8>,
    id: KeyIdentifier,
}

impl View for HmacKey {
    type V = HmacKeyView;

    closed spec fn view(&self) -> HmacKeyView {
        HmacKeyView { key: self.key@, id: self.id@ }
    }
}

impl HmacKey {
    /// Width of a MAC key in bytes.
    pub const KEY_SIZE: usize = 32;

    /// Imports MAC key material; the length is validated, any other
    /// length is rejected.
    pub fn new(key: Vec<u8>, id: KeyIdentifier) -> (r: Result<Self, InvalidKeySizeError>)
        ensures
            key@.len() == HmacKey::KEY_SIZE ==> (r matches Ok(k) && k@.key == key@ && k@.id
                == id@),
            key@.len() != HmacKey::KEY_SIZE ==> (r matches Err(e) && e == (InvalidKeySizeError {
                expected: HmacKey::KEY_SIZE,
                actual: key@.len() as usize,
            })),
    {
        if key.len() == HmacKey::KEY_SIZE {
            Ok(HmacKey { key, id })
        } else {
            Err(InvalidKeySizeError { expected: HmacKey::KEY_SIZE, actual: key.len() })
        }
    }

    /// A fresh MAC key of random material.
    pub fn generate(id: KeyIdentifier) -> (r: Self)
        ensures
            r@.key.len() == HmacKey::KEY_SIZE,
            r@.id == id@,
    {
        HmacKey { key: crate::aead::random_key_bytes(), id }
    }

    /// This key's identity.
    pub fn id(&self) -> (r: &KeyIdentifier)
        ensures
            r@ == self@.id,
    {
        &self.id
    }

    /// The 32-byte tag over the data under this key.
    pub fn compute_tag(&self, data: &[u8]) -> (r: Vec<u8>)
        ensures
            r@ == hmac_sha256(self@.key, data@),
            r@.len() == 32,
    {
        hmac_sha256_tag(self.key.as_slice(), data)
    }

    /// Verifies a tag: succeeds exactly when the tag is the one
    /// `compute_tag` yields over the same data.
    pub fn verify_tag(&self, data: &[u8], tag: &[u8]) -> (r: Result<(), InvalidMacError>)
        ensures
            r is Ok <==> tag@ == hmac_sha256(self@.key, data@),
    {
        if hmac_sha256_check(self.key.as_slice(), data, tag) {
            Ok(())
        } else {
            Err(InvalidMacError)
        }
    }
}

} // verus!
