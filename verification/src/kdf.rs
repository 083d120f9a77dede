//! Key derivation: Argon2id for password-derived key-encryption keys,
//! HKDF-SHA-256 for purpose-bound sub-keys.
//!
//! Both derivations are deterministic functions of their inputs; the
//! derivation-determinism law is `lemma_derive_key_deterministic`.

use vstd::prelude::*;
use vstd::string::StrSliceExecFns;
use vstd::utf8::encode_utf8;

use argon2::password_hash::{PasswordHasher, Salt, SaltString};
use argon2::Argon2;
use hkdf::Hkdf;
use rand::rngs::OsRng;
use sha2::Sha256;

use crate::errors::Error;
use crate::identifier::{KeyIdentifier, KeyIdentifierView};
use crate::mac::HmacKey;
use crate::symmetric_key::SymmetricKey;

verus! {

/// Largest output HKDF-SHA-256 can expand to: 255 hash widths.
pub const MAX_DERIVED_LEN: usize = 8160;

/// Largest password Argon2 accepts, in bytes.
pub const MAX_PASSWORD_LEN: usize = 0xffff_ffff;

/// The salt strings the Argon2id hash accepts: a valid B64 salt string
/// within the length bounds of both the textual form and the decoded
/// salt.  Validity is a function of the characters alone.
pub uninterp spec fn valid_salt(salt: Seq<char>) -> bool;

/// The Argon2id hash of a password under a salt string, with the default
/// parameters: 32 bytes, deterministic in both arguments.
pub uninterp spec fn argon2_hash(password: Seq<u8>, salt: Seq<char>) -> Seq<u8>;

/// The HKDF-SHA-256 output of the given length for input keying material
/// and an info string, extracted without salt: deterministic in all three
/// arguments.
pub uninterp spec fn hkdf_sha256(ikm: Seq<u8>, info: Seq<u8>, len: nat) -> Seq<u8>;

/// Relies on argon2's `Argon2::hash_password` with the default
/// parameters: for a valid salt string and a password within Argon2's
/// length bound it succeeds and produces the 32-byte Argon2id hash of
/// the password, a deterministic function of password and salt; an
/// invalid salt string is rejected.
#[verifier::external_body]
fn argon2_hash_password(password: &[u8], salt: &str) -> (r: Result<Vec<u8>, Error>)
    ensures
        r matches Ok(h) ==> h@ == argon2_hash(password@, salt@) && h@.len() == 32,
        r matches Err(e) ==> e == Error::PasswordHashingFailed,
        valid_salt(salt@) && password@.len() <= MAX_PASSWORD_LEN ==> r is Ok,
{
    let salt = match Salt::from_b64(salt) {
        Ok(s) => s,
        Err(_) => return Err(Error::PasswordHashingFailed),
    };
    match Argon2::default().hash_password(password, salt) {
        Ok(hashed) => match hashed.hash {
            Some(out) => Ok(out.as_bytes().to_vec()),
            None => Err(Error::PasswordHashingFailed),
        },
        Err(_) => Err(Error::PasswordHashingFailed),
    }
}

/// Hashes a password under a salt string into key-encryption-key
/// material: 32 bytes, deterministic in password and salt, never
/// persisted.  Succeeds on every valid salt string and every password
/// within Argon2's length bound.
pub fn hash_password(password: &[u8], salt: &str) -> (r: Result<Vec<u8>, Error>)
    ensures
        r matches Ok(h) ==> h@ == argon2_hash(password@, salt@) && h@.len() == 32,
        r matches Err(e) ==> e == Error::PasswordHashingFailed,
        valid_salt(salt@) && password@.len() <= MAX_PASSWORD_LEN ==> r is Ok,
{
    argon2_hash_password(password, salt)
}

/// Relies on argon2's `SaltString::generate`: a fresh random salt of
/// the recommended 16 bytes, in the standard B64 textual form of 22
/// characters, which is within every bound the hash checks - so
/// whatever bytes were drawn, the result is a valid salt string.
#[verifier::external_body]
pub(crate) fn generate_salt() -> (r: String)
    ensures
        valid_salt(r@),
{
    SaltString::generate(&mut OsRng).to_string()
}

/// Relies on hkdf's `Hkdf::<Sha256>::new` (extract without salt) and
/// `expand`: the output is deterministic in the keying material, the
/// info string and the length; `expand` fails only above 255 hash
/// widths, which the precondition excludes.
#[verifier::external_body]
fn hkdf_sha256_expand(ikm: &[u8], info: &[u8], len: usize) -> (r: Vec<u8>)
    requires
        len <= MAX_DERIVED_LEN,
    ensures
        r@ == hkdf_sha256(ikm@, info@, len as nat),
        r@.len() == len,
{
    let hk = Hkdf::<Sha256>::new(None, ikm);
    let mut okm = vec![0u8; len];
    hk.expand(info, &mut okm).expect("output within expand's length bound");
    okm
}

/// Derives `len` bytes from input keying material, using the label as
/// the HKDF info context: deterministic given `(ikm, label, len)`.
pub fn derive_key(ikm: &[u8], label: &str, len: usize) -> (r: Vec<u8>)
    requires
        len <= MAX_DERIVED_LEN,
    ensures
        r@ == hkdf_sha256(ikm@, encode_utf8(label@), len as nat),
        r@.len() == len,
{
    let info = label.as_bytes_vec();
    hkdf_sha256_expand(ikm, info.as_slice(), len)
}

/// Derivation determinism: deriving with identical inputs yields
/// identical output bytes.
pub proof fn lemma_derive_key_deterministic(
    ikm1: Seq<u8>,
    label1: Seq<char>,
    ikm2: Seq<u8>,
    label2: Seq<char>,
    len: nat,
)
    requires
        ikm1 == ikm2,
        label1 == label2,
    ensures
        hkdf_sha256(ikm1, encode_utf8(label1), len) == hkdf_sha256(ikm2, encode_utf8(label2), len),
{
}

/// The context label of a purpose-bound sub-key: the caller's label
/// with a fixed purpose suffix, so that one label cannot collide across
/// purposes.
pub open spec fn purpose_info(label: Seq<char>, suffix: Seq<char>) -> Seq<char> {
    label + suffix
}

/// Joins a caller label with a purpose suffix.
fn build_info(label: &str, suffix: &str) -> (r: String)
    ensures
        r@ == purpose_info(label@, suffix@),
{
    let mut s = String::new();
    s.append(label);
    s.append(suffix);
    s
}

/// The mathematical value of a `DerivationMaterial`.
pub struct DerivationMaterialView {
    pub key: Seq<u8>,
    pub id: KeyIdentifierView,
}

/// Input keying material with its identity, from which purpose-bound
/// sub-keys are derived.
#[derive(Debug)]
pub struct DerivationMaterial {
    key: Vec<u8>,
    id: KeyIdentifier,
}

impl View for DerivationMaterial {
    type V = DerivationMaterialView;

    closed spec fn view(&self) -> DerivationMaterialView {
        DerivationMaterialView { key: self.key@, id: self.id@ }
    }
}

/// The purpose suffix of derived cipher keys.
pub const SYMMETRIC_SUFFIX: &'static str = "_symmetric_key";

/// The purpose suffix of derived MAC keys.
pub const HMAC_SUFFIX: &'static str = "_hmac_key";

impl DerivationMaterial {
    pub fn new(key: Vec<u8>, id: KeyIdentifier) -> (r: Self)
        ensures
            r@.key == key@,
            r@.id == id@,
    {
        Self { key, id }
    }

    /// Derives the cipher key bound to a label: 32 bytes of HKDF output
    /// under the label with the cipher-purpose suffix, together with a
    /// derived identifier recording the provenance.  Deterministic in
    /// the material and the label.
    pub fn derive_symmetric_key(&self, label: &str) -> (r: (SymmetricKey, KeyIdentifier))
        ensures
            r.0@.key == hkdf_sha256(
                self@.key,
                encode_utf8(purpose_info(label@, SYMMETRIC_SUFFIX@)),
                crate::aead::KEY_LEN as nat,
            ),
            r.0@.id is None,
            r.0.wf(),
            r.1@ == (KeyIdentifierView::Derived {
                context: purpose_info(label@, SYMMETRIC_SUFFIX@),
                derived_from: Some(Box::new(self@.id)),
            }),
    {
        let kdf_info = build_info(label, SYMMETRIC_SUFFIX);
        let bytes = derive_key(self.key.as_slice(), kdf_info.as_str(), crate::aead::KEY_LEN);
        let id = KeyIdentifier::derived(kdf_info, Some(self.id.clone_id()));
        let key = match SymmetricKey::new(bytes.as_slice(), None) {
            Ok(k) => k,
            Err(_) => {
                proof {
                    assert(false);
                }
                SymmetricKey::generate()
            },
        };
        (key, id)
    }

    /// Derives the MAC key bound to a label: 32 bytes of HKDF output
    /// under the label with the MAC-purpose suffix, together with a
    /// derived identifier recording the provenance.  Deterministic in
    /// the material and the label.
    pub fn derive_hmac_key(&self, label: &str) -> (r: HmacKey)
        ensures
            r@.key == hkdf_sha256(
                self@.key,
                encode_utf8(purpose_info(label@, HMAC_SUFFIX@)),
                32,
            ),
            r@.id == (KeyIdentifierView::Derived {
                context: purpose_info(label@, HMAC_SUFFIX@),
                derived_from: Some(Box::new(self@.id)),
            }),
    {
        let kdf_info = build_info(label, HMAC_SUFFIX);
        let bytes = derive_key(self.key.as_slice(), kdf_info.as_str(), 32);
        let id = KeyIdentifier::derived(kdf_info, Some(self.id.clone_id()));
        match HmacKey::new(bytes, id) {
            Ok(k) => k,
            Err(_) => {
                proof {
                    assert(false);
                }
                HmacKey::generate(KeyIdentifier::local())
            },
        }
    }
}

} // verus!
