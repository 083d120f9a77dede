//! The symmetric cipher key and the ciphertext envelope.
//!
//! A `SymmetricKey` owns 32 bytes of secret material, an optional
//! persisted identity, and the nonce counter for encryptions under it.
//! `EncryptedData<T>` is what encrypting a `T` produces: the sealed bytes,
//! the nonce they were sealed under, and the identifier of the key that
//! sealed them.  Decrypting checks the identifier first and fails closed
//! on a mismatch, before any cryptographic work.
//!
//! `spec_encrypted` and `spec_decrypted` state both operations as
//! mathematical functions; `lemma_encrypt_decrypt_round_trip` and
//! `lemma_key_mismatch_fails` are the two laws they obey.

use core::marker::PhantomData;
use vstd::bytes::{
    lemma_auto_spec_u64_to_from_le_bytes, spec_u64_from_le_bytes, spec_u64_to_le_bytes,
    u64_from_le_bytes, u64_to_le_bytes,
};
use vstd::prelude::*;
use vstd::slice::{slice_subrange, slice_to_vec};

use crate::aead::{
    random_key_bytes, xchacha_decrypt, xchacha_encrypt, xchacha_open, xchacha_seal, KEY_LEN,
    MAX_PLAINTEXT_LEN, TAG_LEN,
};
use crate::codec::{
    length_prefixed, parse_length_prefixed, push_length_prefixed, read_length_prefixed,
    Serializable,
};
use crate::errors::{Error, InvalidKeySizeError};
use crate::kdf::hash_password;
use crate::nonce_counter::{advanced, nonce_spent, zero_nonce, NonceCounter, NONCE_LEN};

verus! {

/// Maps a persisted identity to its mathematical value.
pub open spec fn id_view(id: Option<i64>) -> Option<int> {
    match id {
        Some(i) => Some(i as int),
        None => None,
    }
}

/// The mathematical value of a `SymmetricKey`.
pub struct SymmetricKeyView {
    pub id: Option<int>,
    pub key: Seq<u8>,
    pub counter: Seq<u8>,
}

/// The mathematical value of an `EncryptedData`.
pub struct EncryptedDataView {
    pub enc_data: Seq<u8>,
    pub nonce: Seq<u8>,
    pub key_id: Option<int>,
}

/// A ciphertext envelope: sealed bytes, the nonce they were sealed under,
/// and the identifier of the key that sealed them.  The type parameter
/// records, at compile time only, what the plaintext decodes to.
#[derive(Debug)]
pub struct EncryptedData<T> {
    enc_data: Vec<u8>,
    nonce: Vec<u8>,
    key_id: Option<i64>,
    _phantom: PhantomData<T>,
}

impl<T> View for EncryptedData<T> {
    type V = EncryptedDataView;

    closed spec fn view(&self) -> EncryptedDataView {
        EncryptedDataView {
            enc_data: self.enc_data@,
            nonce: self.nonce@,
            key_id: id_view(self.key_id),
        }
    }
}

/// Envelopes the cipher can work on: a full-width nonce and a body
/// within the cipher's length bound.
pub open spec fn enc_data_wf(d: EncryptedDataView) -> bool {
    d.nonce.len() == NONCE_LEN && d.enc_data.len() <= MAX_PLAINTEXT_LEN + TAG_LEN
}

impl<T> EncryptedData<T> {
    /// Envelopes the cipher can work on.
    pub open spec fn wf(&self) -> bool {
        enc_data_wf(self@)
    }

    /// The nonce this data was sealed under.
    pub fn nonce(&self) -> (r: &Vec<u8>)
        ensures
            r@ == self@.nonce,
    {
        &self.nonce
    }

    /// The identifier of the key this data was encrypted under.
    pub fn key_id(&self) -> (r: Option<i64>)
        ensures
            id_view(r) == self@.key_id,
    {
        self.key_id
    }
}

impl<T> EncryptedData<T> {
    /// Encodes the envelope in its serialized storage form.
    pub fn to_bytes(&self) -> (r: Vec<u8>)
        requires
            self.wf(),
        ensures
            r@ == spec_enc_data_serialized(self@),
    {
        let mut out: Vec<u8> = Vec::new();
        push_length_prefixed(&mut out, self.enc_data.as_slice());
        out.extend_from_slice(self.nonce.as_slice());
        match self.key_id {
            None => {
                out.push(0);
            },
            Some(i) => {
                out.push(1);
                let mut idb = u64_to_le_bytes(#[verifier::truncate] (i as u64));
                out.append(&mut idb);
            },
        }
        assert(out@ =~= spec_enc_data_serialized(self@));
        out
    }

    /// Decodes an envelope from its serialized storage form; rejects
    /// exactly what the format rejects, so only well-formed envelopes
    /// come back.
    pub fn from_bytes(bytes: &[u8]) -> (r: Option<Self>)
        ensures
            match r {
                Some(d) => spec_enc_data_deserialized(bytes@) == Some(d@) && d.wf(),
                None => spec_enc_data_deserialized(bytes@) is None,
            },
    {
        let (ct, p) = match read_length_prefixed(bytes, 0) {
            Some(x) => x,
            None => {
                return None;
            },
        };
        if ct.len() > TAG_LEN && ct.len() - TAG_LEN > MAX_PLAINTEXT_LEN {
            return None;
        }
        if bytes.len() - p <= NONCE_LEN {
            return None;
        }
        let nonce = slice_to_vec(slice_subrange(bytes, p, p + NONCE_LEN));
        let tag = bytes[p + NONCE_LEN];
        if tag == 0 {
            if bytes.len() - p - NONCE_LEN != 1 {
                return None;
            }
            Some(EncryptedData { enc_data: ct, nonce, key_id: None, _phantom: PhantomData })
        } else if tag == 1 {
            if bytes.len() - p - NONCE_LEN != 9 {
                return None;
            }
            let idb = slice_subrange(bytes, p + NONCE_LEN + 1, bytes.len());
            let id = #[verifier::truncate] (u64_from_le_bytes(idb) as i64);
            Some(EncryptedData { enc_data: ct, nonce, key_id: Some(id), _phantom: PhantomData })
        } else {
            None
        }
    }
}

impl<T> Clone for EncryptedData<T> {
    fn clone(&self) -> (r: Self)
        ensures
            r@ == self@,
            r.wf() == self.wf(),
    {
        let r = EncryptedData {
            enc_data: self.enc_data.clone(),
            nonce: self.nonce.clone(),
            key_id: self.key_id,
            _phantom: PhantomData,
        };
        assert(r@.enc_data =~= self@.enc_data);
        assert(r@.nonce =~= self@.nonce);
        r
    }
}

/// The serialized storage form of a ciphertext envelope, for the
/// persistence collaborator: the ciphertext length-prefixed, the
/// 24-byte nonce, then the key identifier as a presence tag followed,
/// when present, by its value in eight little-endian bytes.
pub open spec fn spec_enc_data_serialized(d: EncryptedDataView) -> Seq<u8> {
    length_prefixed(d.enc_data) + d.nonce + (match d.key_id {
        Some(i) => seq![1u8] + spec_u64_to_le_bytes(i as u64),
        None => seq![0u8],
    })
}

/// The envelope a byte string decodes to, if any: only well-formed
/// envelopes (full-width nonce, ciphertext within the cipher's bound)
/// have a byte form.
pub open spec fn spec_enc_data_deserialized(b: Seq<u8>) -> Option<EncryptedDataView> {
    match parse_length_prefixed(b, 0) {
        Some((ct, p)) => if ct.len() <= MAX_PLAINTEXT_LEN + TAG_LEN && p + NONCE_LEN < b.len() {
            let nonce = b.subrange(p, p + NONCE_LEN);
            let tag = b[p + NONCE_LEN];
            if tag == 0 && b.len() == p + NONCE_LEN + 1 {
                Some(EncryptedDataView { enc_data: ct, nonce, key_id: None })
            } else if tag == 1 && b.len() == p + NONCE_LEN + 9 {
                Some(
                    EncryptedDataView {
                        enc_data: ct,
                        nonce,
                        key_id: Some(
                            spec_u64_from_le_bytes(b.subrange(p + NONCE_LEN + 1, b.len() as int))
                                as i64 as int,
                        ),
                    },
                )
            } else {
                None
            }
        } else {
            None
        },
        None => None,
    }
}

/// Decoding the storage form inverts encoding, for every well-formed
/// envelope.
pub proof fn lemma_enc_data_serialization_round_trip(d: EncryptedDataView)
    requires
        enc_data_wf(d),
        d.key_id matches Some(i) ==> i64::MIN <= i <= i64::MAX,
    ensures
        spec_enc_data_deserialized(spec_enc_data_serialized(d)) == Some(d),
{
    lemma_auto_spec_u64_to_from_le_bytes();
    let tail: Seq<u8> = match d.key_id {
        Some(i) => seq![1u8] + spec_u64_to_le_bytes(i as u64),
        None => seq![0u8],
    };
    let b = spec_enc_data_serialized(d);
    assert(Seq::<u8>::empty() + length_prefixed(d.enc_data) + (d.nonce + tail) =~= b);
    lemma_parse_length_prefixed_alias(d.enc_data, d.nonce + tail);
    let p = 8 + d.enc_data.len() as int;
    assert(parse_length_prefixed(b, 0) == Some((d.enc_data, p)));
    assert(b.subrange(p, p + NONCE_LEN) =~= d.nonce);
    match d.key_id {
        None => {
            assert(b[p + NONCE_LEN] == 0);
            assert(b.len() == p + NONCE_LEN + 1);
            assert(spec_enc_data_deserialized(b) == Some(d));
        },
        Some(i) => {
            assert(b[p + NONCE_LEN] == 1);
            assert(b.len() == p + NONCE_LEN + 9);
            assert(b.subrange(p + NONCE_LEN + 1, b.len() as int) =~= spec_u64_to_le_bytes(
                i as u64,
            ));
            let x = i as i64;
            assert(forall|y: i64| #![trigger (y as u64)] ((y as u64) as i64) == y) by (bit_vector);
            assert((i as u64) == (x as u64));
            assert((spec_u64_from_le_bytes(spec_u64_to_le_bytes(i as u64)) as i64) as int == i);
            assert(spec_enc_data_deserialized(b) == Some(d));
        },
    }
}

/// Reading the first field of the storage form recovers the ciphertext.
proof fn lemma_parse_length_prefixed_alias(data: Seq<u8>, after: Seq<u8>)
    requires
        data.len() <= u64::MAX,
    ensures
        parse_length_prefixed(length_prefixed(data) + after, 0) == Some((
            data,
            8 + data.len() as int,
        )),
{
    crate::codec::lemma_parse_length_prefixed(Seq::<u8>::empty(), data, after);
    assert(Seq::<u8>::empty() + length_prefixed(data) + after =~= length_prefixed(data) + after);
}

/// What encrypting `v` under the key `k` produces.
pub open spec fn spec_encrypted<T: Serializable>(k: SymmetricKeyView, v: T::V) -> EncryptedDataView {
    EncryptedDataView {
        enc_data: xchacha_seal(k.key, k.counter, T::spec_serialized(v)),
        nonce: k.counter,
        key_id: k.id,
    }
}

/// What decrypting the envelope `d` with the key `k` produces: the key
/// identifiers are compared first and a mismatch fails closed; then the
/// cipher opens the envelope; then the bytes are decoded.
pub open spec fn spec_decrypted<T: Serializable>(k: SymmetricKeyView, d: EncryptedDataView) -> Result<
    T::V,
    Error,
> {
    if d.key_id != k.id {
        Err(Error::IncorrectKey)
    } else {
        match xchacha_open(k.key, d.nonce, d.enc_data) {
            Some(pt) => match T::spec_deserialized(pt) {
                Some(v) => Ok(v),
                None => Err(Error::SerializationFailed),
            },
            None => Err(Error::EncryptionFailed),
        }
    }
}

/// Round trip: decrypting what `encrypt` produced, with the same key,
/// gives back exactly the encrypted value, for every encodable value of
/// every payload type.
pub proof fn lemma_encrypt_decrypt_round_trip<T: Serializable>(k: SymmetricKeyView, v: T::V)
    requires
        T::spec_wf(v),
    ensures
        spec_decrypted::<T>(k, spec_encrypted::<T>(k, v)) == Ok::<T::V, Error>(v),
{
    crate::aead::lemma_seal_open_round_trip(k.key, k.counter, T::spec_serialized(v));
    T::lemma_serialization_round_trip(v);
}

/// Key mismatch: decryption with a key whose identifier differs from the
/// envelope's identifier always fails with `IncorrectKey`, for every
/// payload type, before any cryptographic work.
pub proof fn lemma_key_mismatch_fails<T: Serializable>(k: SymmetricKeyView, d: EncryptedDataView)
    requires
        d.key_id != k.id,
    ensures
        spec_decrypted::<T>(k, d) == Err::<T::V, Error>(Error::IncorrectKey),
{
}

/// A 32-byte symmetric key with its persisted identity and its nonce
/// counter.
#[derive(Debug)]
pub struct SymmetricKey {
    id: Option<i64>,
    key: Vec<u8>,
    counter: NonceCounter,
}

impl View for SymmetricKey {
    type V = SymmetricKeyView;

    closed spec fn view(&self) -> SymmetricKeyView {
        SymmetricKeyView { id: id_view(self.id), key: self.key@, counter: self.counter@ }
    }
}

impl SymmetricKey {
    /// Well-formed keys hold exactly `KEY_LEN` bytes and a full-width
    /// counter.
    pub open spec fn wf(&self) -> bool {
        self@.key.len() == KEY_LEN && self@.counter.len() == NONCE_LEN
    }

    /// Imports key material; the length is validated, any other length is
    /// rejected.  The counter starts at zero.
    pub fn new(key: &[u8], id: Option<i64>) -> (r: Result<Self, InvalidKeySizeError>)
        ensures
            key@.len() == KEY_LEN ==> (r matches Ok(k) && k@.key == key@ && k@.id == id_view(id)
                && k@.counter == zero_nonce() && k.wf()),
            key@.len() != KEY_LEN ==> (r matches Err(e) && e == (InvalidKeySizeError {
                expected: KEY_LEN,
                actual: key@.len() as usize,
            })),
    {
        if key.len() == KEY_LEN {
            let mut bytes: Vec<u8> = Vec::new();
            bytes.extend_from_slice(key);
            assert(bytes@ =~= key@);
            Ok(SymmetricKey { id, key: bytes, counter: NonceCounter::default() })
        } else {
            Err(InvalidKeySizeError { expected: KEY_LEN, actual: key.len() })
        }
    }

    /// A fresh key of random material, not yet persisted; the counter
    /// starts at zero.
    pub fn generate() -> (r: Self)
        ensures
            r.wf(),
            r@.id is None,
            r@.counter == zero_nonce(),
    {
        SymmetricKey { id: None, key: random_key_bytes(), counter: NonceCounter::default() }
    }

    /// The key-encryption key for a password: the Argon2id hash of the
    /// password under the given salt, deterministic in both.  Succeeds
    /// on every valid salt string and every password within Argon2's
    /// length bound.
    pub fn from_password(password: &[u8], salt: &str) -> (r: Result<Self, Error>)
        ensures
            r matches Ok(k) ==> k@.key == crate::kdf::argon2_hash(password@, salt@) && k@.id
                is None && k@.counter == zero_nonce() && k.wf(),
            r matches Err(e) ==> e == Error::PasswordHashingFailed,
            crate::kdf::valid_salt(salt@) && password@.len() <= crate::kdf::MAX_PASSWORD_LEN
                ==> r is Ok,
    {
        match hash_password(password, salt) {
            Ok(key) => Ok(SymmetricKey { id: None, key, counter: NonceCounter::default() }),
            Err(e) => Err(e),
        }
    }

    /// Resumes the nonce counter at a given state: used when data is
    /// re-encrypted under a previously used key, so that the nonce
    /// advances past the one stored with the data instead of starting
    /// over.
    pub fn resume_counter(&mut self, counter: NonceCounter)
        requires
            counter.wf(),
        ensures
            final(self)@ == (SymmetricKeyView { counter: counter@, ..old(self)@ }),
            old(self).wf() ==> final(self).wf(),
    {
        self.counter = counter;
    }

    /// Takes on a persisted identity, exactly once: a key that already
    /// has one never changes it.
    pub fn assign_id(&mut self, id: i64)
        requires
            old(self)@.id is None,
        ensures
            final(self)@ == (SymmetricKeyView { id: Some(id as int), ..old(self)@ }),
            final(self).wf() == old(self).wf(),
    {
        self.id = Some(id);
    }

    /// The key's persisted identity, if it has one.
    pub fn id(&self) -> (r: Option<i64>)
        ensures
            id_view(r) == self@.id,
    {
        self.id
    }

    /// Whether this key's identifier matches the envelope's; decryption
    /// is refused when it does not.
    pub fn can_decrypt<T>(&self, data: &EncryptedData<T>) -> (r: bool)
        ensures
            r == (self@.id == data@.key_id),
    {
        match (self.id, data.key_id) {
            (None, None) => true,
            (Some(a), Some(b)) => a == b,
            _ => false,
        }
    }

    /// Encrypts an encodable value: the value's canonical bytes are
    /// sealed under the current counter value, and the counter advances,
    /// only then, by one step.  Fails with `NonceExhausted` when the
    /// counter is spent and with `SerializationFailed` when the encoding
    /// exceeds the cipher's length bound; on failure nothing changes.
    pub fn encrypt<T: Serializable>(&mut self, data: &T) -> (r: Result<EncryptedData<T>, Error>)
        requires
            old(self).wf(),
        ensures
            final(self).wf(),
            final(self)@.id == old(self)@.id,
            final(self)@.key == old(self)@.key,
            r matches Ok(ed) ==> ed@ == spec_encrypted::<T>(old(self)@, data@) && ed.wf()
                && final(self)@.counter == advanced(old(self)@.counter) && T::spec_wf(data@)
                && !nonce_spent(old(self)@.counter),
            r matches Err(e) ==> final(self)@ == old(self)@ && (e == Error::NonceExhausted || e
                == Error::SerializationFailed),
            T::spec_serialized(data@).len() > MAX_PLAINTEXT_LEN ==> r == Err::<
                EncryptedData<T>,
                Error,
            >(Error::SerializationFailed),
            T::spec_serialized(data@).len() <= MAX_PLAINTEXT_LEN && nonce_spent(old(self)@.counter)
                ==> r == Err::<EncryptedData<T>, Error>(Error::NonceExhausted),
            T::spec_serialized(data@).len() <= MAX_PLAINTEXT_LEN && !nonce_spent(
                old(self)@.counter,
            ) ==> r is Ok,
    {
        let serialized = data.serialize();
        if serialized.len() > MAX_PLAINTEXT_LEN {
            return Err(Error::SerializationFailed);
        }
        let nonce = self.counter.get_value();
        match self.counter.increment() {
            Err(_) => Err(Error::NonceExhausted),
            Ok(_) => {
                let ct = xchacha_encrypt(self.key.as_slice(), nonce.as_slice(),
                    serialized.as_slice());
                proof {
                    crate::aead::lemma_seal_open_round_trip(
                        old(self)@.key,
                        old(self)@.counter,
                        serialized@,
                    );
                }
                Ok(EncryptedData { enc_data: ct, nonce, key_id: self.id, _phantom: PhantomData })
            },
        }
    }

    /// Decrypts an envelope: refused outright when the identifiers do not
    /// match (`IncorrectKey`); otherwise fails with `EncryptionFailed`
    /// when the cipher rejects the envelope and `SerializationFailed`
    /// when the recovered bytes do not decode; the decoded value
    /// otherwise.  Exactly `spec_decrypted`.
    pub fn decrypt<T: Serializable>(&self, data: &EncryptedData<T>) -> (r: Result<T, Error>)
        requires
            self.wf(),
            data.wf(),
        ensures
            match r {
                Ok(v) => spec_decrypted::<T>(self@, data@) == Ok::<T::V, Error>(v@) && T::spec_wf(
                    v@,
                ),
                Err(e) => spec_decrypted::<T>(self@, data@) == Err::<T::V, Error>(e),
            },
    {
        if !self.can_decrypt(data) {
            return Err(Error::IncorrectKey);
        }
        match xchacha_decrypt(self.key.as_slice(), data.nonce.as_slice(),
            data.enc_data.as_slice()) {
            None => Err(Error::EncryptionFailed),
            Some(pt) => match T::deserialize(pt.as_slice()) {
                None => Err(Error::SerializationFailed),
                Some(v) => Ok(v),
            },
        }
    }

    /// Wraps this key's material under a parent key, consuming the key;
    /// the wrapped key keeps this key's own identity.  The key material
    /// is wiped before the remains are dropped.
    pub fn into_encrypted_key(self, parent_key: &mut SymmetricKey) -> (r: Result<
        EncryptedKey,
        Error,
    >)
        requires
            old(parent_key).wf(),
            self.wf(),
        ensures
            final(parent_key).wf(),
            final(parent_key)@.id == old(parent_key)@.id,
            final(parent_key)@.key == old(parent_key)@.key,
            r matches Ok(ek) ==> ek@.id == self@.id && ek@.data == spec_encrypted::<Vec<u8>>(
                old(parent_key)@,
                self@.key,
            ) && ek.wf() && final(parent_key)@.counter == advanced(old(parent_key)@.counter),
            r matches Err(e) ==> final(parent_key)@ == old(parent_key)@ && e
                == Error::NonceExhausted,
            !nonce_spent(old(parent_key)@.counter) ==> r is Ok,
    {
        let mut key_bytes = self.key;
        let id = self.id;
        let r = parent_key.encrypt::<Vec<u8>>(&key_bytes);
        crate::aead::wipe_bytes(&mut key_bytes);
        match r {
            Ok(encrypted) => Ok(EncryptedKey::new(id, encrypted)),
            Err(e) => {
                assert(e != Error::SerializationFailed);
                Err(e)
            },
        }
    }

    /// Wipes the key material and drops the key.
    pub fn destroy(self)
    {
        let mut key_bytes = self.key;
        crate::aead::wipe_bytes(&mut key_bytes);
    }
}

impl Clone for SymmetricKey {
    fn clone(&self) -> (r: Self)
        ensures
            r@ == self@,
    {
        let r = SymmetricKey { id: self.id, key: self.key.clone(), counter: self.counter.clone() };
        assert(r@.key =~= self@.key);
        r
    }
}

/// The mathematical value of an `EncryptedKey`.
pub struct EncryptedKeyView {
    pub id: Option<int>,
    pub data: EncryptedDataView,
}

/// A wrapped key: one edge of the key hierarchy.  Holds the ciphertext of
/// a child key's material under its parent, and the child's persisted
/// identity once it has one.
#[derive(Debug)]
pub struct EncryptedKey {
    id: Option<i64>,
    key_encrypted_data: EncryptedData<Vec<u8>>,
}

impl View for EncryptedKey {
    type V = EncryptedKeyView;

    closed spec fn view(&self) -> EncryptedKeyView {
        EncryptedKeyView { id: id_view(self.id), data: self.key_encrypted_data@ }
    }
}

impl Clone for EncryptedKey {
    fn clone(&self) -> (r: Self)
        ensures
            r@ == self@,
            r.wf() == self.wf(),
    {
        EncryptedKey { id: self.id, key_encrypted_data: self.key_encrypted_data.clone() }
    }
}

impl EncryptedKey {
    pub open spec fn wf(&self) -> bool {
        enc_data_wf(self@.data)
    }

    pub fn new(id: Option<i64>, key_encrypted_data: EncryptedData<Vec<u8>>) -> (r: Self)
        ensures
            r@.id == id_view(id),
            r@.data == key_encrypted_data@,
            r.wf() == key_encrypted_data.wf(),
    {
        Self { id, key_encrypted_data }
    }

    /// The persisted identity of the wrapped key, if it has one.
    pub fn id(&self) -> (r: Option<i64>)
        ensures
            id_view(r) == self@.id,
    {
        self.id
    }

    /// The wrapped ciphertext itself, as handed to the persistence
    /// collaborator.
    pub fn encrypted_data(&self) -> (r: &EncryptedData<Vec<u8>>)
        ensures
            r@ == self@.data,
            r.wf() == self.wf(),
    {
        &self.key_encrypted_data
    }

    /// Persists the wrapped ciphertext and takes on the assigned row
    /// identity.  A key that already has an identity is never stored
    /// again: a second call is rejected with `CannotUpdateKey` rather
    /// than silently creating a duplicate row.
    pub fn store(&mut self, repo: &mut crate::repository::Repository) -> (r: Result<(), Error>)
        requires
            old(repo).wf(),
            old(self).wf(),
        ensures
            final(repo).wf(),
            final(self).wf(),
            final(self)@.data == old(self)@.data,
            old(self)@.id is Some ==> r == Err::<(), Error>(Error::CannotUpdateKey) && final(self)@
                == old(self)@ && final(repo)@ == old(repo)@ && final(repo).spec_faults() == old(
                repo,
            ).spec_faults(),
            old(self)@.id is None && !old(repo).fails_now() ==> final(repo).spec_faults()
                == crate::repository::spec_faults_after(old(repo).spec_faults()),
            old(self)@.id is None && old(repo).fails_now() ==> final(repo).spec_faults() is None,
            old(self)@.id is None && !old(repo).fails_now() && old(repo)@.keys.len()
                < crate::repository::MAX_ROWS ==> r is Ok,
            old(self)@.id is None ==> match r {
                Ok(u) => !old(repo).fails_now() && final(repo)@.keys == old(repo)@.keys.push(
                    old(self)@.data,
                ) && final(repo)@.profile == old(repo)@.profile && final(repo)@.vaults == old(
                    repo,
                )@.vaults && final(repo)@.items == old(repo)@.items && final(repo)@.clock == old(
                    repo,
                )@.clock && final(self)@.id == Some(old(repo)@.keys.len() + 1 as int),
                Err(e) => final(self)@ == old(self)@ && final(repo)@ == old(repo)@ && e
                    == Error::DatabaseError,
            },
    {
        match self.id {
            Some(_) => Err(Error::CannotUpdateKey),
            None => match repo.store_key(&self.key_encrypted_data) {
                Ok(rec) => {
                    self.id = Some(rec.id);
                    Ok(())
                },
                Err(e) => Err(e),
            },
        }
    }

    /// Unwraps the key under its parent: the parent decrypts the wrapped
    /// material, and the recovered key carries this wrapped key's own
    /// identity, so later uses are attributed to the child, not the
    /// parent.  The recovered key's counter starts at zero for this
    /// session.
    pub fn try_to_symmetric_key(&self, parent_key: &SymmetricKey) -> (r: Result<SymmetricKey, Error>)
        requires
            parent_key.wf(),
            self.wf(),
        ensures
            r matches Ok(k) ==> spec_decrypted::<Vec<u8>>(parent_key@, self@.data) == Ok::<
                Seq<u8>,
                Error,
            >(k@.key) && k@.id == self@.id && k@.counter == zero_nonce() && k.wf(),
            r matches Err(e) ==> match spec_decrypted::<Vec<u8>>(parent_key@, self@.data) {
                Ok(bytes) => bytes.len() != KEY_LEN && e == Error::EncryptionFailed,
                Err(de) => e == de,
            },
    {
        let mut decrypted_key = match parent_key.decrypt::<Vec<u8>>(&self.key_encrypted_data) {
            Ok(bytes) => bytes,
            Err(e) => {
                return Err(e);
            },
        };
        let imported = SymmetricKey::new(decrypted_key.as_slice(), self.id);
        crate::aead::wipe_bytes(&mut decrypted_key);
        match imported {
            Ok(k) => Ok(k),
            Err(_) => Err(Error::EncryptionFailed),
        }
    }
}

/// What unwrapping a wrapped key under a parent produces: the child key,
/// attributed to the wrapped key's own identity, with a fresh counter;
/// or the failure of the decryption chain.  Wrapped material of the
/// wrong width fails as the cipher fails.
pub open spec fn spec_unwrap_key(parent: SymmetricKeyView, ek: EncryptedKeyView) -> Result<
    SymmetricKeyView,
    Error,
> {
    match spec_decrypted::<Vec<u8>>(parent, ek.data) {
        Ok(kb) => if kb.len() == KEY_LEN {
            Ok(SymmetricKeyView { id: ek.id, key: kb, counter: zero_nonce() })
        } else {
            Err(Error::EncryptionFailed)
        },
        Err(e) => Err(e),
    }
}

/// The mathematical value of an `EncryptedDataKeyPair`.
pub struct EncryptedDataKeyPairView {
    pub encrypted_data: EncryptedDataView,
    pub encrypted_key: EncryptedKeyView,
}

/// What decrypting a data/key pair under a parent key produces: the
/// pair's own key is unwrapped under the parent, then the data is
/// decrypted under it.
pub open spec fn spec_unwrap_then_decrypt<T: Serializable>(
    parent: SymmetricKeyView,
    pair: EncryptedDataKeyPairView,
) -> Result<T::V, Error> {
    match spec_unwrap_key(parent, pair.encrypted_key) {
        Ok(k) => spec_decrypted::<T>(k, pair.encrypted_data),
        Err(e) => Err(e),
    }
}

/// What decrypting one field of an item produces, from the master key
/// down: the vault key is unwrapped under the master key, the field's
/// own key is unwrapped under the vault key, and the field is decrypted
/// under it.
pub open spec fn spec_item_decrypt<T: Serializable>(
    master: SymmetricKeyView,
    vault_key: EncryptedKeyView,
    pair: EncryptedDataKeyPairView,
) -> Result<T::V, Error> {
    match spec_unwrap_key(master, vault_key) {
        Ok(vk) => spec_unwrap_then_decrypt::<T>(vk, pair),
        Err(e) => Err(e),
    }
}

/// A ciphertext together with the wrapped key that opens it: what an
/// item row holds for each of its two fields.
#[derive(Debug)]
pub struct EncryptedDataKeyPair<T> {
    encrypted_data: EncryptedData<T>,
    encrypted_key: EncryptedKey,
}

impl<T> View for EncryptedDataKeyPair<T> {
    type V = EncryptedDataKeyPairView;

    closed spec fn view(&self) -> EncryptedDataKeyPairView {
        EncryptedDataKeyPairView {
            encrypted_data: self.encrypted_data@,
            encrypted_key: self.encrypted_key@,
        }
    }
}

impl<T> EncryptedDataKeyPair<T> {
    pub open spec fn wf(&self) -> bool {
        enc_data_wf(self@.encrypted_data) && enc_data_wf(self@.encrypted_key.data)
    }

    pub fn new(encrypted_data: EncryptedData<T>, encrypted_key: EncryptedKey) -> (r: Self)
        ensures
            r@.encrypted_data == encrypted_data@,
            r@.encrypted_key == encrypted_key@,
            r.wf() == (encrypted_data.wf() && encrypted_key.wf()),
    {
        Self { encrypted_data, encrypted_key }
    }

    /// The pair's ciphertext.
    pub fn encrypted_data(&self) -> (r: &EncryptedData<T>)
        ensures
            r@ == self@.encrypted_data,
    {
        &self.encrypted_data
    }

    /// The pair's wrapped key.
    pub fn encrypted_key(&self) -> (r: &EncryptedKey)
        ensures
            r@ == self@.encrypted_key,
    {
        &self.encrypted_key
    }
}

impl<T: Serializable> EncryptedDataKeyPair<T> {
    /// Decrypts the pair under a parent key: the pair's key is unwrapped
    /// under the parent, then the data is decrypted under it.  Exactly
    /// `spec_unwrap_then_decrypt`.
    pub fn decrypt(&self, parent_key: &SymmetricKey) -> (r: Result<T, Error>)
        requires
            parent_key.wf(),
            self.wf(),
        ensures
            match r {
                Ok(v) => spec_unwrap_then_decrypt::<T>(parent_key@, self@) == Ok::<T::V, Error>(v@)
                    && T::spec_wf(v@),
                Err(e) => spec_unwrap_then_decrypt::<T>(parent_key@, self@) == Err::<T::V, Error>(
                    e,
                ),
            },
    {
        let key = match self.encrypted_key.try_to_symmetric_key(parent_key) {
            Ok(k) => k,
            Err(e) => {
                return Err(e);
            },
        };
        let r = key.decrypt(&self.encrypted_data);
        key.destroy();
        r
    }
}

impl<T: Serializable> EncryptedDataKeyPair<T> {
    /// Encrypts a value under a fresh one-use key and wraps that key
    /// under the parent, advancing the parent's counter once.  The
    /// resulting pair decrypts, under the same parent, to exactly the
    /// value.
    pub fn encrypt_with_random_key(data: &T, parent_key: &mut SymmetricKey) -> (r: Result<
        Self,
        Error,
    >)
        requires
            old(parent_key).wf(),
        ensures
            final(parent_key).wf(),
            final(parent_key)@.id == old(parent_key)@.id,
            final(parent_key)@.key == old(parent_key)@.key,
            r matches Ok(pair) ==> pair.wf() && pair@.encrypted_key.id is None
                && final(parent_key)@.counter == advanced(old(parent_key)@.counter)
                && spec_unwrap_then_decrypt::<T>(
                old(parent_key)@,
                pair@,
            ) == Ok::<T::V, Error>(data@),
            r matches Err(e) ==> final(parent_key)@ == old(parent_key)@ && (e
                == Error::NonceExhausted || e == Error::SerializationFailed),
            T::spec_serialized(data@).len() <= MAX_PLAINTEXT_LEN && !nonce_spent(
                old(parent_key)@.counter,
            ) ==> r is Ok,
    {
        let mut key = SymmetricKey::generate();
        proof {
            assert(!nonce_spent(zero_nonce())) by {
                assert(zero_nonce()[0] == 0);
            }
        }
        let ghost kv = key@;
        let encrypted_data = match key.encrypt(data) {
            Ok(ed) => ed,
            Err(e) => {
                key.destroy();
                assert(e == Error::SerializationFailed);
                return Err(e);
            },
        };
        let encrypted_key = match key.into_encrypted_key(parent_key) {
            Ok(ek) => ek,
            Err(e) => {
                return Err(e);
            },
        };
        proof {
            lemma_encrypt_decrypt_round_trip::<Vec<u8>>(old(parent_key)@, kv.key);
            lemma_encrypt_decrypt_round_trip::<T>(kv, data@);
        }
        Ok(Self::new(encrypted_data, encrypted_key))
    }

    /// Re-encrypts the pair's data in place, under the same wrapped
    /// key: the key is unwrapped under the parent and its counter
    /// resumed one step past the nonce stored with the data, so the
    /// nonce advances and is never reused.  The wrapped key itself does
    /// not change; on failure nothing changes.
    pub fn encrypt_and_replace(&mut self, parent_key: &SymmetricKey, new_data: &T) -> (r: Result<
        (),
        Error,
    >)
        requires
            parent_key.wf(),
            old(self).wf(),
        ensures
            final(self).wf(),
            final(self)@.encrypted_key == old(self)@.encrypted_key,
            r matches Err(e) ==> final(self)@ == old(self)@,
            spec_unwrap_key(parent_key@, old(self)@.encrypted_key) is Ok && !nonce_spent(
                old(self)@.encrypted_data.nonce,
            ) && !nonce_spent(advanced(old(self)@.encrypted_data.nonce)) && T::spec_serialized(
                new_data@,
            ).len() <= MAX_PLAINTEXT_LEN ==> r is Ok,
            r matches Ok(u) ==> {
                &&& !nonce_spent(old(self)@.encrypted_data.nonce)
                &&& spec_unwrap_key(parent_key@, old(self)@.encrypted_key) matches Ok(k)
                &&& final(self)@.encrypted_data == spec_encrypted::<T>(
                    SymmetricKeyView {
                        counter: advanced(old(self)@.encrypted_data.nonce),
                        ..k
                    },
                    new_data@,
                )
                &&& spec_unwrap_then_decrypt::<T>(parent_key@, final(self)@) == Ok::<T::V, Error>(
                    new_data@,
                )
            },
    {
        let mut key = match self.encrypted_key.try_to_symmetric_key(parent_key) {
            Ok(k) => k,
            Err(e) => {
                return Err(e);
            },
        };
        let mut counter = match NonceCounter::new(self.encrypted_data.nonce().as_slice()) {
            Ok(c) => c,
            Err(_) => {
                key.destroy();
                return Err(Error::EncryptionFailed);
            },
        };
        if let Err(_) = counter.increment() {
            key.destroy();
            return Err(Error::NonceExhausted);
        }
        key.resume_counter(counter);
        let ghost kv = key@;
        let new_data_enc = match key.encrypt(new_data) {
            Ok(ed) => ed,
            Err(e) => {
                key.destroy();
                return Err(e);
            },
        };
        key.destroy();
        proof {
            lemma_encrypt_decrypt_round_trip::<T>(kv, new_data@);
        }
        self.encrypted_data = new_data_enc;
        Ok(())
    }
}

impl<T> Clone for EncryptedDataKeyPair<T> {
    fn clone(&self) -> (r: Self)
        ensures
            r@ == self@,
            r.wf() == self.wf(),
    {
        EncryptedDataKeyPair {
            encrypted_data: self.encrypted_data.clone(),
            encrypted_key: self.encrypted_key.clone(),
        }
    }
}

} // verus!
