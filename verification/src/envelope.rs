//! Envelope encryption: the two-tier seal.
//!
//! `seal` generates a fresh data-encryption key, encrypts the payload
//! under it, and wraps the data-encryption key under the caller's
//! key-encryption key; only the few, stable key-encryption keys ever
//! need rotation.  `open` inverts the two tiers.  An envelope is sealed
//! once and opened many times; updating means re-sealing.

use vstd::prelude::*;

use crate::aead::KEY_LEN;
use crate::codec::Serializable;
use crate::errors::Error;
use crate::nonce_counter::{advanced, nonce_spent, zero_nonce};
use crate::symmetric_key::{
    enc_data_wf, spec_decrypted, spec_encrypted, EncryptedData, EncryptedDataView, SymmetricKey,
    SymmetricKeyView,
};

verus! {

/// The mathematical value of an `Envelope`.
pub struct EnvelopeView {
    pub data: EncryptedDataView,
    pub dek: EncryptedDataView,
}

/// A sealed payload: the ciphertext under a one-use data-encryption
/// key, and that key wrapped under the key-encryption key.
#[derive(Debug)]
pub struct Envelope<T> {
    data: EncryptedData<T>,
    dek: EncryptedData<Vec<u8>>,
}

impl<T> View for Envelope<T> {
    type V = EnvelopeView;

    closed spec fn view(&self) -> EnvelopeView {
        EnvelopeView { data: self.data@, dek: self.dek@ }
    }
}

/// What opening an envelope with a key-encryption key produces: the
/// data-encryption key is recovered first, then the payload under it.
pub open spec fn spec_envelope_opened<T: Serializable>(kek: SymmetricKeyView, env: EnvelopeView)
    -> Result<T::V, Error> {
    match spec_decrypted::<Vec<u8>>(kek, env.dek) {
        Ok(kb) => if kb.len() == KEY_LEN {
            spec_decrypted::<T>(
                SymmetricKeyView { id: None, key: kb, counter: zero_nonce() },
                env.data,
            )
        } else {
            Err(Error::EncryptionFailed)
        },
        Err(e) => Err(e),
    }
}

/// Round trip of the two-tier seal: an envelope whose payload was
/// sealed under a fresh data-encryption key, itself wrapped under the
/// key-encryption key, opens to exactly the payload.
pub proof fn lemma_envelope_round_trip<T: Serializable>(kek: SymmetricKeyView, dk: Seq<u8>, v: T::V)
    requires
        dk.len() == KEY_LEN,
        T::spec_wf(v),
    ensures
        spec_envelope_opened::<T>(
            kek,
            EnvelopeView {
                data: spec_encrypted::<T>(
                    SymmetricKeyView { id: None, key: dk, counter: zero_nonce() },
                    v,
                ),
                dek: spec_encrypted::<Vec<u8>>(kek, dk),
            },
        ) == Ok::<T::V, Error>(v),
{
    crate::symmetric_key::lemma_encrypt_decrypt_round_trip::<Vec<u8>>(kek, dk);
    crate::symmetric_key::lemma_encrypt_decrypt_round_trip::<T>(
        SymmetricKeyView { id: None, key: dk, counter: zero_nonce() },
        v,
    );
}

impl<T: Serializable> Envelope<T> {
    pub open spec fn wf(&self) -> bool {
        enc_data_wf(self@.data) && enc_data_wf(self@.dek)
    }

    /// Seals a payload under the key-encryption key: a fresh
    /// data-encryption key encrypts the payload, and the
    /// key-encryption key wraps the data-encryption key, advancing its
    /// counter once.  The sealed envelope opens, under the same
    /// key-encryption key, to exactly the payload.
    pub fn seal(kek: &mut SymmetricKey, data: &T) -> (r: Result<Envelope<T>, Error>)
        requires
            old(kek).wf(),
        ensures
            final(kek).wf(),
            final(kek)@.id == old(kek)@.id,
            final(kek)@.key == old(kek)@.key,
            r matches Ok(env) ==> spec_envelope_opened::<T>(old(kek)@, env@) == Ok::<T::V, Error>(
                data@,
            ) && env.wf() && final(kek)@.counter == advanced(old(kek)@.counter),
            r matches Err(e) ==> final(kek)@ == old(kek)@ && (e == Error::NonceExhausted || e
                == Error::SerializationFailed),
            T::spec_serialized(data@).len() <= crate::aead::MAX_PLAINTEXT_LEN && !nonce_spent(
                old(kek)@.counter,
            ) ==> r is Ok,
    {
        let mut dek = SymmetricKey::generate();
        proof {
            assert(!nonce_spent(zero_nonce())) by {
                assert(zero_nonce()[0] == 0);
            }
        }
        let ghost dk = dek@.key;
        let enc_data = match dek.encrypt(data) {
            Ok(ed) => ed,
            Err(e) => {
                dek.destroy();
                return Err(e);
            },
        };
        let wrapped = match dek.into_encrypted_key(kek) {
            Ok(ek) => ek,
            Err(e) => {
                assert(e != Error::SerializationFailed);
                return Err(e);
            },
        };
        let env = Envelope { data: enc_data, dek: wrapped.encrypted_data().clone() };
        proof {
            lemma_envelope_round_trip::<T>(old(kek)@, dk, data@);
        }
        Ok(env)
    }

    /// Opens the envelope under the key-encryption key: recovers the
    /// data-encryption key, then the payload.  Exactly
    /// `spec_envelope_opened`.
    pub fn open(&self, kek: &SymmetricKey) -> (r: Result<T, Error>)
        requires
            kek.wf(),
            self.wf(),
        ensures
            match r {
                Ok(v) => spec_envelope_opened::<T>(kek@, self@) == Ok::<T::V, Error>(v@)
                    && T::spec_wf(v@),
                Err(e) => spec_envelope_opened::<T>(kek@, self@) == Err::<T::V, Error>(e),
            },
    {
        let mut key_bytes = match kek.decrypt::<Vec<u8>>(&self.dek) {
            Ok(b) => b,
            Err(e) => {
                return Err(e);
            },
        };
        let imported = SymmetricKey::new(key_bytes.as_slice(), None);
        crate::aead::wipe_bytes(&mut key_bytes);
        match imported {
            Ok(dek) => {
                let r = dek.decrypt(&self.data);
                dek.destroy();
                r
            },
            Err(_) => Err(Error::EncryptionFailed),
        }
    }
}

} // verus!
