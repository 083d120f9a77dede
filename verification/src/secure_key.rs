//! The lock/unlock state machine that gates all cryptographic work.
//!
//! A `SecureKey` holds a wrapped key and, only while unlocked, its
//! decrypted material.  It has exactly two states: Locked (no decrypted
//! key) and Unlocked.  `unlock` is only valid from Locked and `lock` only
//! from Unlocked; calling either in the wrong state is an error, never a
//! silent no-op, so that caller bugs surface.  Locking wipes the
//! decrypted material.

use vstd::prelude::*;

use crate::codec::Serializable;
use crate::errors::Error;
use crate::symmetric_key::{
    enc_data_wf, spec_decrypted, spec_encrypted, EncryptedData, EncryptedKey, EncryptedKeyView,
    SymmetricKey, SymmetricKeyView,
};
use crate::aead::KEY_LEN;
use crate::nonce_counter::{advanced, nonce_spent, zero_nonce, NONCE_LEN};

verus! {

/// The two states of a `SecureKey`.
#[derive(Debug, Clone, Copy, PartialEq, Eq, Structural)]
pub enum SecureKeyState {
    Locked,
    Unlocked,
}

/// The mathematical value of a `SecureKey`.
pub struct SecureKeyView {
    pub encrypted_key: EncryptedKeyView,
    pub decrypted_key: Option<SymmetricKeyView>,
}

/// Well-formed symmetric key views: full key and counter widths.
pub open spec fn sym_key_wf(k: SymmetricKeyView) -> bool {
    k.key.len() == KEY_LEN && k.counter.len() == NONCE_LEN
}

/// A wrapped key together with its decrypted material while unlocked.
#[derive(Debug)]
pub struct SecureKey {
    encrypted_key: EncryptedKey,
    decrypted_key: Option<SymmetricKey>,
}

impl View for SecureKey {
    type V = SecureKeyView;

    closed spec fn view(&self) -> SecureKeyView {
        SecureKeyView {
            encrypted_key: self.encrypted_key@,
            decrypted_key: match self.decrypted_key {
                Some(k) => Some(k@),
                None => None,
            },
        }
    }
}

impl SecureKey {
    pub open spec fn wf(&self) -> bool {
        enc_data_wf(self@.encrypted_key.data) && match self@.decrypted_key {
            Some(k) => sym_key_wf(k),
            None => true,
        }
    }

    /// Locked means no decrypted key is held.
    pub open spec fn spec_is_locked(&self) -> bool {
        self@.decrypted_key is None
    }

    /// A key freshly built from a stored wrapped key starts Locked.
    pub fn new(encrypted_key: EncryptedKey) -> (r: Self)
        ensures
            r@.encrypted_key == encrypted_key@,
            r.spec_is_locked(),
            r.wf() == encrypted_key.wf(),
    {
        Self { encrypted_key, decrypted_key: None }
    }

    /// A key built right after generation, before the first persistence
    /// round trip, starts Unlocked.
    pub fn new_unlocked(encrypted_key: EncryptedKey, decrypted_key: SymmetricKey) -> (r: Self)
        requires
            decrypted_key.wf(),
        ensures
            r@.encrypted_key == encrypted_key@,
            r@.decrypted_key == Some(decrypted_key@),
            !r.spec_is_locked(),
            r.wf() == encrypted_key.wf(),
    {
        Self { encrypted_key, decrypted_key: Some(decrypted_key) }
    }

    pub fn is_locked(&self) -> (r: bool)
        ensures
            r == self.spec_is_locked(),
    {
        match &self.decrypted_key {
            None => true,
            Some(_) => false,
        }
    }

    pub fn get_state(&self) -> (r: SecureKeyState)
        ensures
            r == SecureKeyState::Locked <==> self.spec_is_locked(),
    {
        if self.is_locked() {
            SecureKeyState::Locked
        } else {
            SecureKeyState::Unlocked
        }
    }

    /// Unlocks with a parent key: only valid from Locked; from Unlocked
    /// it fails with `StoreAlreadyUnlocked` rather than masking the
    /// caller's bug.  On success the held key is the unwrapped material,
    /// attributed to the wrapped key's own identity.
    pub fn unlock(&mut self, parent_key: &SymmetricKey) -> (r: Result<(), Error>)
        requires
            old(self).wf(),
            parent_key.wf(),
        ensures
            final(self).wf(),
            final(self)@.encrypted_key == old(self)@.encrypted_key,
            !old(self).spec_is_locked() ==> r == Err::<(), Error>(Error::StoreAlreadyUnlocked)
                && final(self)@ == old(self)@,
            old(self).spec_is_locked() ==> match r {
                Ok(u) => !final(self).spec_is_locked() && (final(self)@.decrypted_key matches Some(
                    k,
                ) && crate::symmetric_key::spec_unwrap_key(parent_key@, old(self)@.encrypted_key)
                    == Ok::<SymmetricKeyView, Error>(k) && k.counter == zero_nonce()),
                Err(e) => final(self)@ == old(self)@ && crate::symmetric_key::spec_unwrap_key(
                    parent_key@,
                    old(self)@.encrypted_key,
                ) == Err::<SymmetricKeyView, Error>(e),
            },
    {
        if !self.is_locked() {
            return Err(Error::StoreAlreadyUnlocked);
        }
        match self.encrypted_key.try_to_symmetric_key(parent_key) {
            Ok(k) => {
                self.decrypted_key = Some(k);
                Ok(())
            },
            Err(e) => {
                assert(e != Error::StoreAlreadyUnlocked);
                Err(e)
            },
        }
    }

    /// Locks: only valid from Unlocked; from Locked it fails with
    /// `Locked`.  The decrypted material is wiped before it is dropped.
    pub fn lock(&mut self) -> (r: Result<(), Error>)
        requires
            old(self).wf(),
        ensures
            final(self).wf(),
            final(self)@.encrypted_key == old(self)@.encrypted_key,
            old(self).spec_is_locked() ==> r == Err::<(), Error>(Error::Locked) && final(self)@
                == old(self)@,
            !old(self).spec_is_locked() ==> r == Ok::<(), Error>(())
                && final(self).spec_is_locked(),
    {
        match self.decrypted_key.take() {
            None => Err(Error::Locked),
            Some(k) => {
                k.destroy();
                Ok(())
            },
        }
    }

    /// Encrypts under the held key; fails with `Locked` while no key is
    /// held.
    pub fn encrypt<T: Serializable>(&mut self, data: &T) -> (r: Result<EncryptedData<T>, Error>)
        requires
            old(self).wf(),
        ensures
            final(self).wf(),
            final(self)@.encrypted_key == old(self)@.encrypted_key,
            final(self).spec_is_locked() == old(self).spec_is_locked(),
            old(self).spec_is_locked() ==> r == Err::<EncryptedData<T>, Error>(Error::Locked)
                && final(self)@ == old(self)@,
            !old(self).spec_is_locked() ==> (old(self)@.decrypted_key matches Some(k) && {
                &&& final(self)@.decrypted_key matches Some(k2)
                &&& k2.id == k.id
                &&& k2.key == k.key
                &&& (r matches Ok(ed) ==> ed@ == spec_encrypted::<T>(k, data@) && ed.wf()
                    && k2.counter == advanced(k.counter) && T::spec_wf(data@) && !nonce_spent(
                    k.counter,
                ))
                &&& (r matches Err(e) ==> final(self)@ == old(self)@ && (e == Error::NonceExhausted
                    || e == Error::SerializationFailed))
                &&& (T::spec_serialized(data@).len() <= crate::aead::MAX_PLAINTEXT_LEN
                    && !nonce_spent(k.counter) ==> r is Ok)
            }),
    {
        match &mut self.decrypted_key {
            None => Err(Error::Locked),
            Some(k) => k.encrypt(data),
        }
    }

    /// Decrypts under the held key; fails with `Locked` while no key is
    /// held.
    pub fn decrypt<T: Serializable>(&self, data: &EncryptedData<T>) -> (r: Result<T, Error>)
        requires
            self.wf(),
            data.wf(),
        ensures
            self.spec_is_locked() ==> r == Err::<T, Error>(Error::Locked),
            !self.spec_is_locked() ==> (self@.decrypted_key matches Some(k) && match r {
                Ok(v) => spec_decrypted::<T>(k, data@) == Ok::<T::V, Error>(v@) && T::spec_wf(v@),
                Err(e) => spec_decrypted::<T>(k, data@) == Err::<T::V, Error>(e),
            }),
    {
        match &self.decrypted_key {
            None => Err(Error::Locked),
            Some(k) => k.decrypt(data),
        }
    }

    /// Resumes the held key's nonce counter, for wraps under a
    /// long-lived key whose nonce must advance past every earlier use;
    /// nothing happens while locked.
    pub fn resume_counter(&mut self, counter: crate::nonce_counter::NonceCounter)
        requires
            old(self).wf(),
            counter.wf(),
        ensures
            final(self).wf(),
            final(self)@.encrypted_key == old(self)@.encrypted_key,
            final(self).spec_is_locked() == old(self).spec_is_locked(),
            old(self).spec_is_locked() ==> final(self)@ == old(self)@,
            !old(self).spec_is_locked() ==> (old(self)@.decrypted_key matches Some(k)
                && final(self)@.decrypted_key == Some(
                SymmetricKeyView { counter: counter@, ..k },
            )),
    {
        match &mut self.decrypted_key {
            None => {},
            Some(k) => k.resume_counter(counter),
        }
    }

    /// Unwraps a child key under the held key; fails with `Locked` while
    /// no key is held.
    pub fn unwrap_child(&self, child: &EncryptedKey) -> (r: Result<SymmetricKey, Error>)
        requires
            self.wf(),
            child.wf(),
        ensures
            self.spec_is_locked() ==> r == Err::<SymmetricKey, Error>(Error::Locked),
            !self.spec_is_locked() ==> (self@.decrypted_key matches Some(k) && match r {
                Ok(c) => crate::symmetric_key::spec_unwrap_key(k, child@) == Ok::<
                    SymmetricKeyView,
                    Error,
                >(c@) && c.wf(),
                Err(e) => crate::symmetric_key::spec_unwrap_key(k, child@) == Err::<
                    SymmetricKeyView,
                    Error,
                >(e),
            }),
    {
        match &self.decrypted_key {
            None => Err(Error::Locked),
            Some(k) => child.try_to_symmetric_key(k),
        }
    }

    /// Wraps a child key under the held key; fails with `Locked` while no
    /// key is held.  The child's material is consumed and wiped.
    pub fn wrap_key(&mut self, key: SymmetricKey) -> (r: Result<EncryptedKey, Error>)
        requires
            old(self).wf(),
            key.wf(),
        ensures
            final(self).wf(),
            final(self)@.encrypted_key == old(self)@.encrypted_key,
            final(self).spec_is_locked() == old(self).spec_is_locked(),
            old(self).spec_is_locked() ==> r == Err::<EncryptedKey, Error>(Error::Locked)
                && final(self)@ == old(self)@,
            !old(self).spec_is_locked() ==> (old(self)@.decrypted_key matches Some(k) && {
                &&& final(self)@.decrypted_key matches Some(k2)
                &&& k2.id == k.id
                &&& k2.key == k.key
                &&& (r matches Ok(ek) ==> ek@.id == key@.id && ek@.data == spec_encrypted::<
                    Vec<u8>,
                >(k, key@.key) && ek.wf() && k2.counter == advanced(k.counter))
                &&& (r matches Err(e) ==> final(self)@ == old(self)@ && e == Error::NonceExhausted)
                &&& (!nonce_spent(k.counter) ==> r is Ok)
            }),
    {
        match &mut self.decrypted_key {
            None => {
                key.destroy();
                Err(Error::Locked)
            },
            Some(k) => key.into_encrypted_key(k),
        }
    }
}

} // verus!
