//! The store: the top of the key hierarchy.
//!
//! A `Store` owns the persistence collaborator, the cached profile, and
//! the master `SecureKey`.  `initialize_profile` creates the profile and
//! the master key; `unlock`/`lock` drive the master key's state machine;
//! `create_vault` grows the hierarchy by one wrapped vault key.  Every
//! multi-record write is checkpointed and rolled back whole on failure,
//! so a failed step never leaves an orphaned key row.

use vstd::prelude::*;
use vstd::utf8::encode_utf8;

use crate::errors::Error;
use crate::kdf::{argon2_hash, generate_salt, valid_salt, MAX_PASSWORD_LEN};
use crate::nonce_counter::{
    advanced, index_nonce, lemma_index_nonce_fresh, nonce_spent, zero_nonce, NonceCounter,
};
use crate::repository::{ProfileRecord, ProfileRecordView, Repository, RepositoryView};
use crate::secure_key::{SecureKey, SecureKeyView};
use crate::symmetric_key::{
    spec_decrypted, spec_encrypted, spec_unwrap_key, EncryptedKeyView, SymmetricKey,
    SymmetricKeyView,
};
use crate::vault::{Vault, VaultPreview};

verus! {

/// The cached profile: the singleton profile row carried in memory.
#[derive(Debug)]
pub struct Profile {
    id: i64,
    name: String,
    salt: String,
    key_id: i64,
    created_at: i64,
    updated_at: i64,
}

impl View for Profile {
    type V = ProfileRecordView;

    closed spec fn view(&self) -> ProfileRecordView {
        ProfileRecordView {
            id: self.id as int,
            name: self.name@,
            salt: self.salt@,
            key_id: self.key_id as int,
            created_at: self.created_at as int,
            updated_at: self.updated_at as int,
        }
    }
}

impl Profile {
    pub fn new(
        id: i64,
        name: String,
        salt: String,
        key_id: i64,
        created_at: i64,
        updated_at: i64,
    ) -> (r: Self)
        ensures
            r@ == (ProfileRecordView {
                id: id as int,
                name: name@,
                salt: salt@,
                key_id: key_id as int,
                created_at: created_at as int,
                updated_at: updated_at as int,
            }),
    {
        Self { id, name, salt, key_id, created_at, updated_at }
    }

    /// The salt the key-encryption key is derived under.
    pub fn salt(&self) -> (r: &str)
        ensures
            r@ == self@.salt,
    {
        self.salt.as_str()
    }

    /// The master key's row identifier.
    pub fn key_id(&self) -> (r: i64)
        ensures
            r as int == self@.key_id,
    {
        self.key_id
    }
}

/// Carries a profile row into the in-memory profile.
impl ProfileRecord {
    pub fn into_profile(self) -> (r: Profile)
        ensures
            r@ == self@,
    {
        Profile::new(self.id, self.name, self.salt, self.key_id, self.created_at, self.updated_at)
    }
}

/// The mathematical value of a `Store`.
pub struct StoreView {
    pub repository: RepositoryView,
    pub master_key: Option<SecureKeyView>,
    pub profile: Option<ProfileRecordView>,
}

/// The key-encryption key derived from a password and a salt, as a
/// mathematical value: not yet persisted, counter at zero.
pub open spec fn kek_view(password: Seq<u8>, salt: Seq<char>) -> SymmetricKeyView {
    SymmetricKeyView { id: None, key: argon2_hash(password, salt), counter: zero_nonce() }
}

/// The profile an unlock would go by: the cached one when present, the
/// stored row otherwise.
pub open spec fn spec_effective_profile(s: StoreView) -> Option<ProfileRecordView> {
    if s.profile is Some {
        s.profile
    } else {
        s.repository.profile
    }
}

/// The wrapped master key an unlock would go by: the cached one when
/// present, else the key row the effective profile points to, if it is
/// in range.
pub open spec fn spec_effective_wrap(s: StoreView) -> Option<EncryptedKeyView> {
    match s.master_key {
        Some(sk) => Some(sk.encrypted_key),
        None => match spec_effective_profile(s) {
            Some(p) => if 1 <= p.key_id <= s.repository.keys.len() {
                Some(
                    EncryptedKeyView {
                        id: Some(p.key_id),
                        data: s.repository.keys[p.key_id - 1],
                    },
                )
            } else {
                None
            },
            None => None,
        },
    }
}

/// The store at the top of the key hierarchy.
#[derive(Debug)]
pub struct Store {
    repository: Repository,
    master_key: Option<SecureKey>,
    profile: Option<Profile>,
}

impl View for Store {
    type V = StoreView;

    closed spec fn view(&self) -> StoreView {
        StoreView {
            repository: self.repository@,
            master_key: match self.master_key {
                Some(k) => Some(k@),
                None => None,
            },
            profile: match self.profile {
                Some(p) => Some(p@),
                None => None,
            },
        }
    }
}

impl Store {
    pub open spec fn wf(&self) -> bool {
        &&& self.spec_repository().wf()
        &&& match self.spec_master_key() {
            Some(k) => k.wf(),
            None => true,
        }
    }

    /// The collaborator as held, fault schedule included.
    pub closed spec fn spec_repository(&self) -> Repository {
        self.repository
    }

    /// The master key as held.
    pub closed spec fn spec_master_key(&self) -> Option<SecureKey> {
        self.master_key
    }

    /// The collaborator's failure schedule.
    pub open spec fn spec_faults(&self) -> Option<u64> {
        self.spec_repository().spec_faults()
    }

    /// No collaborator failure is scheduled.
    pub open spec fn no_faults(&self) -> bool {
        self.spec_faults() is None
    }

    /// Whether the master key is absent or locked, so that cryptographic
    /// operations are refused.
    pub open spec fn spec_is_locked(&self) -> bool {
        match self.spec_master_key() {
            Some(k) => k.spec_is_locked(),
            None => true,
        }
    }

    /// A store over a persistence collaborator; nothing is cached yet.
    pub fn new(repository: Repository) -> (r: Self)
        requires
            repository.wf(),
        ensures
            r@.repository == repository@,
            r@.master_key is None,
            r@.profile is None,
            r.wf(),
            r.no_faults() == (repository.spec_faults() is None),
    {
        Store { repository, master_key: None, profile: None }
    }

    /// Schedules a persistence failure: the next `n` collaborator
    /// operations succeed and the one after them fails.
    pub fn fail_persistence_after(&mut self, n: u64)
        ensures
            final(self)@ == old(self)@,
            final(self).wf() == old(self).wf(),
    {
        self.repository.fail_after(n);
    }

    /// Gives the collaborator back, for inspection once the store is
    /// done with it.
    pub fn into_repository(self) -> (r: Repository)
        ensures
            r@ == self@.repository,
            r.wf() == self.spec_repository().wf(),
    {
        self.repository
    }

    /// Creates the profile: generates a salt, derives the
    /// key-encryption key from the password, generates the master key,
    /// wraps it under the derived key, and stores the wrapped key and
    /// the profile row as one all-or-nothing write.  The master key is
    /// left cached and Unlocked.  Fails with `ProfileAlreadyExists` when
    /// a profile row exists; on any failure the tables are exactly as
    /// before.
    pub fn initialize_profile(&mut self, name: String, password: &str) -> (r: Result<(), Error>)
        requires
            old(self).wf(),
        ensures
            final(self).wf(),
            r matches Err(e) ==> {
                &&& final(self)@ == old(self)@
                &&& (e == Error::ProfileAlreadyExists ==> old(self)@.repository.profile is Some)
                &&& (old(self).no_faults() && old(self)@.repository.profile is None ==> (e
                    == Error::PasswordHashingFailed || e == Error::DatabaseError))
            },
            old(self).no_faults() && old(self)@.repository.profile is Some ==> r == Err::<
                (),
                Error,
            >(Error::ProfileAlreadyExists),
            old(self).no_faults() && old(self)@.repository.profile is None && old(
                self,
            )@.repository.keys.len() < crate::repository::MAX_ROWS && encode_utf8(password@).len()
                <= MAX_PASSWORD_LEN ==> r is Ok,
            old(self).spec_faults() matches Some(n) && n <= 2 ==> r is Err,
            r matches Ok(u) ==> {
                &&& old(self)@.repository.profile is None
                &&& final(self)@.repository.profile matches Some(p)
                &&& final(self)@.profile == Some(p)
                &&& p.name == name@
                &&& p.key_id == old(self)@.repository.keys.len() + 1
                &&& final(self)@.repository.vaults == old(self)@.repository.vaults
                &&& final(self)@.repository.items == old(self)@.repository.items
                &&& final(self)@.master_key matches Some(sk)
                &&& sk.decrypted_key matches Some(mk)
                &&& mk.id == Some(p.key_id)
                &&& mk.counter == zero_nonce()
                &&& sk.encrypted_key.id == Some(p.key_id)
                &&& final(self)@.repository.keys == old(self)@.repository.keys.push(
                    spec_encrypted::<Vec<u8>>(kek_view(encode_utf8(password@), p.salt), mk.key),
                )
                &&& sk.encrypted_key.data == final(self)@.repository.keys.last()
            },
    {
        let existing = match self.repository.get_profile() {
            Ok(p) => p,
            Err(e) => {
                return Err(e);
            },
        };
        if existing.is_some() {
            return Err(Error::ProfileAlreadyExists);
        }
        let salt = generate_salt();
        let kek = match SymmetricKey::from_password(password.as_bytes(), salt.as_str()) {
            Ok(k) => k,
            Err(e) => {
                return Err(e);
            },
        };
        let master_key = SymmetricKey::generate();
        let mut kek = kek;
        proof {
            assert(!nonce_spent(kek@.counter)) by {
                assert(zero_nonce()[0] == 0);
            }
        }
        let wrapped = master_key.clone().into_encrypted_key(&mut kek);
        kek.destroy();
        let mut enc_master = match wrapped {
            Ok(ek) => ek,
            Err(e) => {
                master_key.destroy();
                return Err(e);
            },
        };
        let saved = self.repository.checkpoint();
        if let Err(e) = enc_master.store(&mut self.repository) {
            self.repository.restore(saved);
            master_key.destroy();
            return Err(e);
        }
        let key_id = match enc_master.id() {
            Some(k) => k,
            None => {
                self.repository.restore(saved);
                master_key.destroy();
                return Err(Error::DatabaseError);
            },
        };
        let record = match self.repository.store_profile(name.as_str(), salt.as_str(), key_id) {
            Ok(rec) => rec,
            Err(e) => {
                self.repository.restore(saved);
                master_key.destroy();
                return Err(e);
            },
        };
        let mut master_key = master_key;
        master_key.assign_id(key_id);
        self.profile = Some(record.into_profile());
        self.master_key = Some(SecureKey::new_unlocked(enc_master, master_key));
        Ok(())
    }

    /// Unlocks the master key with a password: fetches the profile and
    /// the wrapped master key if they are not cached, re-derives the
    /// key-encryption key from the password and the stored salt, and
    /// unlocks.  A wrong password surfaces as `IncorrectPassword`;
    /// unlocking an already-unlocked store is `StoreAlreadyUnlocked`; an
    /// uninitialized store is `StoreNotInitialized`.  The tables are
    /// never changed.
    pub fn unlock(&mut self, password: &str) -> (r: Result<(), Error>)
        requires
            old(self).wf(),
        ensures
            final(self).wf(),
            final(self)@.repository == old(self)@.repository,
            !old(self).spec_is_locked() ==> r == Err::<(), Error>(Error::StoreAlreadyUnlocked)
                && final(self)@ == old(self)@,
            old(self).spec_is_locked() && old(self).no_faults() && old(self)@.profile is None
                && old(self)@.repository.profile is None ==> r == Err::<(), Error>(
                Error::StoreNotInitialized,
            ),
            r matches Ok(u) ==> {
                &&& old(self).spec_is_locked()
                &&& final(self)@.master_key matches Some(sk)
                &&& sk.decrypted_key matches Some(mk)
                &&& final(self)@.profile matches Some(p)
                &&& spec_decrypted::<Vec<u8>>(
                    kek_view(encode_utf8(password@), p.salt),
                    sk.encrypted_key.data,
                ) == Ok::<Seq<u8>, Error>(mk.key)
                &&& mk.id == sk.encrypted_key.id
            },
            r matches Err(e) ==> final(self).spec_is_locked() == old(self).spec_is_locked(),
            r == Err::<(), Error>(Error::StoreNotInitialized) ==> final(self)@ == old(self)@,
            r == Err::<(), Error>(Error::IncorrectPassword) ==> (final(self)@.profile matches Some(
                p,
            ) && final(self)@.master_key matches Some(sk) && spec_unwrap_key(
                kek_view(encode_utf8(password@), p.salt),
                sk.encrypted_key,
            ) == Err::<SymmetricKeyView, Error>(Error::EncryptionFailed)),
            old(self).spec_is_locked() && old(self).no_faults() && (spec_effective_profile(
                old(self)@,
            ) matches Some(p) && valid_salt(p.salt) && encode_utf8(password@).len()
                <= MAX_PASSWORD_LEN && (spec_effective_wrap(old(self)@) matches Some(w)
                && spec_unwrap_key(kek_view(encode_utf8(password@), p.salt), w) is Ok)) ==> r
                is Ok,
            old(self).spec_is_locked() && old(self).no_faults() && (spec_effective_profile(
                old(self)@,
            ) matches Some(p) && valid_salt(p.salt) && encode_utf8(password@).len()
                <= MAX_PASSWORD_LEN && (spec_effective_wrap(old(self)@) matches Some(w)
                && spec_unwrap_key(kek_view(encode_utf8(password@), p.salt), w) == Err::<
                SymmetricKeyView,
                Error,
            >(Error::EncryptionFailed))) ==> r == Err::<(), Error>(Error::IncorrectPassword),
    {
        if let Some(cached) = &self.master_key {
            if !cached.is_locked() {
                return Err(Error::StoreAlreadyUnlocked);
            }
        }
        if let Err(e) = self.ensure_profile_retrieved() {
            return Err(e);
        }
        if let Err(e) = self.ensure_master_key_retrieved() {
            return Err(e);
        }
        let profile = match &self.profile {
            Some(p) => p,
            None => {
                return Err(Error::StoreNotInitialized);
            },
        };
        let master_key = match &mut self.master_key {
            Some(k) => k,
            None => {
                return Err(Error::StoreNotInitialized);
            },
        };
        if !master_key.is_locked() {
            return Err(Error::StoreAlreadyUnlocked);
        }
        let kek = match SymmetricKey::from_password(password.as_bytes(), profile.salt()) {
            Ok(k) => k,
            Err(e) => {
                return Err(e);
            },
        };
        let outcome = master_key.unlock(&kek);
        kek.destroy();
        match outcome {
            Ok(u) => Ok(u),
            Err(e) => {
                if matches!(e, Error::EncryptionFailed) {
                    Err(Error::IncorrectPassword)
                } else {
                    Err(e)
                }
            },
        }
    }

    /// Locks the master key; locking an already-locked (or never
    /// fetched) master key is an error, and nothing else changes.
    pub fn lock(&mut self) -> (r: Result<(), Error>)
        requires
            old(self).wf(),
        ensures
            final(self).wf(),
            final(self)@.repository == old(self)@.repository,
            final(self)@.profile == old(self)@.profile,
            old(self).spec_is_locked() ==> r == Err::<(), Error>(Error::Locked) && final(self)@
                == old(self)@,
            !old(self).spec_is_locked() ==> r == Ok::<(), Error>(())
                && final(self).spec_is_locked() && (final(self)@.master_key matches Some(sk)
                && old(self)@.master_key matches Some(so) && sk.encrypted_key
                == so.encrypted_key),
    {
        match &mut self.master_key {
            None => Err(Error::Locked),
            Some(k) => k.lock(),
        }
    }

    /// Caches the profile row if it is not cached yet; an uninitialized
    /// store surfaces as `StoreNotInitialized`.
    fn ensure_profile_retrieved(&mut self) -> (r: Result<(), Error>)
        requires
            old(self).wf(),
        ensures
            final(self).wf(),
            final(self)@.repository == old(self)@.repository,
            final(self)@.master_key == old(self)@.master_key,
            old(self).no_faults() ==> final(self).no_faults(),
            r matches Ok(u) ==> final(self)@.profile is Some && (old(self)@.profile is Some
                ==> final(self)@ == old(self)@) && (old(self)@.profile is None
                ==> final(self)@.profile == old(self)@.repository.profile),
            r matches Err(e) ==> final(self)@ == old(self)@ && (e == Error::DatabaseError || e
                == Error::StoreNotInitialized) && (old(self).no_faults() && old(self)@.profile
                is None && old(self)@.repository.profile is None ==> e
                == Error::StoreNotInitialized),
            old(self).no_faults() && (old(self)@.profile is Some || old(self)@.repository.profile
                is Some) ==> r is Ok,
    {
        if self.profile.is_some() {
            return Ok(());
        }
        match self.repository.get_profile() {
            Ok(Some(rec)) => {
                self.profile = Some(rec.into_profile());
                Ok(())
            },
            Ok(None) => Err(Error::StoreNotInitialized),
            Err(e) => Err(e),
        }
    }

    /// Caches the master key's wrapped form, Locked, if no master key is
    /// cached yet; the profile must already be cached.
    fn ensure_master_key_retrieved(&mut self) -> (r: Result<(), Error>)
        requires
            old(self).wf(),
        ensures
            final(self).wf(),
            final(self)@.repository == old(self)@.repository,
            final(self)@.profile == old(self)@.profile,
            old(self).no_faults() ==> final(self).no_faults(),
            r matches Ok(u) ==> (old(self)@.master_key is Some ==> final(self)@ == old(self)@) && (
            old(self)@.master_key is None ==> (final(self)@.master_key matches Some(sk)
                && sk.decrypted_key is None && (old(self)@.profile matches Some(p)
                && sk.encrypted_key.id == Some(p.key_id) && 1 <= p.key_id
                <= old(self)@.repository.keys.len() && sk.encrypted_key.data
                == old(self)@.repository.keys[p.key_id - 1]))),
            r matches Err(e) ==> final(self)@ == old(self)@ && (e == Error::DatabaseError || e
                == Error::KeyDoesNotExist || (e == Error::StoreNotInitialized && old(self)@.profile
                is None)),
            old(self).no_faults() && (old(self)@.master_key is Some || (old(self)@.profile
                matches Some(p) && 1 <= p.key_id <= old(self)@.repository.keys.len())) ==> r
                is Ok,
    {
        if self.master_key.is_some() {
            return Ok(());
        }
        let profile = match &self.profile {
            Some(p) => p,
            None => {
                return Err(Error::StoreNotInitialized);
            },
        };
        let key_id = profile.key_id();
        match self.repository.find_key(key_id) {
            Ok(Some(rec)) => {
                self.master_key = Some(SecureKey::new(rec.into_encrypted_key()));
                Ok(())
            },
            Ok(None) => Err(Error::KeyDoesNotExist),
            Err(e) => Err(e),
        }
    }

    /// Creates a vault: generates a vault key, wraps it under the master
    /// key, and stores the wrapped key and the vault row as one
    /// all-or-nothing write.  Requires the master key Unlocked (`Locked`
    /// otherwise); on any failure the tables are exactly as before.
    pub fn create_vault(&mut self, name: String) -> (r: Result<Vault, Error>)
        requires
            old(self).wf(),
        ensures
            final(self).wf(),
            final(self)@.profile == old(self)@.profile,
            old(self).spec_is_locked() ==> (r matches Err(e) && e == Error::Locked && final(self)@
                == old(self)@),
            !old(self).spec_is_locked() && old(self).no_faults() && old(
                self,
            )@.repository.keys.len() < crate::repository::MAX_ROWS && old(
                self,
            )@.repository.vaults.len() < crate::repository::MAX_ROWS ==> r is Ok,
            old(self).spec_faults() matches Some(n) && n <= 1 ==> r is Err,
            r matches Err(e) ==> {
                &&& final(self)@.repository == old(self)@.repository
                &&& (final(self)@.master_key is Some <==> old(self)@.master_key is Some)
                &&& (final(self)@.master_key matches Some(sk) ==> (old(self)@.master_key
                    matches Some(so) && sk.encrypted_key == so.encrypted_key && (sk.decrypted_key
                    is Some <==> so.decrypted_key is Some)))
            },
            r matches Ok(v) ==> {
                &&& !old(self).spec_is_locked()
                &&& old(self)@.master_key matches Some(so)
                &&& so.decrypted_key matches Some(mko)
                &&& final(self)@.master_key matches Some(sk)
                &&& sk.decrypted_key matches Some(mk)
                &&& mk.id == mko.id && mk.key == mko.key
                &&& mk.counter == advanced(index_nonce(old(self)@.repository.keys.len() as u64))
                &&& sk.encrypted_key == so.encrypted_key
                &&& v@.vault_key.id == Some(old(self)@.repository.keys.len() + 1 as int)
                &&& final(self)@.repository.keys == old(self)@.repository.keys.push(
                    v@.vault_key.data,
                )
                &&& ({
                    let seeded = SymmetricKeyView {
                        counter: index_nonce(old(self)@.repository.keys.len() as u64),
                        ..mko
                    };
                    exists|vk: Seq<u8>|
                        v@.vault_key.data == #[trigger] spec_encrypted::<Vec<u8>>(seeded, vk)
                })
                &&& final(self)@.repository.vaults == old(self)@.repository.vaults.push(
                    crate::repository::VaultRecordView {
                        id: old(self)@.repository.vaults.len() + 1 as int,
                        name: name@,
                        key_id: old(self)@.repository.keys.len() + 1 as int,
                        created_at: old(self)@.repository.clock,
                        updated_at: old(self)@.repository.clock,
                    },
                )
                &&& final(self)@.repository.items == old(self)@.repository.items
                &&& final(self)@.repository.profile == old(self)@.repository.profile
                &&& v@.id == old(self)@.repository.vaults.len() + 1 as int
                &&& v@.name == name@
                &&& v.wf()
            },
    {
        let count = self.repository.key_count();
        let master_key = match &mut self.master_key {
            None => {
                return Err(Error::Locked);
            },
            Some(k) => k,
        };
        master_key.resume_counter(NonceCounter::from_index(count as u64));
        proof {
            lemma_index_nonce_fresh(count as u64);
        }
        let vault_key = SymmetricKey::generate();
        let mut enc_vault_key = match master_key.wrap_key(vault_key) {
            Ok(ek) => ek,
            Err(e) => {
                return Err(e);
            },
        };
        let saved = self.repository.checkpoint();
        if let Err(e) = enc_vault_key.store(&mut self.repository) {
            self.repository.restore(saved);
            return Err(e);
        }
        let key_id = match enc_vault_key.id() {
            Some(k) => k,
            None => {
                self.repository.restore(saved);
                return Err(Error::DatabaseError);
            },
        };
        let record = match self.repository.store_vault(name.as_str(), key_id) {
            Ok(rec) => rec,
            Err(e) => {
                self.repository.restore(saved);
                return Err(e);
            },
        };
        Ok(record.into_vault(enc_vault_key))
    }

    /// Lists every vault's identity and name.
    pub fn list_vaults(&mut self) -> (r: Result<Vec<VaultPreview>, Error>)
        requires
            old(self).wf(),
        ensures
            final(self).wf(),
            final(self)@ == old(self)@,
            r matches Ok(v) ==> v@.len() == old(self)@.repository.vaults.len() && forall|i: int|
                0 <= i < v@.len() ==> (#[trigger] v@[i])@.id == old(self)@.repository.vaults[i].id
                    && v@[i]@.name == old(self)@.repository.vaults[i].name,
            r matches Err(e) ==> e == Error::DatabaseError,
            old(self).no_faults() ==> r is Ok,
    {
        let records = match self.repository.list_vault_previews() {
            Ok(v) => v,
            Err(e) => {
                return Err(e);
            },
        };
        let ghost vaults = old(self)@.repository.vaults;
        let mut out: Vec<VaultPreview> = Vec::new();
        let mut i: usize = 0;
        while i < records.len()
            invariant
                i <= records@.len(),
                out@.len() == i,
                records@.len() == vaults.len(),
                forall|j: int|
                    0 <= j < records@.len() ==> (#[trigger] records@[j]).id as int == vaults[j].id
                        && records@[j].name@ == vaults[j].name,
                forall|j: int|
                    0 <= j < i ==> (#[trigger] out@[j])@.id == vaults[j].id && out@[j]@.name
                        == vaults[j].name,
            decreases records@.len() - i,
        {
            let rec = &records[i];
            out.push(VaultPreview::new(rec.id, rec.name.clone()));
            i = i + 1;
        }
        Ok(out)
    }

    /// Fetches a vault by identity: its row and its wrapped vault key.
    /// A vault row whose key is missing is `KeyDoesNotExist`.
    pub fn get_vault(&mut self, id: i64) -> (r: Result<Option<Vault>, Error>)
        requires
            old(self).wf(),
        ensures
            final(self).wf(),
            final(self)@ == old(self)@,
            r matches Ok(o) ==> match o {
                Some(v) => {
                    &&& 1 <= id as int <= old(self)@.repository.vaults.len()
                    &&& {
                        let rec = old(self)@.repository.vaults[id as int - 1];
                        &&& v@.id == rec.id
                        &&& v@.name == rec.name
                        &&& v@.vault_key.id == Some(rec.key_id)
                        &&& 1 <= rec.key_id <= old(self)@.repository.keys.len()
                        &&& v@.vault_key.data == old(self)@.repository.keys[rec.key_id - 1]
                        &&& v.wf()
                    }
                },
                None => !(1 <= id as int <= old(self)@.repository.vaults.len()),
            },
            r matches Err(e) ==> e == Error::DatabaseError && !old(self).no_faults() || e
                == Error::KeyDoesNotExist && 1 <= id as int <= old(self)@.repository.vaults.len()
                && !(1 <= old(self)@.repository.vaults[id as int - 1].key_id <= old(
                self,
            )@.repository.keys.len()),
            old(self).no_faults() && (1 <= id as int <= old(self)@.repository.vaults.len() ==> 1
                <= old(self)@.repository.vaults[id as int - 1].key_id <= old(
                self,
            )@.repository.keys.len()) ==> r is Ok,
    {
        let record = match self.repository.find_vault(id) {
            Ok(Some(rec)) => rec,
            Ok(None) => {
                return Ok(None);
            },
            Err(e) => {
                return Err(e);
            },
        };
        let key_record = match self.repository.find_key(record.key_id) {
            Ok(Some(rec)) => rec,
            Ok(None) => {
                return Err(Error::KeyDoesNotExist);
            },
            Err(e) => {
                return Err(e);
            },
        };
        Ok(Some(record.into_vault(key_record.into_encrypted_key())))
    }

    /// Unwraps a vault's key under the master key, for one operation;
    /// the clear key is never cached.  Fails with `Locked` while the
    /// master key is absent or locked.
    pub fn vault_symmetric_key(&self, vault: &Vault) -> (r: Result<SymmetricKey, Error>)
        requires
            self.wf(),
            vault.wf(),
        ensures
            self.spec_is_locked() ==> r == Err::<SymmetricKey, Error>(Error::Locked),
            !self.spec_is_locked() ==> (self@.master_key matches Some(sk)
                && sk.decrypted_key matches Some(mk) && match r {
                Ok(c) => spec_unwrap_key(mk, vault@.vault_key) == Ok::<SymmetricKeyView, Error>(c@)
                    && c@.counter == zero_nonce() && c.wf(),
                Err(e) => spec_unwrap_key(mk, vault@.vault_key) == Err::<SymmetricKeyView, Error>(
                    e,
                ),
            }),
    {
        match &self.master_key {
            None => Err(Error::Locked),
            Some(k) => k.unwrap_child(vault.vault_key()),
        }
    }

    /// How many key rows the collaborator holds; seeds wrap nonces.
    pub fn key_count(&self) -> (r: usize)
        ensures
            r == self@.repository.keys.len(),
            self.wf() ==> r <= crate::repository::MAX_ROWS,
    {
        self.repository.key_count()
    }

    /// Unwraps any wrapped key under the master key, for one operation.
    /// Fails with `Locked` while the master key is absent or locked.
    pub fn unwrap_key(&self, key: &crate::symmetric_key::EncryptedKey) -> (r: Result<
        SymmetricKey,
        Error,
    >)
        requires
            self.wf(),
            key.wf(),
        ensures
            self.spec_is_locked() ==> r == Err::<SymmetricKey, Error>(Error::Locked),
            !self.spec_is_locked() ==> (self@.master_key matches Some(sk)
                && sk.decrypted_key matches Some(mk) && match r {
                Ok(c) => crate::symmetric_key::spec_unwrap_key(mk, key@) == Ok::<
                    SymmetricKeyView,
                    Error,
                >(c@) && c.wf(),
                Err(e) => crate::symmetric_key::spec_unwrap_key(mk, key@) == Err::<
                    SymmetricKeyView,
                    Error,
                >(e),
            }),
    {
        match &self.master_key {
            None => Err(Error::Locked),
            Some(k) => k.unwrap_child(key),
        }
    }

    /// Borrows the collaborator for a vault-level operation.
    pub(crate) fn repository_mut(&mut self) -> (r: &mut Repository)
        ensures
            *r == old(self).spec_repository(),
            (*r)@ == old(self)@.repository,
            final(self).spec_repository() == *final(r),
            final(self)@.repository == final(r)@,
            final(self).spec_master_key() == old(self).spec_master_key(),
            final(self)@.master_key == old(self)@.master_key,
            final(self)@.profile == old(self)@.profile,
    {
        &mut self.repository
    }
}

} // verus!
