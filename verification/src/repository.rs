//! The persistence collaborator: record types and an in-memory store.
//!
//! The core needs record-level CRUD for keys, the profile, vaults and
//! items, plus all-or-nothing grouping of multi-record writes.  The
//! `Repository` here keeps the tables in memory; a checkpoint taken
//! before a multi-record write and restored on failure plays the role of
//! a transaction's rollback.  Every operation can also be made to fail on
//! demand (`fail_after`), the way a real database can fail, so that
//! callers' rollback behaviour is checkable.
//!
//! Row identifiers are assigned by the store on insert, starting at 1;
//! `created_at` and `updated_at` carry the store's logical clock.

use vstd::prelude::*;

use crate::errors::Error;
use crate::item::{ItemData, ItemOverview};
use crate::symmetric_key::{EncryptedData, EncryptedDataView, EncryptedKey, EncryptedKeyView};

verus! {

/// The mathematical value of a `ProfileRecord`.
pub struct ProfileRecordView {
    pub id: int,
    pub name: Seq<char>,
    pub salt: Seq<char>,
    pub key_id: int,
    pub created_at: int,
    pub updated_at: int,
}

/// The singleton profile row: the profile's name, the password salt, and
/// the master key's row identifier.
#[derive(Debug)]
pub struct ProfileRecord {
    pub id: i64,
    pub name: String,
    pub salt: String,
    pub key_id: i64,
    pub created_at: i64,
    pub updated_at: i64,
}

impl View for ProfileRecord {
    type V = ProfileRecordView;

    open spec fn view(&self) -> ProfileRecordView {
        ProfileRecordView {
            id: self.id as int,
            name: self.name@,
            salt: self.salt@,
            key_id: self.key_id as int,
            created_at: self.created_at as int,
            updated_at: self.updated_at as int,
        }
    }
}

impl Clone for ProfileRecord {
    fn clone(&self) -> (r: Self)
        ensures
            r@ == self@,
    {
        ProfileRecord {
            id: self.id,
            name: self.name.clone(),
            salt: self.salt.clone(),
            key_id: self.key_id,
            created_at: self.created_at,
            updated_at: self.updated_at,
        }
    }
}

/// The mathematical value of a `VaultRecord`.
pub struct VaultRecordView {
    pub id: int,
    pub name: Seq<char>,
    pub key_id: int,
    pub created_at: int,
    pub updated_at: int,
}

/// One vault row: its name and its vault key's row identifier.
#[derive(Debug)]
pub struct VaultRecord {
    pub id: i64,
    pub name: String,
    pub key_id: i64,
    pub created_at: i64,
    pub updated_at: i64,
}

impl View for VaultRecord {
    type V = VaultRecordView;

    open spec fn view(&self) -> VaultRecordView {
        VaultRecordView {
            id: self.id as int,
            name: self.name@,
            key_id: self.key_id as int,
            created_at: self.created_at as int,
            updated_at: self.updated_at as int,
        }
    }
}

impl Clone for VaultRecord {
    fn clone(&self) -> (r: Self)
        ensures
            r@ == self@,
    {
        VaultRecord {
            id: self.id,
            name: self.name.clone(),
            key_id: self.key_id,
            created_at: self.created_at,
            updated_at: self.updated_at,
        }
    }
}

impl VaultRecord {
    /// Carries a vault row and its wrapped key into a vault handle.
    pub fn into_vault(self, vault_key: EncryptedKey) -> (r: crate::vault::Vault)
        ensures
            r@.id == self.id as int,
            r@.name == self.name@,
            r@.created_at == self.created_at as int,
            r@.updated_at == self.updated_at as int,
            r@.vault_key == vault_key@,
            r.wf() == vault_key.wf(),
    {
        crate::vault::Vault::new(self.id, self.name, self.created_at, self.updated_at, vault_key)
    }
}

/// A vault listing entry: identity and name only.
#[derive(Debug)]
pub struct VaultPreviewRecord {
    pub id: i64,
    pub name: String,
}

impl VaultPreviewRecord {
    /// Carries the listing entry over into the caller-facing preview.
    pub fn into_vault_preview(self) -> (r: crate::vault::VaultPreview)
        ensures
            r@.id == self.id as int,
            r@.name == self.name@,
    {
        crate::vault::VaultPreview::new(self.id, self.name)
    }
}

/// One key row, as returned by the store: its assigned identity and the
/// wrapped key material.
#[derive(Debug)]
pub struct EncryptedKeyRecord {
    pub id: i64,
    pub key_encrypted_data: EncryptedData<Vec<u8>>,
}

impl EncryptedKeyRecord {
    /// Rebuilds the wrapped key a row stands for.
    pub fn into_encrypted_key(self) -> (r: EncryptedKey)
        ensures
            r@.id == Some(self.id as int),
            r@.data == self.key_encrypted_data@,
            r.wf() == self.key_encrypted_data.wf(),
    {
        EncryptedKey::new(Some(self.id), self.key_encrypted_data)
    }
}

/// The mathematical value of an `ItemRecord`.
pub struct ItemRecordView {
    pub id: int,
    pub vault_id: int,
    pub overview_encrypted_data: EncryptedDataView,
    pub overview_key_id: int,
    pub item_encrypted_data: EncryptedDataView,
    pub item_key_id: int,
    pub created_at: int,
    pub updated_at: int,
}

/// One item row: the vault it belongs to, the two ciphertexts, and the
/// row identifiers of the two keys that wrap them.
#[derive(Debug)]
pub struct ItemRecord {
    pub id: i64,
    pub vault_id: i64,
    pub overview_encrypted_data: EncryptedData<ItemOverview>,
    pub overview_key_id: i64,
    pub item_encrypted_data: EncryptedData<ItemData>,
    pub item_key_id: i64,
    pub created_at: i64,
    pub updated_at: i64,
}

impl View for ItemRecord {
    type V = ItemRecordView;

    open spec fn view(&self) -> ItemRecordView {
        ItemRecordView {
            id: self.id as int,
            vault_id: self.vault_id as int,
            overview_encrypted_data: self.overview_encrypted_data@,
            overview_key_id: self.overview_key_id as int,
            item_encrypted_data: self.item_encrypted_data@,
            item_key_id: self.item_key_id as int,
            created_at: self.created_at as int,
            updated_at: self.updated_at as int,
        }
    }
}

impl Clone for ItemRecord {
    fn clone(&self) -> (r: Self)
        ensures
            r@ == self@,
    {
        ItemRecord {
            id: self.id,
            vault_id: self.vault_id,
            overview_encrypted_data: self.overview_encrypted_data.clone(),
            overview_key_id: self.overview_key_id,
            item_encrypted_data: self.item_encrypted_data.clone(),
            item_key_id: self.item_key_id,
            created_at: self.created_at,
            updated_at: self.updated_at,
        }
    }
}

/// An item listing row: the item's identity with its encrypted overview
/// and the wrapped overview key, enough to decrypt the preview and
/// nothing more.
#[derive(Debug)]
pub struct ItemPreviewRecord {
    pub id: i64,
    pub vault_id: i64,
    pub overview_encrypted_data: EncryptedData<ItemOverview>,
    pub overview_key_id: i64,
    pub overview_key_encrypted_data: EncryptedData<Vec<u8>>,
    pub created_at: i64,
    pub updated_at: i64,
}

/// An item row joined with its two wrapped keys.
#[derive(Debug)]
pub struct ItemRecordWithKeys {
    pub item_record: ItemRecord,
    pub overview_key: EncryptedData<Vec<u8>>,
    pub data_key: EncryptedData<Vec<u8>>,
}

/// The largest number of rows a table accepts; an insert past it fails
/// the way a full store would fail.
pub const MAX_ROWS: usize = 0x4000_0000;

impl ItemRecordWithKeys {
    /// Carries an item row and its wrapped keys into an item handle,
    /// under the vault's wrapped key.
    pub fn into_item(self, vault_key: EncryptedKey) -> (r: crate::item::Item)
        ensures
            r@.id == self.item_record.id as int,
            r@.enc_overview.encrypted_data == self.item_record.overview_encrypted_data@,
            r@.enc_overview.encrypted_key.id == Some(self.item_record.overview_key_id as int),
            r@.enc_overview.encrypted_key.data == self.overview_key@,
            r@.enc_data.encrypted_data == self.item_record.item_encrypted_data@,
            r@.enc_data.encrypted_key.id == Some(self.item_record.item_key_id as int),
            r@.enc_data.encrypted_key.data == self.data_key@,
            r@.vault_key == vault_key@,
            r.wf() == (self.item_record.overview_encrypted_data.wf() && self.overview_key.wf()
                && self.item_record.item_encrypted_data.wf() && self.data_key.wf()
                && vault_key.wf()),
    {
        let overview_pair = crate::symmetric_key::EncryptedDataKeyPair::new(
            self.item_record.overview_encrypted_data,
            EncryptedKey::new(Some(self.item_record.overview_key_id), self.overview_key),
        );
        let data_pair = crate::symmetric_key::EncryptedDataKeyPair::new(
            self.item_record.item_encrypted_data,
            EncryptedKey::new(Some(self.item_record.item_key_id), self.data_key),
        );
        crate::item::Item::new(
            self.item_record.id,
            overview_pair,
            data_pair,
            self.item_record.created_at,
            self.item_record.updated_at,
            vault_key,
        )
    }
}

/// The mathematical value of a `Repository`: its four tables and its
/// logical clock.  The fault injector is deliberately not part of it.
pub struct RepositoryView {
    pub keys: Seq<EncryptedDataView>,
    pub profile: Option<ProfileRecordView>,
    pub vaults: Seq<VaultRecordView>,
    pub items: Seq<ItemRecordView>,
    pub clock: int,
}

/// A saved copy of the tables, taken before a multi-record write and
/// restored if any step of it fails.
pub struct Checkpoint {
    keys: Vec<EncryptedData<Vec<u8>>>,
    profile: Option<ProfileRecord>,
    vaults: Vec<VaultRecord>,
    items: Vec<ItemRecord>,
    clock: i64,
}

impl View for Checkpoint {
    type V = RepositoryView;

    closed spec fn view(&self) -> RepositoryView {
        RepositoryView {
            keys: self.keys@.map_values(|k: EncryptedData<Vec<u8>>| k@),
            profile: match self.profile {
                Some(p) => Some(p@),
                None => None,
            },
            vaults: self.vaults@.map_values(|v: VaultRecord| v@),
            items: self.items@.map_values(|i: ItemRecord| i@),
            clock: self.clock as int,
        }
    }
}

/// The in-memory persistence collaborator.
#[derive(Debug)]
pub struct Repository {
    keys: Vec<EncryptedData<Vec<u8>>>,
    profile: Option<ProfileRecord>,
    vaults: Vec<VaultRecord>,
    items: Vec<ItemRecord>,
    clock: i64,
    fault_countdown: Option<u64>,
}

impl View for Repository {
    type V = RepositoryView;

    closed spec fn view(&self) -> RepositoryView {
        RepositoryView {
            keys: self.keys@.map_values(|k: EncryptedData<Vec<u8>>| k@),
            profile: match self.profile {
                Some(p) => Some(p@),
                None => None,
            },
            vaults: self.vaults@.map_values(|v: VaultRecord| v@),
            items: self.items@.map_values(|i: ItemRecord| i@),
            clock: self.clock as int,
        }
    }
}

impl Repository {
    /// How many more operations succeed before one fails; `None` means
    /// no failure is scheduled.
    pub closed spec fn spec_faults(&self) -> Option<u64> {
        self.fault_countdown
    }

    /// True when the next operation is due to fail.
    pub open spec fn fails_now(&self) -> bool {
        self.spec_faults() == Some(0u64)
    }

    /// The shape every well-formed repository keeps: tables within the
    /// row cap, and a clock that has ticked once per clocked row, so
    /// that row identifiers and timestamps stay representable.
    pub open spec fn wf(&self) -> bool {
        &&& self@.keys.len() <= MAX_ROWS
        &&& self@.vaults.len() <= MAX_ROWS
        &&& self@.items.len() <= MAX_ROWS
        &&& self@.clock == 1 + (if self@.profile is Some {
            1int
        } else {
            0int
        }) + self@.vaults.len() + self@.items.len()
        &&& (self@.profile matches Some(p) ==> p.id == 1)
        &&& forall|i: int|
            0 <= i < self@.keys.len() ==> crate::symmetric_key::enc_data_wf(#[trigger] self@.keys[i])
        &&& forall|i: int|
            0 <= i < self@.items.len() ==> crate::symmetric_key::enc_data_wf(
                (#[trigger] self@.items[i]).overview_encrypted_data,
            ) && crate::symmetric_key::enc_data_wf(self@.items[i].item_encrypted_data)
        &&& forall|i: int| 0 <= i < self@.vaults.len() ==> (#[trigger] self@.vaults[i]).id == i + 1
        &&& forall|i: int| 0 <= i < self@.items.len() ==> (#[trigger] self@.items[i]).id == i + 1
    }

    /// A fresh, empty store with no failure scheduled.
    pub fn new() -> (r: Self)
        ensures
            r@.keys.len() == 0,
            r@.profile is None,
            r@.vaults.len() == 0,
            r@.items.len() == 0,
            r@.clock == 1,
            r.spec_faults() is None,
            r.wf(),
    {
        let r = Repository {
            keys: Vec::new(),
            profile: None,
            vaults: Vec::new(),
            items: Vec::new(),
            clock: 1,
            fault_countdown: None,
        };
        assert(r@.keys =~= Seq::<EncryptedDataView>::empty());
        assert(r@.vaults =~= Seq::<VaultRecordView>::empty());
        assert(r@.items =~= Seq::<ItemRecordView>::empty());
        r
    }

    /// Schedules a failure: the next `n` operations succeed and the one
    /// after them fails.
    pub fn fail_after(&mut self, n: u64)
        ensures
            final(self)@ == old(self)@,
            final(self).spec_faults() == Some(n),
    {
        self.fault_countdown = Some(n);
    }

    /// Consumes one step of the failure schedule; reports whether this
    /// operation is the failing one.
    fn tick(&mut self) -> (failed: bool)
        ensures
            final(self)@ == old(self)@,
            failed == old(self).fails_now(),
            !failed ==> final(self).spec_faults() == spec_faults_after(old(self).spec_faults()),
            failed ==> final(self).spec_faults() is None,
    {
        match self.fault_countdown {
            None => false,
            Some(n) => {
                if n == 0 {
                    self.fault_countdown = None;
                    true
                } else {
                    self.fault_countdown = Some(n - 1);
                    false
                }
            },
        }
    }

    /// Saves the tables.
    pub fn checkpoint(&self) -> (r: Checkpoint)
        ensures
            r@ == self@,
    {
        let r = Checkpoint {
            keys: clone_enc_vec(&self.keys),
            profile: match &self.profile {
                Some(p) => Some(p.clone()),
                None => None,
            },
            vaults: clone_vault_vec(&self.vaults),
            items: clone_item_vec(&self.items),
            clock: self.clock,
        };
        assert(r@.keys =~= self@.keys);
        assert(r@.vaults =~= self@.vaults);
        assert(r@.items =~= self@.items);
        assert(r@ == self@);
        r
    }

    /// Puts the tables back as a checkpoint saved them; the failure
    /// schedule is not affected.
    pub fn restore(&mut self, saved: Checkpoint)
        ensures
            final(self)@ == saved@,
            final(self).spec_faults() == old(self).spec_faults(),
    {
        self.keys = saved.keys;
        self.profile = saved.profile;
        self.vaults = saved.vaults;
        self.items = saved.items;
        self.clock = saved.clock;
    }

    /// How many key rows have ever been stored: a strictly growing
    /// count, used to seed wrap nonces so they stay unique across
    /// sessions.
    pub fn key_count(&self) -> (r: usize)
        ensures
            r == self@.keys.len(),
    {
        self.keys.len()
    }

    /// Inserts a wrapped key and returns the row with its assigned
    /// identifier.
    pub fn store_key(&mut self, key: &EncryptedData<Vec<u8>>) -> (r: Result<
        EncryptedKeyRecord,
        Error,
    >)
        requires
            old(self).wf(),
            key.wf(),
        ensures
            final(self).wf(),
            !old(self).fails_now() ==> final(self).spec_faults() == spec_faults_after(
                old(self).spec_faults(),
            ),
            old(self).fails_now() ==> final(self).spec_faults() is None,
            r matches Ok(rec) ==> !old(self).fails_now() && rec.id == old(self)@.keys.len() + 1
                && rec.key_encrypted_data@ == key@ && final(self)@.keys == old(self)@.keys.push(
                key@,
            ) && final(self)@.profile == old(self)@.profile && final(self)@.vaults == old(
                self,
            )@.vaults && final(self)@.items == old(self)@.items && final(self)@.clock == old(
                self,
            )@.clock,
            r matches Err(e) ==> (old(self).fails_now() || old(self)@.keys.len() == MAX_ROWS)
                && e == Error::DatabaseError && final(self)@ == old(self)@,
    {
        if self.tick() {
            return Err(Error::DatabaseError);
        }
        if self.keys.len() >= MAX_ROWS {
            return Err(Error::DatabaseError);
        }
        let id = self.keys.len() as i64 + 1;
        self.keys.push(key.clone());
        assert(self@.keys =~= old(self)@.keys.push(key@));
        Ok(EncryptedKeyRecord { id, key_encrypted_data: key.clone() })
    }

    /// Looks a key row up by its identifier.
    pub fn find_key(&mut self, key_id: i64) -> (r: Result<Option<EncryptedKeyRecord>, Error>)
        requires
            old(self).wf(),
        ensures
            final(self).wf(),
            !old(self).fails_now() ==> final(self).spec_faults() == spec_faults_after(
                old(self).spec_faults(),
            ),
            old(self).fails_now() ==> final(self).spec_faults() is None,
            final(self)@ == old(self)@,
            r matches Ok(o) ==> !old(self).fails_now() && match o {
                Some(rec) => 1 <= key_id as int <= old(self)@.keys.len() && rec.id == key_id
                    && rec.key_encrypted_data@ == old(self)@.keys[key_id as int - 1],
                None => !(1 <= key_id as int <= old(self)@.keys.len()),
            },
            r matches Err(e) ==> old(self).fails_now() && e == Error::DatabaseError,
    {
        if self.tick() {
            return Err(Error::DatabaseError);
        }
        if key_id >= 1 && key_id <= self.keys.len() as i64 {
            let idx = (key_id - 1) as usize;
            Ok(Some(EncryptedKeyRecord { id: key_id, key_encrypted_data: self.keys[idx].clone() }))
        } else {
            Ok(None)
        }
    }

    /// The singleton profile row, if one has been stored.
    pub fn get_profile(&mut self) -> (r: Result<Option<ProfileRecord>, Error>)
        requires
            old(self).wf(),
        ensures
            final(self).wf(),
            !old(self).fails_now() ==> final(self).spec_faults() == spec_faults_after(
                old(self).spec_faults(),
            ),
            old(self).fails_now() ==> final(self).spec_faults() is None,
            final(self)@ == old(self)@,
            r matches Ok(o) ==> !old(self).fails_now() && match o {
                Some(rec) => old(self)@.profile == Some(rec@),
                None => old(self)@.profile is None,
            },
            r matches Err(e) ==> old(self).fails_now() && e == Error::DatabaseError,
    {
        if self.tick() {
            return Err(Error::DatabaseError);
        }
        match &self.profile {
            Some(p) => Ok(Some(p.clone())),
            None => Ok(None),
        }
    }

    /// Inserts the singleton profile row; a second insert fails as the
    /// store's uniqueness constraint would make it fail.
    pub fn store_profile(&mut self, name: &str, salt: &str, key_id: i64) -> (r: Result<
        ProfileRecord,
        Error,
    >)
        requires
            old(self).wf(),
        ensures
            final(self).wf(),
            !old(self).fails_now() ==> final(self).spec_faults() == spec_faults_after(
                old(self).spec_faults(),
            ),
            old(self).fails_now() ==> final(self).spec_faults() is None,
            r matches Ok(rec) ==> !old(self).fails_now() && old(self)@.profile is None && rec@ == (
            ProfileRecordView {
                id: 1,
                name: name@,
                salt: salt@,
                key_id: key_id as int,
                created_at: old(self)@.clock,
                updated_at: old(self)@.clock,
            }) && final(self)@ == (RepositoryView {
                profile: Some(rec@),
                clock: old(self)@.clock + 1,
                ..old(self)@
            }),
            r matches Err(e) ==> final(self)@ == old(self)@ && e == Error::DatabaseError && (
            !old(self).fails_now() ==> old(self)@.profile is Some),
    {
        if self.tick() {
            return Err(Error::DatabaseError);
        }
        match &self.profile {
            Some(_) => Err(Error::DatabaseError),
            None => {
                let rec = ProfileRecord {
                    id: 1,
                    name: str_to_string(name),
                    salt: str_to_string(salt),
                    key_id,
                    created_at: self.clock,
                    updated_at: self.clock,
                };
                self.profile = Some(rec.clone());
                self.clock = self.clock + 1;
                Ok(rec)
            },
        }
    }

    /// Inserts a vault row and returns it with its assigned identifier.
    pub fn store_vault(&mut self, name: &str, key_id: i64) -> (r: Result<VaultRecord, Error>)
        requires
            old(self).wf(),
        ensures
            final(self).wf(),
            !old(self).fails_now() ==> final(self).spec_faults() == spec_faults_after(
                old(self).spec_faults(),
            ),
            old(self).fails_now() ==> final(self).spec_faults() is None,
            r matches Ok(rec) ==> !old(self).fails_now() && rec@ == (VaultRecordView {
                id: old(self)@.vaults.len() + 1 as int,
                name: name@,
                key_id: key_id as int,
                created_at: old(self)@.clock,
                updated_at: old(self)@.clock,
            }) && final(self)@ == (RepositoryView {
                vaults: old(self)@.vaults.push(rec@),
                clock: old(self)@.clock + 1,
                ..old(self)@
            }),
            r matches Err(e) ==> (old(self).fails_now() || old(self)@.vaults.len() == MAX_ROWS)
                && e == Error::DatabaseError && final(self)@ == old(self)@,
    {
        if self.tick() {
            return Err(Error::DatabaseError);
        }
        if self.vaults.len() >= MAX_ROWS {
            return Err(Error::DatabaseError);
        }
        let rec = VaultRecord {
            id: self.vaults.len() as i64 + 1,
            name: str_to_string(name),
            key_id,
            created_at: self.clock,
            updated_at: self.clock,
        };
        self.vaults.push(rec.clone());
        self.clock = self.clock + 1;
        assert(self@.vaults =~= old(self)@.vaults.push(rec@));
        Ok(rec)
    }

    /// Looks a vault row up by its identifier.
    pub fn find_vault(&mut self, id: i64) -> (r: Result<Option<VaultRecord>, Error>)
        requires
            old(self).wf(),
        ensures
            final(self).wf(),
            !old(self).fails_now() ==> final(self).spec_faults() == spec_faults_after(
                old(self).spec_faults(),
            ),
            old(self).fails_now() ==> final(self).spec_faults() is None,
            final(self)@ == old(self)@,
            r matches Ok(o) ==> !old(self).fails_now() && match o {
                Some(rec) => 1 <= id as int <= old(self)@.vaults.len() && rec@ == old(
                    self,
                )@.vaults[id as int - 1] && rec.id == id,
                None => !(1 <= id as int <= old(self)@.vaults.len()),
            },
            r matches Err(e) ==> old(self).fails_now() && e == Error::DatabaseError,
    {
        if self.tick() {
            return Err(Error::DatabaseError);
        }
        if id >= 1 && id <= self.vaults.len() as i64 {
            let idx = (id - 1) as usize;
            let rec = self.vaults[idx].clone();
            assert(rec@ == old(self)@.vaults[id as int - 1]);
            assert(rec@.id == id as int) by {
                assert(old(self)@.vaults[id as int - 1].id == id as int);
            }
            Ok(Some(rec))
        } else {
            Ok(None)
        }
    }

    /// Lists every vault as a preview row.
    pub fn list_vault_previews(&mut self) -> (r: Result<Vec<VaultPreviewRecord>, Error>)
        requires
            old(self).wf(),
        ensures
            final(self).wf(),
            !old(self).fails_now() ==> final(self).spec_faults() == spec_faults_after(
                old(self).spec_faults(),
            ),
            old(self).fails_now() ==> final(self).spec_faults() is None,
            final(self)@ == old(self)@,
            r matches Ok(v) ==> !old(self).fails_now() && v@.len() == old(self)@.vaults.len()
                && forall|i: int|
                0 <= i < v@.len() ==> (#[trigger] v@[i].id) as int == old(self)@.vaults[i].id
                    && v@[i].name@ == old(self)@.vaults[i].name,
            r matches Err(e) ==> old(self).fails_now() && e == Error::DatabaseError,
    {
        if self.tick() {
            return Err(Error::DatabaseError);
        }
        let mut out: Vec<VaultPreviewRecord> = Vec::new();
        let mut i: usize = 0;
        while i < self.vaults.len()
            invariant
                i <= self.vaults@.len(),
                self@ == old(self)@,
                self.vaults@.len() == self@.vaults.len(),
                forall|j: int|
                    0 <= j < self.vaults@.len() ==> (#[trigger] self.vaults@[j])@
                        == self@.vaults[j],
                out@.len() == i,
                forall|j: int|
                    0 <= j < i ==> (#[trigger] out@[j].id) as int == self@.vaults[j].id
                        && out@[j].name@ == self@.vaults[j].name,
            decreases self.vaults@.len() - i,
        {
            let rec = &self.vaults[i];
            out.push(VaultPreviewRecord { id: rec.id, name: rec.name.clone() });
            i = i + 1;
        }
        Ok(out)
    }

    /// Inserts an item row and returns it with its assigned identifier.
    pub fn store_item(
        &mut self,
        vault_id: i64,
        enc_item_overview: &EncryptedData<ItemOverview>,
        item_overview_key_id: i64,
        enc_item_data: &EncryptedData<ItemData>,
        item_data_key_id: i64,
    ) -> (r: Result<ItemRecord, Error>)
        requires
            old(self).wf(),
            enc_item_overview.wf(),
            enc_item_data.wf(),
        ensures
            final(self).wf(),
            !old(self).fails_now() ==> final(self).spec_faults() == spec_faults_after(
                old(self).spec_faults(),
            ),
            old(self).fails_now() ==> final(self).spec_faults() is None,
            r matches Ok(rec) ==> !old(self).fails_now() && rec@ == (ItemRecordView {
                id: old(self)@.items.len() + 1 as int,
                vault_id: vault_id as int,
                overview_encrypted_data: enc_item_overview@,
                overview_key_id: item_overview_key_id as int,
                item_encrypted_data: enc_item_data@,
                item_key_id: item_data_key_id as int,
                created_at: old(self)@.clock,
                updated_at: old(self)@.clock,
            }) && final(self)@ == (RepositoryView {
                items: old(self)@.items.push(rec@),
                clock: old(self)@.clock + 1,
                ..old(self)@
            }),
            r matches Err(e) ==> (old(self).fails_now() || old(self)@.items.len() == MAX_ROWS)
                && e == Error::DatabaseError && final(self)@ == old(self)@,
    {
        if self.tick() {
            return Err(Error::DatabaseError);
        }
        if self.items.len() >= MAX_ROWS {
            return Err(Error::DatabaseError);
        }
        let rec = ItemRecord {
            id: self.items.len() as i64 + 1,
            vault_id,
            overview_encrypted_data: enc_item_overview.clone(),
            overview_key_id: item_overview_key_id,
            item_encrypted_data: enc_item_data.clone(),
            item_key_id: item_data_key_id,
            created_at: self.clock,
            updated_at: self.clock,
        };
        self.items.push(rec.clone());
        self.clock = self.clock + 1;
        assert(self@.items =~= old(self)@.items.push(rec@));
        Ok(rec)
    }

    /// Looks an item row up together with its two wrapped keys; a
    /// missing item or a dangling key reference is an error, as the
    /// store's join would make it one.
    pub fn find_item(&mut self, id: i64) -> (r: Result<ItemRecordWithKeys, Error>)
        requires
            old(self).wf(),
        ensures
            final(self).wf(),
            !old(self).fails_now() ==> final(self).spec_faults() == spec_faults_after(
                old(self).spec_faults(),
            ),
            old(self).fails_now() ==> final(self).spec_faults() is None,
            final(self)@ == old(self)@,
            r matches Ok(rec) ==> !old(self).fails_now() && 1 <= id as int <= old(
                self,
            )@.items.len() && rec.item_record@ == old(self)@.items[id as int - 1] && 1
                <= rec.item_record.overview_key_id as int <= old(self)@.keys.len() && 1
                <= rec.item_record.item_key_id as int <= old(self)@.keys.len()
                && rec.overview_key@ == old(self)@.keys[rec.item_record.overview_key_id as int - 1]
                && rec.data_key@ == old(self)@.keys[rec.item_record.item_key_id as int - 1],
            r matches Err(e) ==> e == Error::DatabaseError && (old(self).fails_now() || !(1 <= id
                as int <= old(self)@.items.len()) || !(1 <= old(self)@.items[id as int
                - 1].overview_key_id <= old(self)@.keys.len()) || !(1 <= old(self)@.items[id as int
                - 1].item_key_id <= old(self)@.keys.len())),
            !old(self).fails_now() && 1 <= id as int <= old(self)@.items.len() && 1 <= old(
                self,
            )@.items[id as int - 1].overview_key_id <= old(self)@.keys.len() && 1 <= old(
                self,
            )@.items[id as int - 1].item_key_id <= old(self)@.keys.len() ==> r is Ok,
    {
        if self.tick() {
            return Err(Error::DatabaseError);
        }
        if !(id >= 1 && id <= self.items.len() as i64) {
            return Err(Error::DatabaseError);
        }
        let idx = (id - 1) as usize;
        let okid = self.items[idx].overview_key_id;
        let dkid = self.items[idx].item_key_id;
        if !(okid >= 1 && okid <= self.keys.len() as i64) {
            return Err(Error::DatabaseError);
        }
        if !(dkid >= 1 && dkid <= self.keys.len() as i64) {
            return Err(Error::DatabaseError);
        }
        let overview_key = self.keys[(okid - 1) as usize].clone();
        let data_key = self.keys[(dkid - 1) as usize].clone();
        Ok(ItemRecordWithKeys { item_record: self.items[idx].clone(), overview_key, data_key })
    }

    /// Lists the items of one vault, each joined with its wrapped
    /// overview key; a dangling key reference is an error.
    pub fn list_item_previews(&mut self, vault_id: i64) -> (r: Result<Vec<ItemPreviewRecord>, Error>)
        requires
            old(self).wf(),
        ensures
            final(self).wf(),
            !old(self).fails_now() ==> final(self).spec_faults() == spec_faults_after(
                old(self).spec_faults(),
            ),
            old(self).fails_now() ==> final(self).spec_faults() is None,
            final(self)@ == old(self)@,
            r matches Ok(v) ==> !old(self).fails_now() && {
                let selected = items_of_vault(old(self)@.items, vault_id as int);
                &&& v@.len() == selected.len()
                &&& forall|i: int|
                    #![trigger selected[i]]
                    0 <= i < v@.len() ==> {
                        let it = selected[i];
                        &&& v@[i].id as int == it.id
                        &&& v@[i].vault_id as int == it.vault_id
                        &&& v@[i].overview_encrypted_data@ == it.overview_encrypted_data
                        &&& v@[i].overview_key_id as int == it.overview_key_id
                        &&& 1 <= it.overview_key_id <= old(self)@.keys.len()
                        &&& v@[i].overview_key_encrypted_data@ == old(self)@.keys[it.overview_key_id
                            - 1]
                        &&& v@[i].overview_encrypted_data.wf()
                        &&& v@[i].overview_key_encrypted_data.wf()
                    }
            },
            r matches Err(e) ==> e == Error::DatabaseError && (old(self).fails_now() || exists|i:
                int|
                0 <= i < old(self)@.items.len() && (#[trigger] old(self)@.items[i]).vault_id
                    == vault_id as int && !(1 <= old(self)@.items[i].overview_key_id <= old(
                    self,
                )@.keys.len())),
            !old(self).fails_now() && (forall|i: int|
                0 <= i < old(self)@.items.len() && (#[trigger] old(self)@.items[i]).vault_id
                    == vault_id as int ==> 1 <= old(self)@.items[i].overview_key_id <= old(
                    self,
                )@.keys.len()) ==> r is Ok,
    {
        if self.tick() {
            return Err(Error::DatabaseError);
        }
        let ghost all = self@.items;
        let mut out: Vec<ItemPreviewRecord> = Vec::new();
        let mut i: usize = 0;
        while i < self.items.len()
            invariant
                old(self).wf(),
                !old(self).fails_now(),
                self.spec_faults() == spec_faults_after(old(self).spec_faults()),
                i <= self.items@.len(),
                self@ == old(self)@,
                self.items@.len() == self@.items.len(),
                self.keys@.len() == self@.keys.len(),
                forall|j: int|
                    0 <= j < self.items@.len() ==> (#[trigger] self.items@[j])@ == self@.items[j],
                forall|j: int|
                    0 <= j < self.keys@.len() ==> (#[trigger] self.keys@[j])@ == self@.keys[j],
                all == self@.items,
                out@.len() == items_of_vault(all.take(i as int), vault_id as int).len(),
                forall|j: int|
                    #![trigger items_of_vault(all.take(i as int), vault_id as int)[j]]
                    0 <= j < out@.len() ==> {
                        let it = items_of_vault(all.take(i as int), vault_id as int)[j];
                        &&& out@[j].id as int == it.id
                        &&& out@[j].vault_id as int == it.vault_id
                        &&& out@[j].overview_encrypted_data@ == it.overview_encrypted_data
                        &&& out@[j].overview_key_id as int == it.overview_key_id
                        &&& 1 <= it.overview_key_id <= self@.keys.len()
                        &&& out@[j].overview_key_encrypted_data@ == self@.keys[it.overview_key_id
                            - 1]
                        &&& out@[j].overview_encrypted_data.wf()
                        &&& out@[j].overview_key_encrypted_data.wf()
                    },
                out@.len() <= i,
            decreases self.items@.len() - i,
        {
            proof {
                assert(all.take(i + 1) =~= all.take(i as int).push(all[i as int]));
                lemma_items_of_vault_push(all.take(i as int), vault_id as int, all[i as int]);
            }
            let rec = &self.items[i];
            if rec.vault_id == vault_id {
                let okid = rec.overview_key_id;
                if !(okid >= 1 && okid <= self.keys.len() as i64) {
                    return Err(Error::DatabaseError);
                }
                let row = ItemPreviewRecord {
                    id: rec.id,
                    vault_id: rec.vault_id,
                    overview_encrypted_data: rec.overview_encrypted_data.clone(),
                    overview_key_id: okid,
                    overview_key_encrypted_data: self.keys[(okid - 1) as usize].clone(),
                    created_at: rec.created_at,
                    updated_at: rec.updated_at,
                };
                out.push(row);
            }
            i = i + 1;
        }
        proof {
            assert(all.take(self.items@.len() as int) =~= all);
        }
        Ok(out)
    }
}

/// The item rows that belong to one vault, in table order.
pub open spec fn items_of_vault(items: Seq<ItemRecordView>, vault_id: int) -> Seq<ItemRecordView>
    decreases items.len(),
{
    if items.len() == 0 {
        Seq::empty()
    } else {
        let rest = items_of_vault(items.drop_last(), vault_id);
        if items.last().vault_id == vault_id {
            rest.push(items.last())
        } else {
            rest
        }
    }
}

/// Appending one row extends a vault's items exactly when the row
/// belongs to the vault.
pub proof fn lemma_items_of_vault_push(s: Seq<ItemRecordView>, vault_id: int, x: ItemRecordView)
    ensures
        items_of_vault(s.push(x), vault_id) == if x.vault_id == vault_id {
            items_of_vault(s, vault_id).push(x)
        } else {
            items_of_vault(s, vault_id)
        },
{
    assert(s.push(x).drop_last() =~= s);
    assert(s.push(x).last() == x);
}

/// Every row of a vault's listing is one of the table's rows and
/// belongs to the vault.
pub proof fn lemma_items_of_vault_membership(items: Seq<ItemRecordView>, vault_id: int, j: int)
    requires
        0 <= j < items_of_vault(items, vault_id).len(),
    ensures
        exists|i: int|
            0 <= i < items.len() && (#[trigger] items[i]) == items_of_vault(items, vault_id)[j]
                && items[i].vault_id == vault_id,
    decreases items.len(),
{
    if items.len() > 0 {
        let rest = items.drop_last();
        let sel = items_of_vault(rest, vault_id);
        if items.last().vault_id == vault_id && j == sel.len() {
            assert(items[items.len() - 1] == items.last());
        } else {
            lemma_items_of_vault_membership(rest, vault_id, j);
            let i = choose|i: int|
                0 <= i < rest.len() && (#[trigger] rest[i]) == items_of_vault(rest, vault_id)[j]
                    && rest[i].vault_id == vault_id;
            assert(items[i] == rest[i]);
        }
    }
}

/// What remains of a failure schedule after one successful operation.
pub open spec fn spec_faults_after(f: Option<u64>) -> Option<u64> {
    match f {
        None => None,
        Some(n) => Some((n - 1) as u64),
    }
}

/// Copies a table of wrapped-key blobs.
fn clone_enc_vec(v: &Vec<EncryptedData<Vec<u8>>>) -> (r: Vec<EncryptedData<Vec<u8>>>)
    ensures
        r@.len() == v@.len(),
        forall|i: int| 0 <= i < v@.len() ==> (#[trigger] r@[i])@ == v@[i]@,
{
    let mut out: Vec<EncryptedData<Vec<u8>>> = Vec::new();
    let mut i: usize = 0;
    while i < v.len()
        invariant
            i <= v@.len(),
            out@.len() == i,
            forall|j: int| 0 <= j < i ==> (#[trigger] out@[j])@ == v@[j]@,
        decreases v@.len() - i,
    {
        out.push(v[i].clone());
        i = i + 1;
    }
    out
}

/// Copies the vault table.
fn clone_vault_vec(v: &Vec<VaultRecord>) -> (r: Vec<VaultRecord>)
    ensures
        r@.len() == v@.len(),
        forall|i: int| 0 <= i < v@.len() ==> (#[trigger] r@[i])@ == v@[i]@,
{
    let mut out: Vec<VaultRecord> = Vec::new();
    let mut i: usize = 0;
    while i < v.len()
        invariant
            i <= v@.len(),
            out@.len() == i,
            forall|j: int| 0 <= j < i ==> (#[trigger] out@[j])@ == v@[j]@,
        decreases v@.len() - i,
    {
        out.push(v[i].clone());
        i = i + 1;
    }
    out
}

/// Copies the item table.
fn clone_item_vec(v: &Vec<ItemRecord>) -> (r: Vec<ItemRecord>)
    ensures
        r@.len() == v@.len(),
        forall|i: int| 0 <= i < v@.len() ==> (#[trigger] r@[i])@ == v@[i]@,
{
    let mut out: Vec<ItemRecord> = Vec::new();
    let mut i: usize = 0;
    while i < v.len()
        invariant
            i <= v@.len(),
            out@.len() == i,
            forall|j: int| 0 <= j < i ==> (#[trigger] out@[j])@ == v@[j]@,
        decreases v@.len() - i,
    {
        out.push(v[i].clone());
        i = i + 1;
    }
    out
}

/// Copies a borrowed string.
fn str_to_string(s: &str) -> (r: String)
    ensures
        r@ == s@,
{
    s.to_owned()
}

} // verus!
