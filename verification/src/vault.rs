//! Vaults: named collections of items, each guarded by its own vault key
//! wrapped under the master key.

use vstd::prelude::*;

use crate::errors::Error;
use crate::item::{Item, ItemData, ItemOverview, ItemPreview};
use crate::repository::items_of_vault;
use crate::nonce_counter::{
    advanced, index_nonce, lemma_index_nonce_fresh, nonce_spent, zero_nonce, NonceCounter,
};
use crate::store::Store;
use crate::symmetric_key::{
    spec_encrypted, spec_item_decrypt, spec_unwrap_key, spec_unwrap_then_decrypt,
    EncryptedDataKeyPair, EncryptedDataKeyPairView, EncryptedKey, EncryptedKeyView,
    SymmetricKey, SymmetricKeyView,
};

verus! {

/// The mathematical value of a `VaultPreview`.
pub struct VaultPreviewView {
    pub id: int,
    pub name: Seq<char>,
}

/// What a vault listing returns for one vault.
#[derive(Debug)]
pub struct VaultPreview {
    id: i64,
    name: String,
}

impl View for VaultPreview {
    type V = VaultPreviewView;

    closed spec fn view(&self) -> VaultPreviewView {
        VaultPreviewView { id: self.id as int, name: self.name@ }
    }
}

impl VaultPreview {
    pub fn new(id: i64, name: String) -> (r: Self)
        ensures
            r@.id == id as int,
            r@.name == name@,
    {
        Self { id, name }
    }

    pub fn id(&self) -> (r: i64)
        ensures
            r as int == self@.id,
    {
        self.id
    }

    pub fn name(&self) -> (r: &str)
        ensures
            r@ == self@.name,
    {
        self.name.as_str()
    }
}

/// The mathematical value of a `Vault`.
pub struct VaultView {
    pub id: int,
    pub name: Seq<char>,
    pub created_at: int,
    pub updated_at: int,
    pub vault_key: EncryptedKeyView,
}

/// A vault handle: its record fields and its wrapped vault key.  The
/// vault key is unwrapped under the master key on each use, never cached
/// in the clear.
#[derive(Debug)]
pub struct Vault {
    id: i64,
    name: String,
    created_at: i64,
    updated_at: i64,
    vault_key: EncryptedKey,
}

impl View for Vault {
    type V = VaultView;

    closed spec fn view(&self) -> VaultView {
        VaultView {
            id: self.id as int,
            name: self.name@,
            created_at: self.created_at as int,
            updated_at: self.updated_at as int,
            vault_key: self.vault_key@,
        }
    }
}

impl Vault {
    pub open spec fn wf(&self) -> bool {
        crate::symmetric_key::enc_data_wf(self@.vault_key.data)
    }

    pub fn new(id: i64, name: String, created_at: i64, updated_at: i64, vault_key: EncryptedKey) -> (r:
        Self)
        ensures
            r@.id == id as int,
            r@.name == name@,
            r@.created_at == created_at as int,
            r@.updated_at == updated_at as int,
            r@.vault_key == vault_key@,
            r.wf() == vault_key.wf(),
    {
        Self { id, name, created_at, updated_at, vault_key }
    }

    pub fn id(&self) -> (r: i64)
        ensures
            r as int == self@.id,
    {
        self.id
    }

    pub fn name(&self) -> (r: &str)
        ensures
            r@ == self@.name,
    {
        self.name.as_str()
    }

    pub fn created_at(&self) -> (r: i64)
        ensures
            r as int == self@.created_at,
    {
        self.created_at
    }

    pub fn updated_at(&self) -> (r: i64)
        ensures
            r as int == self@.updated_at,
    {
        self.updated_at
    }

    /// The wrapped vault key.
    pub fn vault_key(&self) -> (r: &EncryptedKey)
        ensures
            r@ == self@.vault_key,
            r.wf() == self.wf(),
    {
        &self.vault_key
    }
}

impl Vault {
    /// Creates an item in this vault: generates two independent keys,
    /// wraps each under the vault key, encrypts the overview and the
    /// secret payload each under its own key, and stores both wrapped
    /// keys and the item row as one all-or-nothing write.  Listing
    /// previews therefore never needs the secret-bearing key.  Requires
    /// the store's master key Unlocked; on any failure the tables are
    /// exactly as before.  On success the returned item decrypts,
    /// through the key hierarchy, to exactly the given overview and
    /// payload.
    pub fn create_item(&self, store: &mut Store, item_overview: ItemOverview, item_data: ItemData)
        -> (r: Result<Item, Error>)
        requires
            old(store).wf(),
            self.wf(),
        ensures
            final(store).wf(),
            final(store)@.profile == old(store)@.profile,
            final(store)@.master_key == old(store)@.master_key,
            old(store).spec_is_locked() ==> (r matches Err(e) && e == Error::Locked
                && final(store)@ == old(store)@),
            !old(store).spec_is_locked() && old(store).no_faults() && (old(store)@.master_key
                matches Some(sk0) && sk0.decrypted_key matches Some(mk0) && spec_unwrap_key(
                mk0,
                self@.vault_key,
            ) is Ok) && crate::item::overview_len(item_overview@)
                <= crate::aead::MAX_PLAINTEXT_LEN && crate::item::data_len(item_data@)
                <= crate::aead::MAX_PLAINTEXT_LEN && old(store)@.repository.keys.len() + 2
                <= crate::repository::MAX_ROWS && old(store)@.repository.items.len()
                < crate::repository::MAX_ROWS ==> r is Ok,
            old(store).spec_faults() matches Some(n) && n <= 2 ==> r is Err,
            r matches Err(e) ==> final(store)@.repository == old(store)@.repository,
            r matches Ok(item) ==> {
                &&& old(store)@.master_key matches Some(sk)
                &&& sk.decrypted_key matches Some(mk)
                &&& final(store)@.repository.vaults == old(store)@.repository.vaults
                &&& final(store)@.repository.profile == old(store)@.repository.profile
                &&& final(store)@.repository.keys == old(store)@.repository.keys.push(
                    item@.enc_overview.encrypted_key.data,
                ).push(item@.enc_data.encrypted_key.data)
                &&& final(store)@.repository.items == old(store)@.repository.items.push(
                    crate::repository::ItemRecordView {
                        id: old(store)@.repository.items.len() + 1 as int,
                        vault_id: self@.id,
                        overview_encrypted_data: item@.enc_overview.encrypted_data,
                        overview_key_id: old(store)@.repository.keys.len() + 1 as int,
                        item_encrypted_data: item@.enc_data.encrypted_data,
                        item_key_id: old(store)@.repository.keys.len() + 2 as int,
                        created_at: old(store)@.repository.clock,
                        updated_at: old(store)@.repository.clock,
                    },
                )
                &&& item@.id == old(store)@.repository.items.len() + 1
                &&& item@.vault_key == self@.vault_key
                &&& item@.enc_overview.encrypted_key.id == Some(
                    old(store)@.repository.keys.len() + 1 as int,
                )
                &&& item@.enc_data.encrypted_key.id == Some(
                    old(store)@.repository.keys.len() + 2 as int,
                )
                &&& spec_item_decrypt::<ItemOverview>(mk, self@.vault_key, item@.enc_overview)
                    == Ok::<crate::item::ItemOverviewView, Error>(item_overview@)
                &&& spec_item_decrypt::<ItemData>(mk, self@.vault_key, item@.enc_data) == Ok::<
                    crate::item::ItemDataView,
                    Error,
                >(item_data@)
                &&& item.wf()
            },
    {
        let count = store.key_count();
        let mut vault_sym = match store.vault_symmetric_key(self) {
            Ok(k) => k,
            Err(e) => {
                return Err(e);
            },
        };
        // Each wrap under the vault key gets its own index-seeded nonce;
        // the key count grows by two per item, so wrap nonces never
        // repeat under one vault key, across sessions included
        // (`lemma_index_nonce_injective`).
        vault_sym.resume_counter(NonceCounter::from_index(count as u64));
        let ghost vsv0 = vault_sym@;
        let overview_key = SymmetricKey::generate();
        let data_key = SymmetricKey::generate();
        proof {
            lemma_index_nonce_fresh(count as u64);
            lemma_index_nonce_fresh((count + 1) as u64);
            lemma_zero_counter_fresh();
        }
        let enc_overview_key_r = overview_key.clone().into_encrypted_key(&mut vault_sym);
        let mut enc_overview_key = match enc_overview_key_r {
            Ok(ek) => ek,
            Err(e) => {
                vault_sym.destroy();
                overview_key.destroy();
                data_key.destroy();
                return Err(e);
            },
        };
        vault_sym.resume_counter(NonceCounter::from_index((count + 1) as u64));
        let ghost vsv1 = vault_sym@;
        let enc_data_key_r = data_key.clone().into_encrypted_key(&mut vault_sym);
        vault_sym.destroy();
        let mut enc_data_key = match enc_data_key_r {
            Ok(ek) => ek,
            Err(e) => {
                overview_key.destroy();
                data_key.destroy();
                return Err(e);
            },
        };
        let ghost vault_id = self@.id;
        let repo = store.repository_mut();
        let saved = repo.checkpoint();
        if let Err(e) = enc_overview_key.store(repo) {
            repo.restore(saved);
            overview_key.destroy();
            data_key.destroy();
            return Err(e);
        }
        let okid = match enc_overview_key.id() {
            Some(k) => k,
            None => {
                repo.restore(saved);
                overview_key.destroy();
                data_key.destroy();
                return Err(Error::DatabaseError);
            },
        };
        if let Err(e) = enc_data_key.store(repo) {
            repo.restore(saved);
            overview_key.destroy();
            data_key.destroy();
            return Err(e);
        }
        let dkid = match enc_data_key.id() {
            Some(k) => k,
            None => {
                repo.restore(saved);
                overview_key.destroy();
                data_key.destroy();
                return Err(Error::DatabaseError);
            },
        };
        let mut overview_key = overview_key;
        overview_key.assign_id(okid);
        let enc_item_overview = match overview_key.encrypt(&item_overview) {
            Ok(ed) => ed,
            Err(e) => {
                overview_key.destroy();
                data_key.destroy();
                repo.restore(saved);
                return Err(e);
            },
        };
        let ghost okv = overview_key@;
        overview_key.destroy();
        let mut data_key = data_key;
        data_key.assign_id(dkid);
        let enc_item_data = match data_key.encrypt(&item_data) {
            Ok(ed) => ed,
            Err(e) => {
                data_key.destroy();
                repo.restore(saved);
                return Err(e);
            },
        };
        let ghost dkv = data_key@;
        data_key.destroy();
        let record = match repo.store_item(self.id, &enc_item_overview, okid, &enc_item_data, dkid) {
            Ok(rec) => rec,
            Err(e) => {
                repo.restore(saved);
                return Err(e);
            },
        };
        proof {
            let okv0 = SymmetricKeyView { counter: zero_nonce(), ..okv };
            crate::symmetric_key::lemma_encrypt_decrypt_round_trip::<Vec<u8>>(vsv0, okv.key);
            crate::symmetric_key::lemma_encrypt_decrypt_round_trip::<Vec<u8>>(vsv1, dkv.key);
            crate::symmetric_key::lemma_encrypt_decrypt_round_trip::<ItemOverview>(
                okv0,
                item_overview@,
            );
            crate::symmetric_key::lemma_encrypt_decrypt_round_trip::<ItemData>(
                SymmetricKeyView { counter: zero_nonce(), ..dkv },
                item_data@,
            );
        }
        Ok(
            Item::new(
                record.id,
                EncryptedDataKeyPair::new(enc_item_overview, enc_overview_key),
                EncryptedDataKeyPair::new(enc_item_data, enc_data_key),
                record.created_at,
                record.updated_at,
                self.vault_key.clone(),
            ),
        )
    }

    /// Lists this vault's items as previews: each row's overview key is
    /// unwrapped under the vault key and its overview decrypted; the
    /// secret payloads and their keys are never touched.  Requires the
    /// store's master key Unlocked.
    pub fn list_items(&self, store: &mut Store) -> (r: Result<Vec<ItemPreview>, Error>)
        requires
            old(store).wf(),
            self.wf(),
        ensures
            final(store).wf(),
            final(store)@ == old(store)@,
            old(store).spec_is_locked() ==> (r matches Err(e) && e == Error::Locked),
            !old(store).spec_is_locked() && old(store).no_faults() && (old(store)@.master_key
                matches Some(sk0) && sk0.decrypted_key matches Some(mk0) && (spec_unwrap_key(
                mk0,
                self@.vault_key,
            ) matches Ok(vk0) && (forall|i: int|
                0 <= i < old(store)@.repository.items.len() && (#[trigger] old(
                    store,
                )@.repository.items[i]).vault_id == self@.id ==> 1 <= old(
                    store,
                )@.repository.items[i].overview_key_id <= old(store)@.repository.keys.len()
                    && spec_unwrap_then_decrypt::<ItemOverview>(
                    vk0,
                    EncryptedDataKeyPairView {
                        encrypted_data: old(store)@.repository.items[i].overview_encrypted_data,
                        encrypted_key: EncryptedKeyView {
                            id: Some(old(store)@.repository.items[i].overview_key_id),
                            data: old(store)@.repository.keys[old(
                                store,
                            )@.repository.items[i].overview_key_id - 1],
                        },
                    },
                ) is Ok))) ==> r is Ok,
            r matches Ok(v) ==> (old(store)@.master_key matches Some(sk)
                && sk.decrypted_key matches Some(mk) && (spec_unwrap_key(
                mk,
                self@.vault_key,
            ) matches Ok(vk) && {
                let selected = items_of_vault(old(store)@.repository.items, self@.id);
                &&& v@.len() == selected.len()
                &&& forall|i: int|
                    #![trigger selected[i]]
                    0 <= i < v@.len() ==> {
                        let it = selected[i];
                        &&& v@[i]@.id == it.id
                        &&& 1 <= it.overview_key_id <= old(store)@.repository.keys.len()
                        &&& spec_unwrap_then_decrypt::<ItemOverview>(
                            vk,
                            EncryptedDataKeyPairView {
                                encrypted_data: it.overview_encrypted_data,
                                encrypted_key: EncryptedKeyView {
                                    id: Some(it.overview_key_id),
                                    data: old(store)@.repository.keys[it.overview_key_id - 1],
                                },
                            },
                        ) == Ok::<crate::item::ItemOverviewView, Error>(v@[i]@.overview)
                    }
            })),
    {
        let vault_sym = match store.vault_symmetric_key(self) {
            Ok(k) => k,
            Err(e) => {
                return Err(e);
            },
        };
        let ghost keys = old(store)@.repository.keys;
        let records = match store.repository_mut().list_item_previews(self.id) {
            Ok(v) => v,
            Err(e) => {
                vault_sym.destroy();
                return Err(e);
            },
        };
        proof {
            assert(self@.id == self.id as int);
        }
        let ghost selected = items_of_vault(old(store)@.repository.items, self@.id);
        let mut out: Vec<ItemPreview> = Vec::new();
        let mut i: usize = 0;
        while i < records.len()
            invariant
                i <= records@.len(),
                out@.len() == i,
                vault_sym.wf(),
                store.wf(),
                store@ == old(store)@,
                !old(store).spec_is_locked(),
                selected == crate::repository::items_of_vault(
                    old(store)@.repository.items,
                    self@.id,
                ),
                keys == old(store)@.repository.keys,
                old(store)@.master_key matches Some(sk) && sk.decrypted_key matches Some(mk)
                    && spec_unwrap_key(mk, self@.vault_key) == Ok::<SymmetricKeyView, Error>(
                    vault_sym@,
                ),
                records@.len() == selected.len(),
                forall|j: int|
                    #![trigger records@[j]]
                    0 <= j < records@.len() ==> {
                        let it = selected[j];
                        &&& records@[j].id as int == it.id
                        &&& records@[j].overview_encrypted_data@ == it.overview_encrypted_data
                        &&& records@[j].overview_key_id as int == it.overview_key_id
                        &&& 1 <= it.overview_key_id <= keys.len()
                        &&& records@[j].overview_key_encrypted_data@ == keys[it.overview_key_id - 1]
                        &&& records@[j].overview_encrypted_data.wf()
                        &&& records@[j].overview_key_encrypted_data.wf()
                    },
                forall|j: int|
                    #![trigger out@[j]]
                    0 <= j < i ==> {
                        let it = selected[j];
                        &&& out@[j]@.id == it.id
                        &&& spec_unwrap_then_decrypt::<ItemOverview>(
                            vault_sym@,
                            EncryptedDataKeyPairView {
                                encrypted_data: it.overview_encrypted_data,
                                encrypted_key: EncryptedKeyView {
                                    id: Some(it.overview_key_id),
                                    data: keys[it.overview_key_id - 1],
                                },
                            },
                        ) == Ok::<crate::item::ItemOverviewView, Error>(out@[j]@.overview)
                    },
            decreases records@.len() - i,
        {
            let idx = i;
            i = i + 1;
            let rec = records_take(&records, idx);
            match rec.try_into_item_preview(&vault_sym) {
                Ok(p) => {
                    out.push(p);
                },
                Err(e) => {
                    proof {
                        crate::repository::lemma_items_of_vault_membership(
                            old(store)@.repository.items,
                            self@.id,
                            idx as int,
                        );
                    }
                    vault_sym.destroy();
                    return Err(e);
                },
            }
        }
        vault_sym.destroy();
        Ok(out)
    }

    /// Fetches one item of this vault by identity, with its two wrapped
    /// keys, ready to decrypt.
    pub fn get_item(&self, store: &mut Store, id: i64) -> (r: Result<Item, Error>)
        requires
            old(store).wf(),
            self.wf(),
        ensures
            final(store).wf(),
            final(store)@ == old(store)@,
            r matches Ok(item) ==> {
                &&& 1 <= id as int <= old(store)@.repository.items.len()
                &&& {
                    let it = old(store)@.repository.items[id as int - 1];
                    &&& item@.id == it.id
                    &&& item@.enc_overview.encrypted_data == it.overview_encrypted_data
                    &&& item@.enc_overview.encrypted_key.id == Some(it.overview_key_id)
                    &&& 1 <= it.overview_key_id <= old(store)@.repository.keys.len()
                    &&& item@.enc_overview.encrypted_key.data
                        == old(store)@.repository.keys[it.overview_key_id - 1]
                    &&& item@.enc_data.encrypted_data == it.item_encrypted_data
                    &&& item@.enc_data.encrypted_key.id == Some(it.item_key_id)
                    &&& 1 <= it.item_key_id <= old(store)@.repository.keys.len()
                    &&& item@.enc_data.encrypted_key.data
                        == old(store)@.repository.keys[it.item_key_id - 1]
                    &&& item@.vault_key == self@.vault_key
                    &&& item.wf()
                }
            },
            r matches Err(e) ==> e == Error::DatabaseError && (!old(store).no_faults() || !(1 <= id
                as int <= old(store)@.repository.items.len()) || !(1 <= old(
                store,
            )@.repository.items[id as int - 1].overview_key_id <= old(
                store,
            )@.repository.keys.len()) || !(1 <= old(store)@.repository.items[id as int
                - 1].item_key_id <= old(store)@.repository.keys.len())),
            old(store).no_faults() && 1 <= id as int <= old(store)@.repository.items.len() && 1
                <= old(store)@.repository.items[id as int - 1].overview_key_id <= old(
                store,
            )@.repository.keys.len() && 1 <= old(store)@.repository.items[id as int
                - 1].item_key_id <= old(store)@.repository.keys.len() ==> r is Ok,
    {
        let record = match store.repository_mut().find_item(id) {
            Ok(rec) => rec,
            Err(e) => {
                return Err(e);
            },
        };
        Ok(record.into_item(self.vault_key.clone()))
    }
}

/// A fresh key's zero counter is far from spent.
proof fn lemma_zero_counter_fresh()
    ensures
        !nonce_spent(zero_nonce()),
{
    assert(zero_nonce()[0] == 0);
}

/// Hands one listing row out of the vector by value.
fn records_take(records: &Vec<crate::repository::ItemPreviewRecord>, i: usize) -> (r:
    crate::repository::ItemPreviewRecord)
    requires
        i < records@.len(),
    ensures
        r.id == records@[i as int].id,
        r.overview_key_id == records@[i as int].overview_key_id,
        r.overview_encrypted_data@ == records@[i as int].overview_encrypted_data@,
        r.overview_key_encrypted_data@ == records@[i as int].overview_key_encrypted_data@,
{
    let rec = &records[i];
    crate::repository::ItemPreviewRecord {
        id: rec.id,
        vault_id: rec.vault_id,
        overview_encrypted_data: rec.overview_encrypted_data.clone(),
        overview_key_id: rec.overview_key_id,
        overview_key_encrypted_data: rec.overview_key_encrypted_data.clone(),
        created_at: rec.created_at,
        updated_at: rec.updated_at,
    }
}

} // verus!
