//! Items stored in a vault: a public-ish overview (name and site) and a
//! secret payload, encrypted under two independent keys so that listing
//! previews never touches the secret-bearing key.

use vstd::prelude::*;
use vstd::slice::slice_to_vec;
use vstd::string::StrSliceExecFns;
use vstd::utf8::{decode_utf8, encode_utf8, encode_utf8_decode_utf8, valid_utf8};

use crate::codec::{
    lemma_parse_length_prefixed, length_prefixed, parse_length_prefixed, push_length_prefixed,
    read_length_prefixed, string_from_utf8, Serializable,
};
use crate::errors::Error;
use crate::store::Store;
use crate::symmetric_key::{
    enc_data_wf, spec_item_decrypt, spec_unwrap_then_decrypt, EncryptedDataKeyPair,
    EncryptedDataKeyPairView, EncryptedKey, EncryptedKeyView, SymmetricKey,
};

verus! {

/// The mathematical value of an `ItemOverview`.
pub struct ItemOverviewView {
    pub name: Seq<char>,
    pub site: Seq<char>,
}

/// What an item shows in listings: a display name and the site it is for.
#[derive(Debug)]
pub struct ItemOverview {
    name: String,
    site: String,
}

impl View for ItemOverview {
    type V = ItemOverviewView;

    closed spec fn view(&self) -> ItemOverviewView {
        ItemOverviewView { name: self.name@, site: self.site@ }
    }
}

impl ItemOverview {
    pub fn new(name: String, site: String) -> (r: Self)
        ensures
            r@.name == name@,
            r@.site == site@,
    {
        Self { name, site }
    }

    pub fn name(&self) -> (r: &str)
        ensures
            r@ == self@.name,
    {
        self.name.as_str()
    }

    pub fn site(&self) -> (r: &str)
        ensures
            r@ == self@.site,
    {
        self.site.as_str()
    }
}

impl Serializable for ItemOverview {
    open spec fn spec_wf(v: ItemOverviewView) -> bool {
        encode_utf8(v.name).len() <= u64::MAX && encode_utf8(v.site).len() <= u64::MAX
    }

    open spec fn spec_serialized(v: ItemOverviewView) -> Seq<u8> {
        length_prefixed(encode_utf8(v.name)) + length_prefixed(encode_utf8(v.site))
    }

    open spec fn spec_deserialized(b: Seq<u8>) -> Option<ItemOverviewView> {
        match parse_length_prefixed(b, 0) {
            Some((nb, p1)) => match parse_length_prefixed(b, p1) {
                Some((sb, p2)) => if p2 == b.len() && valid_utf8(nb) && valid_utf8(sb) {
                    Some(ItemOverviewView { name: decode_utf8(nb), site: decode_utf8(sb) })
                } else {
                    None
                },
                None => None,
            },
            None => None,
        }
    }

    proof fn lemma_serialization_round_trip(v: ItemOverviewView) {
        vstd::bytes::lemma_auto_spec_u64_to_from_le_bytes();
        let nb = encode_utf8(v.name);
        let sb = encode_utf8(v.site);
        let b = Self::spec_serialized(v);
        assert(length_prefixed(nb).len() == 8 + nb.len());
        assert(length_prefixed(sb).len() == 8 + sb.len());
        assert(Seq::<u8>::empty() + length_prefixed(nb) + length_prefixed(sb) =~= b);
        lemma_parse_length_prefixed(Seq::<u8>::empty(), nb, length_prefixed(sb));
        assert(parse_length_prefixed(b, 0) == Some((nb, 8 + nb.len() as int)));
        assert(length_prefixed(nb) + length_prefixed(sb) + Seq::<u8>::empty() =~= b);
        lemma_parse_length_prefixed(length_prefixed(nb), sb, Seq::<u8>::empty());
        assert(parse_length_prefixed(b, 8 + nb.len() as int) == Some((sb, b.len() as int)));
        vstd::utf8::encode_utf8_valid_utf8(v.name);
        vstd::utf8::encode_utf8_valid_utf8(v.site);
        encode_utf8_decode_utf8(v.name);
        encode_utf8_decode_utf8(v.site);
        assert(Self::spec_deserialized(b) == Some(ItemOverviewView {
            name: decode_utf8(nb),
            site: decode_utf8(sb),
        }));
        assert(decode_utf8(nb) == v.name);
        assert(decode_utf8(sb) == v.site);
        assert(Self::spec_deserialized(Self::spec_serialized(v)) == Some(v));
    }

    fn serialize(&self) -> (r: Vec<u8>) {
        let mut out: Vec<u8> = Vec::new();
        let nb = self.name.as_str().as_bytes_vec();
        push_length_prefixed(&mut out, nb.as_slice());
        let sb = self.site.as_str().as_bytes_vec();
        push_length_prefixed(&mut out, sb.as_slice());
        assert(out@ =~= Self::spec_serialized(self@));
        out
    }

    fn deserialize(bytes: &[u8]) -> (r: Option<Self>) {
        match read_length_prefixed(bytes, 0) {
            Some((nb, p1)) => {
                assert(p1 <= bytes@.len());
                match read_length_prefixed(bytes, p1) {
                    Some((sb, p2)) => {
                        if p2 != bytes.len() {
                            return None;
                        }
                        let name = match string_from_utf8(nb) {
                            Some(s) => s,
                            None => {
                                return None;
                            },
                        };
                        let site = match string_from_utf8(sb) {
                            Some(s) => s,
                            None => {
                                return None;
                            },
                        };
                        proof {
                            encode_utf8_decode_utf8(name@);
                            encode_utf8_decode_utf8(site@);
                        }
                        Some(ItemOverview { name, site })
                    },
                    None => None,
                }
            },
            None => None,
        }
    }
}

/// The mathematical value of an `ItemData`.
pub struct ItemDataView {
    pub secret: Seq<char>,
}

/// The secret payload of an item.
#[derive(Debug)]
pub struct ItemData {
    secret: String,
}

impl View for ItemData {
    type V = ItemDataView;

    closed spec fn view(&self) -> ItemDataView {
        ItemDataView { secret: self.secret@ }
    }
}

impl ItemData {
    pub fn new(secret: String) -> (r: Self)
        ensures
            r@.secret == secret@,
    {
        Self { secret }
    }

    pub fn secret(&self) -> (r: &str)
        ensures
            r@ == self@.secret,
    {
        self.secret.as_str()
    }
}

impl Serializable for ItemData {
    open spec fn spec_wf(v: ItemDataView) -> bool {
        true
    }

    open spec fn spec_serialized(v: ItemDataView) -> Seq<u8> {
        encode_utf8(v.secret)
    }

    open spec fn spec_deserialized(b: Seq<u8>) -> Option<ItemDataView> {
        if valid_utf8(b) {
            Some(ItemDataView { secret: decode_utf8(b) })
        } else {
            None
        }
    }

    proof fn lemma_serialization_round_trip(v: ItemDataView) {
        vstd::utf8::encode_utf8_valid_utf8(v.secret);
        encode_utf8_decode_utf8(v.secret);
    }

    fn serialize(&self) -> (r: Vec<u8>) {
        self.secret.as_str().as_bytes_vec()
    }

    fn deserialize(bytes: &[u8]) -> (r: Option<Self>) {
        match string_from_utf8(slice_to_vec(bytes)) {
            Some(secret) => {
                proof {
                    encode_utf8_decode_utf8(secret@);
                }
                Some(ItemData { secret })
            },
            None => None,
        }
    }
}

/// The encoded length of an overview: what must fit the cipher.
pub open spec fn overview_len(v: ItemOverviewView) -> nat {
    <ItemOverview as Serializable>::spec_serialized(v).len()
}

/// The encoded length of a secret payload: what must fit the cipher.
pub open spec fn data_len(v: ItemDataView) -> nat {
    <ItemData as Serializable>::spec_serialized(v).len()
}

/// The mathematical value of an `ItemPreview`.
pub struct ItemPreviewView {
    pub id: int,
    pub overview: ItemOverviewView,
}

/// What a listing returns for one item: its identity and its decrypted
/// overview.
#[derive(Debug)]
pub struct ItemPreview {
    id: i64,
    overview: ItemOverview,
}

impl View for ItemPreview {
    type V = ItemPreviewView;

    closed spec fn view(&self) -> ItemPreviewView {
        ItemPreviewView { id: self.id as int, overview: self.overview@ }
    }
}

impl ItemPreview {
    pub fn new(id: i64, overview: ItemOverview) -> (r: Self)
        ensures
            r@.id == id as int,
            r@.overview == overview@,
    {
        Self { id, overview }
    }

    pub fn id(&self) -> (r: i64)
        ensures
            r as int == self@.id,
    {
        self.id
    }

    pub fn overview(&self) -> (r: &ItemOverview)
        ensures
            r@ == self@.overview,
    {
        &self.overview
    }
}

/// The mathematical value of an `Item`.
pub struct ItemView {
    pub id: int,
    pub enc_overview: EncryptedDataKeyPairView,
    pub enc_data: EncryptedDataKeyPairView,
    pub created_at: int,
    pub updated_at: int,
    pub vault_key: EncryptedKeyView,
}

/// A full item handle: the two ciphertext/key pairs, the row fields, and
/// the vault's wrapped key that opens the pairs.
#[derive(Debug)]
pub struct Item {
    id: i64,
    enc_overview: EncryptedDataKeyPair<ItemOverview>,
    enc_data: EncryptedDataKeyPair<ItemData>,
    created_at: i64,
    updated_at: i64,
    vault_key: EncryptedKey,
}

impl View for Item {
    type V = ItemView;

    closed spec fn view(&self) -> ItemView {
        ItemView {
            id: self.id as int,
            enc_overview: self.enc_overview@,
            enc_data: self.enc_data@,
            created_at: self.created_at as int,
            updated_at: self.updated_at as int,
            vault_key: self.vault_key@,
        }
    }
}

impl Item {
    pub open spec fn wf(&self) -> bool {
        &&& enc_data_wf(self@.enc_overview.encrypted_data)
        &&& enc_data_wf(self@.enc_overview.encrypted_key.data)
        &&& enc_data_wf(self@.enc_data.encrypted_data)
        &&& enc_data_wf(self@.enc_data.encrypted_key.data)
        &&& enc_data_wf(self@.vault_key.data)
    }

    pub fn new(
        id: i64,
        enc_overview: EncryptedDataKeyPair<ItemOverview>,
        enc_data: EncryptedDataKeyPair<ItemData>,
        created_at: i64,
        updated_at: i64,
        vault_key: EncryptedKey,
    ) -> (r: Item)
        ensures
            r@ == (ItemView {
                id: id as int,
                enc_overview: enc_overview@,
                enc_data: enc_data@,
                created_at: created_at as int,
                updated_at: updated_at as int,
                vault_key: vault_key@,
            }),
            r.wf() == (enc_overview.wf() && enc_data.wf() && vault_key.wf()),
    {
        Self { id, enc_overview, enc_data, created_at, updated_at, vault_key }
    }

    pub fn id(&self) -> (r: i64)
        ensures
            r as int == self@.id,
    {
        self.id
    }

    /// Decrypts the item's overview through the key hierarchy: master
    /// key, then vault key, then overview key.  Fails with `Locked`
    /// while the store's master key is absent or locked; otherwise
    /// exactly `spec_item_decrypt`.
    pub fn overview(&self, store: &Store) -> (r: Result<ItemOverview, Error>)
        requires
            store.wf(),
            self.wf(),
        ensures
            store.spec_is_locked() ==> r == Err::<ItemOverview, Error>(Error::Locked),
            !store.spec_is_locked() ==> (store@.master_key matches Some(sk)
                && sk.decrypted_key matches Some(mk) && match r {
                Ok(v) => spec_item_decrypt::<ItemOverview>(mk, self@.vault_key, self@.enc_overview)
                    == Ok::<ItemOverviewView, Error>(v@),
                Err(e) => spec_item_decrypt::<ItemOverview>(mk, self@.vault_key, self@.enc_overview)
                    == Err::<ItemOverviewView, Error>(e),
            }),
    {
        let vault_sym = match store.unwrap_key(&self.vault_key) {
            Ok(k) => k,
            Err(e) => {
                return Err(e);
            },
        };
        let r = self.enc_overview.decrypt(&vault_sym);
        vault_sym.destroy();
        r
    }

    /// Decrypts the item's secret payload through the key hierarchy:
    /// master key, then vault key, then data key.  Fails with `Locked`
    /// while the store's master key is absent or locked; otherwise
    /// exactly `spec_item_decrypt`.
    pub fn data(&self, store: &Store) -> (r: Result<ItemData, Error>)
        requires
            store.wf(),
            self.wf(),
        ensures
            store.spec_is_locked() ==> r == Err::<ItemData, Error>(Error::Locked),
            !store.spec_is_locked() ==> (store@.master_key matches Some(sk)
                && sk.decrypted_key matches Some(mk) && match r {
                Ok(v) => spec_item_decrypt::<ItemData>(mk, self@.vault_key, self@.enc_data) == Ok::<
                    ItemDataView,
                    Error,
                >(v@),
                Err(e) => spec_item_decrypt::<ItemData>(mk, self@.vault_key, self@.enc_data)
                    == Err::<ItemDataView, Error>(e),
            }),
    {
        let vault_sym = match store.unwrap_key(&self.vault_key) {
            Ok(k) => k,
            Err(e) => {
                return Err(e);
            },
        };
        let r = self.enc_data.decrypt(&vault_sym);
        vault_sym.destroy();
        r
    }
}

/// Decrypts a listing row into a preview, under the vault's key.
impl crate::repository::ItemPreviewRecord {
    pub fn try_into_item_preview(self, parent_key: &SymmetricKey) -> (r: Result<ItemPreview, Error>)
        requires
            parent_key.wf(),
            self.overview_encrypted_data.wf(),
            self.overview_key_encrypted_data.wf(),
        ensures
            match r {
                Ok(p) => spec_unwrap_then_decrypt::<ItemOverview>(
                    parent_key@,
                    EncryptedDataKeyPairView {
                        encrypted_data: self.overview_encrypted_data@,
                        encrypted_key: EncryptedKeyView {
                            id: Some(self.overview_key_id as int),
                            data: self.overview_key_encrypted_data@,
                        },
                    },
                ) == Ok::<ItemOverviewView, Error>(p@.overview) && p@.id == self.id as int,
                Err(e) => spec_unwrap_then_decrypt::<ItemOverview>(
                    parent_key@,
                    EncryptedDataKeyPairView {
                        encrypted_data: self.overview_encrypted_data@,
                        encrypted_key: EncryptedKeyView {
                            id: Some(self.overview_key_id as int),
                            data: self.overview_key_encrypted_data@,
                        },
                    },
                ) == Err::<ItemOverviewView, Error>(e),
            },
    {
        let enc_overview_key = EncryptedKey::new(
            Some(self.overview_key_id),
            self.overview_key_encrypted_data,
        );
        let pair = EncryptedDataKeyPair::new(self.overview_encrypted_data, enc_overview_key);
        match pair.decrypt(parent_key) {
            Ok(overview) => Ok(ItemPreview::new(self.id, overview)),
            Err(e) => Err(e),
        }
    }
}

} // verus!
