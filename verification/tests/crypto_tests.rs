use cerberus_store::codec::Serializable;
use cerberus_store::identifier::SerializeDeriveKeyError;
use cerberus_store::kdf::DerivationMaterial;
use cerberus_store::symmetric_key::EncryptedDataKeyPair;
use cerberus_store::envelope::Envelope;
use cerberus_store::errors::Error;
use cerberus_store::identifier::KeyIdentifier;
use cerberus_store::item::{ItemData, ItemOverview};
use cerberus_store::kdf::{derive_key, hash_password};
use cerberus_store::mac::HmacKey;
use cerberus_store::symmetric_key::SymmetricKey;

// A fixed, valid B64 salt string (16 bytes of salt).
const SALT: &str = "c29tZXNhbHRzb21lc2FsdA";

#[test]
fn encrypt_decrypt_round_trip_overview() {
    let mut key = SymmetricKey::generate();
    let overview = ItemOverview::new("GitHub".to_owned(), "github.com".to_owned());
    let encrypted = key.encrypt(&overview).unwrap();
    let decrypted: ItemOverview = key.decrypt(&encrypted).unwrap();
    assert_eq!(decrypted.name(), "GitHub");
    assert_eq!(decrypted.site(), "github.com");
}

#[test]
fn encrypt_decrypt_round_trip_data() {
    let mut key = SymmetricKey::generate();
    let data = ItemData::new("s3cr3t".to_owned());
    let encrypted = key.encrypt(&data).unwrap();
    let decrypted: ItemData = key.decrypt(&encrypted).unwrap();
    assert_eq!(decrypted.secret(), "s3cr3t");
}

#[test]
fn encrypt_decrypt_round_trip_bytes() {
    let mut key = SymmetricKey::generate();
    let payload: Vec<u8> = vec![0, 1, 2, 250, 255];
    let encrypted = key.encrypt(&payload).unwrap();
    let decrypted: Vec<u8> = key.decrypt(&encrypted).unwrap();
    assert_eq!(decrypted, payload);
}

#[test]
fn decrypt_with_mismatched_identifier_fails() {
    let mut key = SymmetricKey::new(&[1u8; 32], Some(1)).unwrap();
    let other = SymmetricKey::new(&[1u8; 32], Some(2)).unwrap();
    let unstored = SymmetricKey::new(&[1u8; 32], None).unwrap();

    let encrypted = key.encrypt(&ItemData::new("payload".to_owned())).unwrap();
    assert!(matches!(
        other.decrypt::<ItemData>(&encrypted),
        Err(Error::IncorrectKey)
    ));
    assert!(matches!(
        unstored.decrypt::<ItemData>(&encrypted),
        Err(Error::IncorrectKey)
    ));
}

#[test]
fn decrypt_with_wrong_key_material_fails() {
    let mut key = SymmetricKey::new(&[1u8; 32], Some(1)).unwrap();
    let wrong = SymmetricKey::new(&[2u8; 32], Some(1)).unwrap();
    let encrypted = key.encrypt(&ItemData::new("payload".to_owned())).unwrap();
    assert!(matches!(
        wrong.decrypt::<ItemData>(&encrypted),
        Err(Error::EncryptionFailed)
    ));
}

#[test]
fn nonces_follow_the_counter_and_never_repeat() {
    let mut key = SymmetricKey::generate();
    let payload = ItemData::new("x".to_owned());
    let mut nonces = Vec::new();
    for _ in 0..5 {
        let encrypted = key.encrypt(&payload).unwrap();
        nonces.push(encrypted.nonce().clone());
    }
    // The first nonce is the zero counter; each later one is the counter
    // advanced once more.
    let mut expected = cerberus_store::nonce_counter::NonceCounter::default();
    for nonce in &nonces {
        assert_eq!(*nonce, expected.get_value());
        expected.increment().unwrap();
    }
    for i in 0..nonces.len() {
        for j in (i + 1)..nonces.len() {
            assert_ne!(nonces[i], nonces[j]);
        }
    }
}

#[test]
fn codec_round_trips() {
    let overview = ItemOverview::new("hello world".to_owned(), "site.example".to_owned());
    let bytes = overview.serialize();
    let back = ItemOverview::deserialize(&bytes).unwrap();
    assert_eq!(back.name(), "hello world");
    assert_eq!(back.site(), "site.example");

    let data = ItemData::new("hello world".to_owned());
    let bytes = data.serialize();
    let back = ItemData::deserialize(&bytes).unwrap();
    assert_eq!(back.secret(), "hello world");

    let raw: Vec<u8> = b"hello world".to_vec();
    let bytes = raw.serialize();
    let back = <Vec<u8>>::deserialize(&bytes).unwrap();
    assert_eq!(back, raw);
}

#[test]
fn truncated_encoding_is_rejected() {
    let overview = ItemOverview::new("name".to_owned(), "site".to_owned());
    let bytes = overview.serialize();
    assert!(ItemOverview::deserialize(&bytes[..bytes.len() - 1]).is_none());
    assert!(ItemOverview::deserialize(&[1, 2, 3]).is_none());
}

#[test]
fn derive_key_is_deterministic() {
    let a = derive_key(b"input keying material", "label", 32);
    let b = derive_key(b"input keying material", "label", 32);
    assert_eq!(a, b);
    assert_eq!(a.len(), 32);

    let c = derive_key(b"input keying material", "other label", 32);
    assert_ne!(a, c);

    let d = derive_key(b"other material", "label", 32);
    assert_ne!(a, d);
}

#[test]
fn hash_password_is_deterministic_and_salted() {
    let a = hash_password(b"password", SALT).unwrap();
    let b = hash_password(b"password", SALT).unwrap();
    assert_eq!(a, b);
    assert_eq!(a.len(), 32);

    let c = hash_password(b"other password", SALT).unwrap();
    assert_ne!(a, c);

    assert!(matches!(
        hash_password(b"password", "not a valid salt!!"),
        Err(Error::PasswordHashingFailed)
    ));
}

#[test]
fn hmac_tags_compute_and_verify() {
    let key = HmacKey::new(vec![9u8; 32], KeyIdentifier::local()).unwrap();
    let tag = key.compute_tag(b"message");
    assert_eq!(tag.len(), 32);
    assert_eq!(tag, key.compute_tag(b"message"));
    assert!(key.verify_tag(b"message", &tag).is_ok());
    assert!(key.verify_tag(b"other message", &tag).is_err());
    let mut bad = tag.clone();
    bad[0] ^= 1;
    assert!(key.verify_tag(b"message", &bad).is_err());

    let other = HmacKey::new(vec![8u8; 32], KeyIdentifier::local()).unwrap();
    assert_ne!(other.compute_tag(b"message"), tag);
}

#[test]
fn key_identifier_verification() {
    let a = KeyIdentifier::local();
    let b = KeyIdentifier::local();
    assert!(a.verify_identifier(&b).is_ok());

    let u = KeyIdentifier::uuid();
    assert!(a.verify_identifier(&u).is_err());
    assert!(u.verify_identifier(&u.clone_id()).is_ok());

    let d1 = KeyIdentifier::derived("ctx".to_owned(), Some(KeyIdentifier::local()));
    let d2 = KeyIdentifier::derived("ctx".to_owned(), Some(KeyIdentifier::local()));
    let d3 = KeyIdentifier::derived("other".to_owned(), Some(KeyIdentifier::local()));
    let d4 = KeyIdentifier::derived("ctx".to_owned(), None);
    assert!(d1.verify_identifier(&d2).is_ok());
    assert!(d1.verify_identifier(&d3).is_err());
    assert!(d1.verify_identifier(&d4).is_err());
}

#[test]
fn envelope_seal_open_round_trip() {
    let mut kek = SymmetricKey::generate();
    let data = ItemData::new("sealed secret".to_owned());
    let envelope = Envelope::seal(&mut kek, &data).unwrap();
    let opened: ItemData = envelope.open(&kek).unwrap();
    assert_eq!(opened.secret(), "sealed secret");

    let wrong = SymmetricKey::new(&[3u8; 32], None).unwrap();
    assert!(envelope.open(&wrong).is_err());
}

#[test]
fn invalid_key_sizes_are_rejected() {
    let err = SymmetricKey::new(&[0u8; 16], None).unwrap_err();
    assert_eq!(err.expected, 32);
    assert_eq!(err.actual, 16);
    assert!(HmacKey::new(vec![0u8; 31], KeyIdentifier::local()).is_err());
}

#[test]
fn pair_with_random_key_round_trips() {
    let mut parent = SymmetricKey::generate();
    let data = ItemData::new("pair secret".to_owned());
    let pair = EncryptedDataKeyPair::encrypt_with_random_key(&data, &mut parent).unwrap();
    let back: ItemData = pair.decrypt(&parent).unwrap();
    assert_eq!(back.secret(), "pair secret");
}

#[test]
fn replacing_pair_data_advances_the_nonce() {
    let mut parent = SymmetricKey::generate();
    let data = ItemData::new("before".to_owned());
    let mut pair = EncryptedDataKeyPair::encrypt_with_random_key(&data, &mut parent).unwrap();
    let nonce_before = pair.encrypted_data().nonce().clone();

    pair.encrypt_and_replace(&parent, &ItemData::new("after".to_owned()))
        .unwrap();
    let nonce_after = pair.encrypted_data().nonce().clone();
    assert_ne!(nonce_before, nonce_after);

    let back: ItemData = pair.decrypt(&parent).unwrap();
    assert_eq!(back.secret(), "after");
}

#[test]
fn derived_identifiers_are_never_serialized() {
    let local = KeyIdentifier::local();
    let bytes = local.to_bytes().unwrap();
    let back = KeyIdentifier::from_bytes(&bytes).unwrap();
    assert!(local.verify_identifier(&back).is_ok());

    let random = KeyIdentifier::uuid();
    let bytes = random.to_bytes().unwrap();
    let back = KeyIdentifier::from_bytes(&bytes).unwrap();
    assert!(random.verify_identifier(&back).is_ok());

    let derived = KeyIdentifier::derived("ctx".to_owned(), Some(KeyIdentifier::local()));
    assert_eq!(derived.to_bytes(), Err(SerializeDeriveKeyError));

    assert!(KeyIdentifier::from_bytes(&[9, 9, 9]).is_none());
    assert!(KeyIdentifier::from_bytes(&[]).is_none());
}

#[test]
fn derived_keys_record_their_provenance() {
    let material = DerivationMaterial::new(vec![5u8; 32], KeyIdentifier::local());
    let (key_a, id_a) = material.derive_symmetric_key("vault");
    let (key_b, id_b) = material.derive_symmetric_key("vault");
    assert!(id_a.verify_identifier(&id_b).is_ok());

    // Determinism: equal inputs give equal key material; observable by
    // encrypting under one derived key and decrypting under the other.
    let mut key_a = key_a;
    let encrypted = key_a.encrypt(&ItemData::new("derived".to_owned())).unwrap();
    let back: ItemData = key_b.decrypt(&encrypted).unwrap();
    assert_eq!(back.secret(), "derived");

    let mac_a = material.derive_hmac_key("vault");
    let mac_b = material.derive_hmac_key("vault");
    assert_eq!(mac_a.compute_tag(b"m"), mac_b.compute_tag(b"m"));
    // Different purposes and labels give different keys.
    assert_ne!(mac_a.compute_tag(b"m"), material.derive_hmac_key("other").compute_tag(b"m"));
}

#[test]
fn envelope_storage_form_round_trips() {
    let mut key = SymmetricKey::new(&[4u8; 32], Some(7)).unwrap();
    let encrypted = key.encrypt(&ItemData::new("stored".to_owned())).unwrap();

    let bytes = encrypted.to_bytes();
    let back = cerberus_store::symmetric_key::EncryptedData::<ItemData>::from_bytes(&bytes)
        .expect("the storage form decodes");
    assert_eq!(back.key_id(), Some(7));
    assert_eq!(back.nonce(), encrypted.nonce());
    let decrypted: ItemData = key.decrypt(&back).unwrap();
    assert_eq!(decrypted.secret(), "stored");

    // A key that was never persisted round-trips its absent identity too.
    let mut local = SymmetricKey::new(&[4u8; 32], None).unwrap();
    let encrypted = local.encrypt(&ItemData::new("local".to_owned())).unwrap();
    let back = cerberus_store::symmetric_key::EncryptedData::<ItemData>::from_bytes(
        &encrypted.to_bytes(),
    )
    .unwrap();
    assert_eq!(back.key_id(), None);

    // Truncated or mangled storage bytes are rejected.
    let bytes = encrypted.to_bytes();
    assert!(cerberus_store::symmetric_key::EncryptedData::<ItemData>::from_bytes(
        &bytes[..bytes.len() - 1]
    )
    .is_none());
    assert!(cerberus_store::symmetric_key::EncryptedData::<ItemData>::from_bytes(&[5, 5]).is_none());
}
