use cerberus_store::errors::Error;
use cerberus_store::item::{ItemData, ItemOverview};
use cerberus_store::repository::Repository;
use cerberus_store::store::Store;
use cerberus_store::symmetric_key::SymmetricKey;

#[test]
fn can_create_vault() {
    let mut store = Store::new(Repository::new());
    store
        .initialize_profile("User".into(), "password".into())
        .unwrap();

    let vault_name = String::from("my vault");
    let vault = store.create_vault(vault_name.clone()).unwrap();
    assert_eq!(vault.name(), vault_name);
}

#[test]
fn can_store_and_retrieve_data() {
    let mut store = Store::new(Repository::new());

    let password = String::from("mypassword");
    store
        .initialize_profile("User".to_owned(), &password)
        .unwrap();

    let vault = store.create_vault("Personal vault".to_owned()).unwrap();
    {
        let name = String::from("My item");
        let site = String::from("https://my-item.com");
        let item_overview = ItemOverview::new(name.clone(), site.clone());

        let secret = String::from("item-password");
        let item_data = ItemData::new(secret.clone());

        let item = vault
            .create_item(&mut store, item_overview, item_data)
            .unwrap();

        let item_overview = item.overview(&store).unwrap();
        let item_data = item.data(&store).unwrap();

        assert_eq!(item_overview.site(), site);
        assert_eq!(item_overview.name(), name);
        assert_eq!(item_data.secret(), secret);
    }

    store.lock().unwrap();
    let vaults = store.list_vaults().unwrap();
    assert_eq!(vaults.len(), 1);

    let vault = vaults.get(0).unwrap();
    let vault = store.get_vault(vault.id()).unwrap().unwrap();

    store.unlock(&password).unwrap();
    let items = vault.list_items(&mut store).unwrap();
    assert_eq!(items.len(), 1);
    let item_preview = items.get(0).unwrap();
    let item = vault.get_item(&mut store, item_preview.id()).unwrap();

    let item_overview = item.overview(&store).unwrap();
    let item_data = item.data(&store).unwrap();

    assert_eq!(item_overview.site(), "https://my-item.com");
    assert_eq!(item_overview.name(), "My item");

    assert_eq!(item_data.secret(), "item-password");
}

#[test]
fn unlock_with_correct_password_succeeds() {
    let mut store = Store::new(Repository::new());
    store
        .initialize_profile("User".to_owned(), "correct-horse")
        .unwrap();
    store.lock().unwrap();
    store.unlock("correct-horse").unwrap();

    // A fresh store over the same data unlocks with the right password
    // and refuses the wrong one, without panicking.
    let mut fresh = Store::new(store.into_repository());
    assert!(matches!(
        fresh.unlock("wrong"),
        Err(Error::IncorrectPassword)
    ));
    fresh.unlock("correct-horse").unwrap();
}

#[test]
fn unlock_before_initialization_fails() {
    let mut store = Store::new(Repository::new());
    assert!(matches!(
        store.unlock("password"),
        Err(Error::StoreNotInitialized)
    ));
}

#[test]
fn profile_can_only_be_initialized_once() {
    let mut store = Store::new(Repository::new());
    store
        .initialize_profile("User".to_owned(), "password")
        .unwrap();
    assert!(matches!(
        store.initialize_profile("User".to_owned(), "password"),
        Err(Error::ProfileAlreadyExists)
    ));
}

#[test]
fn lock_state_machine_rejects_wrong_transitions() {
    let mut store = Store::new(Repository::new());
    // Nothing fetched yet: locking is an error.
    assert!(matches!(store.lock(), Err(Error::Locked)));

    store
        .initialize_profile("User".to_owned(), "password")
        .unwrap();
    // Initialization leaves the store unlocked.
    assert!(matches!(
        store.unlock("password"),
        Err(Error::StoreAlreadyUnlocked)
    ));
    store.lock().unwrap();
    assert!(matches!(store.lock(), Err(Error::Locked)));
    store.unlock("password").unwrap();
    assert!(matches!(
        store.unlock("password"),
        Err(Error::StoreAlreadyUnlocked)
    ));
    store.lock().unwrap();
}

#[test]
fn crypto_operations_require_unlocked_master_key() {
    let mut store = Store::new(Repository::new());
    store
        .initialize_profile("User".to_owned(), "password")
        .unwrap();
    let vault = store.create_vault("Personal".to_owned()).unwrap();
    store.lock().unwrap();

    assert!(matches!(
        store.create_vault("Another".to_owned()),
        Err(Error::Locked)
    ));
    assert!(matches!(
        vault.create_item(
            &mut store,
            ItemOverview::new("a".into(), "b".into()),
            ItemData::new("c".into()),
        ),
        Err(Error::Locked)
    ));
    assert!(matches!(vault.list_items(&mut store), Err(Error::Locked)));
}

#[test]
fn storing_a_key_twice_is_rejected() {
    let mut parent = SymmetricKey::generate();
    let child = SymmetricKey::generate();
    let mut wrapped = child.into_encrypted_key(&mut parent).unwrap();
    assert_eq!(wrapped.id(), None);

    let mut repository = Repository::new();
    wrapped.store(&mut repository).unwrap();
    assert_eq!(wrapped.id(), Some(1));

    // A key that already has a persisted identity is never stored again.
    assert!(matches!(
        wrapped.store(&mut repository),
        Err(Error::CannotUpdateKey)
    ));
    assert_eq!(wrapped.id(), Some(1));
}

#[test]
fn failed_vault_creation_rolls_back_the_key_row() {
    let mut store = Store::new(Repository::new());
    store
        .initialize_profile("User".to_owned(), "password")
        .unwrap();

    // The next collaborator operation (storing the vault key) succeeds,
    // the one after it (storing the vault row) fails.
    store.fail_persistence_after(1);
    assert!(matches!(
        store.create_vault("Personal".to_owned()),
        Err(Error::DatabaseError)
    ));

    // No orphaned key row is visible afterwards: the rollback removed
    // the wrapped vault key that had already been stored.
    let mut repository = store.into_repository();
    assert!(repository.find_key(2).unwrap().is_none());
    // The master key row is still there.
    assert!(repository.find_key(1).unwrap().is_some());
}

#[test]
fn failed_item_creation_rolls_back_both_key_rows() {
    let mut store = Store::new(Repository::new());
    store
        .initialize_profile("User".to_owned(), "password")
        .unwrap();
    let vault = store.create_vault("Personal".to_owned()).unwrap();

    // Both item keys are stored, then the item row fails.
    store.fail_persistence_after(2);
    assert!(matches!(
        vault.create_item(
            &mut store,
            ItemOverview::new("name".into(), "site".into()),
            ItemData::new("secret".into()),
        ),
        Err(Error::DatabaseError)
    ));

    let mut repository = store.into_repository();
    assert!(repository.find_key(3).unwrap().is_none());
    assert!(repository.find_key(4).unwrap().is_none());
}

#[test]
fn vault_listing_matches_created_vaults() {
    let mut store = Store::new(Repository::new());
    store
        .initialize_profile("User".to_owned(), "password")
        .unwrap();
    store.create_vault("First".to_owned()).unwrap();
    store.create_vault("Second".to_owned()).unwrap();

    let previews = store.list_vaults().unwrap();
    assert_eq!(previews.len(), 2);
    assert_eq!(previews[0].name(), "First");
    assert_eq!(previews[1].name(), "Second");
    assert_ne!(previews[0].id(), previews[1].id());

    assert!(store.get_vault(999).unwrap().is_none());
}
