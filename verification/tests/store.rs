use credstore::store::{CreateError, CredentialStore, LookupError, UpdateError};

#[test]
fn create_then_find() {
    let mut store = CredentialStore::new();
    assert!(store
        .create(String::from("alice"), String::from("p1"))
        .is_ok());
    let rec = store.find_by_username("alice").unwrap();
    assert_eq!(rec.username, "alice");
    assert_eq!(rec.password, "p1");
}

#[test]
fn create_duplicate_username() {
    let mut store = CredentialStore::new();
    assert!(store
        .create(String::from("alice"), String::from("p1"))
        .is_ok());
    assert_eq!(
        store.create(String::from("alice"), String::from("p2")),
        Err(CreateError::DuplicateUsername)
    );
    // The first record is untouched.
    let rec = store.find_by_username("alice").unwrap();
    assert_eq!(rec.password, "p1");
}

#[test]
fn find_missing_username() {
    let store = CredentialStore::new();
    assert_eq!(
        store.find_by_username("nobody").err(),
        Some(LookupError::NotFound)
    );
}

#[test]
fn update_password_overwrites() {
    let mut store = CredentialStore::new();
    store
        .create(String::from("bob"), String::from("old"))
        .unwrap();
    assert!(store
        .update_password(String::from("bob"), String::from("new"))
        .is_ok());
    let rec = store.find_by_username("bob").unwrap();
    assert_eq!(rec.password, "new");
    assert_eq!(rec.username, "bob");
}

#[test]
fn update_password_missing_username() {
    let mut store = CredentialStore::new();
    assert_eq!(
        store.update_password(String::from("nobody"), String::from("new")),
        Err(UpdateError::NotFound)
    );
}

#[test]
fn identifiers_are_distinct_and_stable() {
    let mut store = CredentialStore::new();
    store
        .create(String::from("alice"), String::from("p1"))
        .unwrap();
    store
        .create(String::from("bob"), String::from("p2"))
        .unwrap();
    let a = store.find_by_username("alice").unwrap();
    let b = store.find_by_username("bob").unwrap();
    assert_ne!(a.id, b.id);
    store
        .update_password(String::from("alice"), String::from("p9"))
        .unwrap();
    let a2 = store.find_by_username("alice").unwrap();
    assert_eq!(a.id, a2.id);
}

#[test]
fn contains_username_tracks_creation() {
    let mut store = CredentialStore::new();
    assert!(!store.contains_username("alice"));
    store
        .create(String::from("alice"), String::from("p1"))
        .unwrap();
    assert!(store.contains_username("alice"));
    assert!(!store.contains_username("bob"));
}

#[test]
fn record_clone_copies_all_fields() {
    let mut store = CredentialStore::new();
    store
        .create(String::from("carol"), String::from("pw"))
        .unwrap();
    let rec = store.find_by_username("carol").unwrap();
    let copy = rec.clone();
    assert_eq!(copy.id, rec.id);
    assert_eq!(copy.username, rec.username);
    assert_eq!(copy.password, rec.password);
}
