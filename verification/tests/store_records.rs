use token_auth::credential::Authentication;
use token_auth::error::InternalError;
use token_auth::store::CredentialStore;

fn record(name: &str, fill: u8, version: u32) -> Authentication {
    Authentication::from_parts(name.to_string(), vec![fill; 32], vec![fill; 16], version)
}

#[test]
fn an_empty_store_holds_nobody() {
    let store = CredentialStore::new();
    assert!(!store.contains("alice"));
    assert!(store.load("alice").is_none());
    assert_eq!(store.version_of("alice"), None);
}

#[test]
fn an_inserted_record_is_loaded_as_it_was() {
    let mut store = CredentialStore::new();
    assert!(store.insert(record("alice", 1, 0)).is_ok());
    assert!(store.insert(record("bob", 2, 5)).is_ok());
    assert!(store.contains("alice"));
    assert!(store.contains("bob"));
    assert!(!store.contains("carol"));
    assert!(!store.contains("Alice"));
    let alice = store.load("alice").unwrap();
    assert_eq!(alice.username(), "alice");
    assert_eq!(alice.hash(), &[1u8; 32][..]);
    assert_eq!(alice.salt(), &[1u8; 16][..]);
    assert_eq!(alice.version(), 0);
    let bob = store.load("bob").unwrap();
    assert_eq!(bob.username(), "bob");
    assert_eq!(bob.hash(), &[2u8; 32][..]);
    assert_eq!(bob.version(), 5);
    assert_eq!(store.version_of("bob"), Some(5));
    assert_eq!(store.version_of("alice"), Some(0));
}

#[test]
fn a_second_record_for_a_username_is_refused() {
    let mut store = CredentialStore::new();
    store.insert(record("alice", 1, 0)).unwrap();
    let refused = store.insert(record("alice", 9, 7));
    assert!(matches!(refused, Err(InternalError::Storage)));
    let alice = store.load("alice").unwrap();
    assert_eq!(alice.hash(), &[1u8; 32][..]);
    assert_eq!(alice.salt(), &[1u8; 16][..]);
    assert_eq!(alice.version(), 0);
}

#[test]
fn an_update_overwrites_the_record_of_its_user_only() {
    let mut store = CredentialStore::new();
    store.insert(record("alice", 1, 0)).unwrap();
    store.insert(record("bob", 2, 0)).unwrap();
    store.update(record("alice", 3, 1));
    let alice = store.load("alice").unwrap();
    assert_eq!(alice.hash(), &[3u8; 32][..]);
    assert_eq!(alice.version(), 1);
    let bob = store.load("bob").unwrap();
    assert_eq!(bob.hash(), &[2u8; 32][..]);
    assert_eq!(bob.version(), 0);
}

#[test]
fn an_update_for_an_unknown_user_changes_nothing() {
    let mut store = CredentialStore::new();
    store.insert(record("alice", 1, 0)).unwrap();
    store.update(record("carol", 3, 1));
    assert!(!store.contains("carol"));
    assert_eq!(store.load("alice").unwrap().hash(), &[1u8; 32][..]);
}
