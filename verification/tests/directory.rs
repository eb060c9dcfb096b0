use auth_window::directory::{Account, UserDirectory};
use auth_window::errors::DuplicateKey;

fn account(id: &str, username: &str, email: &str) -> Account {
    Account {
        id: id.to_string(),
        username: username.to_string(),
        email: email.to_string(),
        password_hash: format!("hash-of-{}", username),
        created_at: 1700000000,
    }
}

#[test]
fn new_directory_is_empty() {
    let directory = UserDirectory::new();
    assert_eq!(directory.len(), 0);
    assert!(directory.get("alice@x.com").is_none());
    assert!(directory.get_by_id("id-1").is_none());
}

#[test]
fn inserted_account_is_found_under_its_key() {
    let mut directory = UserDirectory::new();
    assert_eq!(directory.insert_if_absent("alice@x.com", account("id-1", "alice", "alice@x.com")), Ok(()));
    assert_eq!(directory.len(), 1);
    let found = directory.get("alice@x.com").unwrap();
    assert_eq!(found.id, "id-1");
    assert_eq!(found.username, "alice");
    assert_eq!(found.email, "alice@x.com");
    assert_eq!(found.password_hash, "hash-of-alice");
    assert_eq!(found.created_at, 1700000000);
}

#[test]
fn second_insertion_under_one_key_is_refused() {
    let mut directory = UserDirectory::new();
    assert_eq!(directory.insert_if_absent("alice@x.com", account("id-1", "alice", "alice@x.com")), Ok(()));
    assert_eq!(
        directory.insert_if_absent("alice@x.com", account("id-2", "impostor", "alice@x.com")),
        Err(DuplicateKey)
    );
    assert_eq!(directory.len(), 1);
    let kept = directory.get("alice@x.com").unwrap();
    assert_eq!(kept.id, "id-1");
    assert_eq!(kept.username, "alice");
}

#[test]
fn of_two_insertions_under_one_key_exactly_one_succeeds_in_either_order() {
    let first = account("id-1", "first", "same@x.com");
    let second = account("id-2", "second", "same@x.com");

    let mut directory = UserDirectory::new();
    let a = directory.insert_if_absent("same@x.com", first.clone());
    let b = directory.insert_if_absent("same@x.com", second.clone());
    assert_eq!((a, b), (Ok(()), Err(DuplicateKey)));
    assert_eq!(directory.get("same@x.com").unwrap().username, "first");

    let mut directory = UserDirectory::new();
    let b = directory.insert_if_absent("same@x.com", second);
    let a = directory.insert_if_absent("same@x.com", first);
    assert_eq!((a, b), (Err(DuplicateKey), Ok(())));
    assert_eq!(directory.get("same@x.com").unwrap().username, "second");
}

#[test]
fn keys_are_compared_exactly() {
    let mut directory = UserDirectory::new();
    assert_eq!(directory.insert_if_absent("alice@x.com", account("id-1", "alice", "alice@x.com")), Ok(()));
    assert_eq!(directory.insert_if_absent("Alice@x.com", account("id-2", "Alice", "Alice@x.com")), Ok(()));
    assert_eq!(directory.insert_if_absent("alice@x.com ", account("id-3", "alice3", "alice@x.com ")), Ok(()));
    assert_eq!(directory.insert_if_absent("", account("id-4", "nobody", "")), Ok(()));
    assert_eq!(directory.insert_if_absent("", account("id-5", "nobody2", "")), Err(DuplicateKey));
    assert_eq!(directory.len(), 4);
    assert_eq!(directory.get("Alice@x.com").unwrap().id, "id-2");
    assert_eq!(directory.get("").unwrap().id, "id-4");
    assert!(directory.get("alice@x.co").is_none());
}

#[test]
fn insertion_leaves_other_accounts_as_they_were() {
    let mut directory = UserDirectory::new();
    assert_eq!(directory.insert_if_absent("alice@x.com", account("id-1", "alice", "alice@x.com")), Ok(()));
    assert_eq!(directory.insert_if_absent("bob@x.com", account("id-2", "bob", "bob@x.com")), Ok(()));
    assert_eq!(directory.insert_if_absent("bob@x.com", account("id-3", "bobby", "bob@x.com")), Err(DuplicateKey));
    assert_eq!(directory.len(), 2);
    assert_eq!(directory.get("alice@x.com").unwrap().id, "id-1");
    assert_eq!(directory.get("bob@x.com").unwrap().id, "id-2");
}

#[test]
fn account_is_found_by_its_identifier() {
    let mut directory = UserDirectory::new();
    assert_eq!(directory.insert_if_absent("alice@x.com", account("id-1", "alice", "alice@x.com")), Ok(()));
    assert_eq!(directory.insert_if_absent("bob@x.com", account("id-2", "bob", "bob@x.com")), Ok(()));
    assert_eq!(directory.get_by_id("id-2").unwrap().email, "bob@x.com");
    assert_eq!(directory.get_by_id("id-1").unwrap().email, "alice@x.com");
    assert!(directory.get_by_id("id-3").is_none());
    assert!(directory.get_by_id("alice@x.com").is_none());
}

#[test]
fn earliest_account_wins_where_identifiers_collide() {
    let mut directory = UserDirectory::new();
    assert_eq!(directory.insert_if_absent("alice@x.com", account("same", "alice", "alice@x.com")), Ok(()));
    assert_eq!(directory.insert_if_absent("bob@x.com", account("same", "bob", "bob@x.com")), Ok(()));
    assert_eq!(directory.get_by_id("same").unwrap().username, "alice");
}

#[test]
fn key_need_not_be_the_accounts_email() {
    let mut directory = UserDirectory::new();
    assert_eq!(directory.insert_if_absent("key-1", account("id-1", "alice", "alice@x.com")), Ok(()));
    assert!(directory.get("alice@x.com").is_none());
    assert_eq!(directory.get("key-1").unwrap().email, "alice@x.com");
}
