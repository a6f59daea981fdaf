use stash::{Stash, StashError};
use std::sync::Arc;

#[test]
fn set_inserts_new_key_value() {
    let db = Stash::new();

    db.set("a".to_string(), "1".to_string()).unwrap();

    let val_one = db.get("a").unwrap();
    assert_eq!(val_one, Some("1".to_string()));
}

#[test]
fn set_empty_key_returns_error() {
    let db = Stash::new();

    let result = db.set("".to_string(), "1".to_string());

    assert!(matches!(result, Err(StashError::EmptyKey)));
}

#[test]
fn set_overwrites_existing_key() {
    let db = Stash::new();

    db.set("a".to_string(), "1".to_string()).unwrap();
    db.set("a".to_string(), "2".to_string()).unwrap();

    let val_one = db.get("a").unwrap();
    assert_eq!(val_one, Some("2".to_string()));
}

#[test]
fn get_non_existent_key_returns_none() {
    let db = Stash::new();

    let val = db.get("non_existent").unwrap();
    assert_eq!(val, None);
}

#[test]
fn get_empty_key_returns_error() {
    let db = Stash::new();

    let result = db.get("");
    assert!(matches!(result, Err(StashError::EmptyKey)));
}

#[test]
fn set_get_overwrite_missing_and_empty_key_in_one_run() {
    let db = Stash::new();

    assert_eq!(db.set("a".to_string(), "1".to_string()), Ok(()));
    assert_eq!(db.get("a"), Ok(Some("1".to_string())));

    assert_eq!(db.set("a".to_string(), "2".to_string()), Ok(()));
    assert_eq!(db.get("a"), Ok(Some("2".to_string())));

    assert_eq!(db.get("missing"), Ok(None));
    assert_eq!(db.set("".to_string(), "x".to_string()), Err(StashError::EmptyKey));
}

#[test]
fn get_returns_the_value_that_was_set() {
    let db = Stash::new();
    let pairs = [
        ("k", "v"),
        (" ", "a key of one space"),
        ("key with spaces", "value with spaces"),
        ("schlüssel", "wert"),
        ("鍵", "値"),
        ("a\nb", "line\nbreak"),
        ("\0", "nul"),
    ];

    for (key, value) in pairs {
        assert_eq!(db.set(key.to_string(), value.to_string()), Ok(()));
        assert_eq!(db.get(key), Ok(Some(value.to_string())));
    }
    for (key, value) in pairs {
        assert_eq!(db.get(key), Ok(Some(value.to_string())));
    }
}

#[test]
fn the_later_of_two_sets_wins() {
    let db = Stash::new();

    db.set("colour".to_string(), "red".to_string()).unwrap();
    db.set("colour".to_string(), "green".to_string()).unwrap();
    assert_eq!(db.get("colour"), Ok(Some("green".to_string())));

    db.set("colour".to_string(), "red".to_string()).unwrap();
    assert_eq!(db.get("colour"), Ok(Some("red".to_string())));
}

#[test]
fn a_key_that_was_never_set_is_absent() {
    let db = Stash::new();
    assert_eq!(db.get("a"), Ok(None));

    db.set("b".to_string(), "1".to_string()).unwrap();
    db.set("aa".to_string(), "2".to_string()).unwrap();
    db.set("A".to_string(), "3".to_string()).unwrap();

    assert_eq!(db.get("a"), Ok(None));
    assert_eq!(db.get("a "), Ok(None));
    assert_eq!(db.get("ab"), Ok(None));
}

#[test]
fn a_refused_set_leaves_the_mapping_unchanged() {
    let db = Stash::new();
    db.set("a".to_string(), "1".to_string()).unwrap();
    db.set("b".to_string(), "2".to_string()).unwrap();

    assert_eq!(db.set("".to_string(), "x".to_string()), Err(StashError::EmptyKey));
    assert_eq!(db.set(String::new(), String::new()), Err(StashError::EmptyKey));

    assert_eq!(db.get("a"), Ok(Some("1".to_string())));
    assert_eq!(db.get("b"), Ok(Some("2".to_string())));
    assert_eq!(db.get("x"), Ok(None));
    assert_eq!(db.get(""), Err(StashError::EmptyKey));
}

#[test]
fn get_of_the_empty_key_is_refused_whatever_the_store_holds() {
    let db = Stash::new();
    assert_eq!(db.get(""), Err(StashError::EmptyKey));

    db.set("a".to_string(), "1".to_string()).unwrap();
    assert_eq!(db.get(""), Err(StashError::EmptyKey));

    db.set("b".to_string(), "".to_string()).unwrap();
    assert_eq!(db.get(""), Err(StashError::EmptyKey));
}

#[test]
fn the_empty_value_is_accepted() {
    let db = Stash::new();

    assert_eq!(db.set("k".to_string(), "".to_string()), Ok(()));
    assert_eq!(db.get("k"), Ok(Some(String::new())));
}

#[test]
fn a_set_on_one_key_leaves_the_others_alone() {
    let db = Stash::new();
    db.set("a".to_string(), "1".to_string()).unwrap();
    db.set("b".to_string(), "2".to_string()).unwrap();

    db.set("a".to_string(), "3".to_string()).unwrap();

    assert_eq!(db.get("a"), Ok(Some("3".to_string())));
    assert_eq!(db.get("b"), Ok(Some("2".to_string())));
}

#[test]
fn sets_on_distinct_keys_all_land() {
    let db = Stash::new();
    let n = 200;

    for i in 0..n {
        db.set(format!("key{}", i), format!("value{}", i)).unwrap();
    }
    for i in (0..n).rev() {
        assert_eq!(db.get(&format!("key{}", i)), Ok(Some(format!("value{}", i))));
    }
    assert_eq!(db.get(&format!("key{}", n)), Ok(None));
}

#[test]
fn two_stores_do_not_share_entries() {
    let first = Stash::new();
    let second = Stash::new();

    first.set("a".to_string(), "1".to_string()).unwrap();

    assert_eq!(first.get("a"), Ok(Some("1".to_string())));
    assert_eq!(second.get("a"), Ok(None));
}

#[test]
fn every_holder_of_the_store_sees_one_mapping() {
    let writer = Arc::new(Stash::new());
    let reader = Arc::clone(&writer);

    writer.set("a".to_string(), "1".to_string()).unwrap();
    assert_eq!(reader.get("a"), Ok(Some("1".to_string())));

    reader.set("a".to_string(), "2".to_string()).unwrap();
    assert_eq!(writer.get("a"), Ok(Some("2".to_string())));
}

fn shareable_between_threads<T: Send + Sync>(_: &T) -> bool {
    true
}

#[test]
fn the_store_can_be_shared_between_threads() {
    let db = Stash::new();
    assert!(shareable_between_threads(&db));
}
