use stash::{StashError, StashResult};
use std::sync::{Mutex, PoisonError};

#[test]
fn a_poison_error_becomes_lock_poisoned() {
    assert_eq!(StashError::from(PoisonError::new(())), StashError::LockPoisoned);
    assert_eq!(StashError::from(PoisonError::new("guarded".to_string())), StashError::LockPoisoned);
}

#[test]
fn a_poison_error_that_holds_a_guard_becomes_lock_poisoned() {
    let lock = Mutex::new(0);
    let poison = PoisonError::new(lock.lock().unwrap());

    let result: StashResult<()> = Err(StashError::from(poison));

    assert_eq!(result, Err(StashError::LockPoisoned));
    assert!(lock.try_lock().is_ok());
}

#[test]
fn the_two_errors_differ() {
    assert_ne!(StashError::EmptyKey, StashError::LockPoisoned);
    assert_eq!(StashError::EmptyKey, StashError::EmptyKey);
    assert_eq!(StashError::LockPoisoned, StashError::LockPoisoned);
}

#[test]
fn errors_print_their_names() {
    assert_eq!(format!("{:?}", StashError::EmptyKey), "EmptyKey");
    assert_eq!(format!("{:?}", StashError::LockPoisoned), "LockPoisoned");
}
