use fretch::mutex::{CreateOutcome, Lock, LockFile, RemoveOutcome};
use fretch::StoreError;

#[test]
fn relative_path_is_rejected() {
    match LockFile::new("./relative".to_string()) {
        Err(e) => assert_eq!(e, StoreError::InvalidInput),
        Ok(_) => panic!("Relative dir should not succeed"),
    }
    match LockFile::new("".to_string()) {
        Err(e) => assert_eq!(e, StoreError::InvalidInput),
        Ok(_) => panic!("Empty path should not succeed"),
    }
}

#[test]
fn test_lockfile() {
    let mut lockfile = LockFile::new("/tmp/_fretch_lock_test".to_string()).unwrap();
    assert_eq!(lockfile.path(), "/tmp/_fretch_lock_test");
    assert!(!lockfile.is_locked(), "LockFile unlocked by default");
    assert!(
        lockfile.lock(Some(CreateOutcome::Created)).unwrap(),
        "Acquiring a lock returns true"
    );
    assert!(lockfile.is_locked(), "is_locked true for locked resource");
    assert!(!lockfile.lock(None).unwrap(), "Locking twice returns false");
    assert!(lockfile.is_locked(), "still held after a second lock call");
    assert!(
        lockfile.unlock(Some(RemoveOutcome::Removed)).unwrap(),
        "Unlocking successfully returns true"
    );
    assert!(!lockfile.is_locked(), "is_locked false after unlocking");
    assert!(
        !lockfile.unlock(None).unwrap(),
        "unlocking false when already unlocked"
    );
}

#[test]
fn io_failures_propagate_and_keep_state() {
    let mut lockfile = LockFile::new("/tmp/_fretch_lock_io".to_string()).unwrap();
    assert_eq!(
        lockfile.lock(Some(CreateOutcome::Failed)),
        Err(StoreError::Io)
    );
    assert!(!lockfile.is_locked(), "a failed acquisition leaves it unlocked");
    assert!(lockfile.lock(Some(CreateOutcome::Created)).unwrap());
    assert_eq!(
        lockfile.unlock(Some(RemoveOutcome::Failed)),
        Err(StoreError::Io)
    );
    assert!(lockfile.is_locked(), "a failed release keeps the lock held");
}

#[test]
fn cross_instance_exclusion() {
    // Two instances against the same path; the filesystem's atomic
    // create-if-absent is the arbiter, simulated here by tracking whether
    // the token file exists.
    let path = "/tmp/_fretch_lock_shared".to_string();
    let mut a = LockFile::new(path.clone()).unwrap();
    let mut b = LockFile::new(path).unwrap();

    // A acquires: the file did not exist.
    assert!(a.lock(Some(CreateOutcome::Created)).unwrap());

    // While A holds the token, B's create-if-absent finds the file.
    assert!(
        !b.lock(Some(CreateOutcome::AlreadyExists)).unwrap(),
        "B must not acquire while A holds the lock"
    );
    assert!(!b.is_locked());

    // A releases; the file is gone, so B's next attempt creates it.
    assert!(a.unlock(Some(RemoveOutcome::Removed)).unwrap());
    assert!(b.lock(Some(CreateOutcome::Created)).unwrap());
    assert!(b.is_locked());
}
