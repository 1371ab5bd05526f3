use guarded_access::ExclusiveLock;
use guarded_access::Inner;
use guarded_access::InnerMut;
use guarded_access::TryLockError;

#[test]
fn exclusive_read_when_unlocked_succeeds() {
    let mut l = ExclusiveLock::new(17u64);
    let token = l.inner().unwrap();
    assert_eq!(*l.read(&token), 17);
    l.unlock(token);
}

#[test]
fn exclusive_write_while_read_outstanding_fails() {
    let mut l = ExclusiveLock::new(0u64);
    let token = l.inner().unwrap();
    assert_eq!(l.inner_mut().unwrap_err(), TryLockError::WouldBlock);
    l.unlock(token);
}

#[test]
fn exclusive_read_while_write_outstanding_fails() {
    let mut l = ExclusiveLock::new(0u64);
    let token = l.inner_mut().unwrap();
    assert_eq!(l.inner().unwrap_err(), TryLockError::WouldBlock);
    l.unlock(token);
}

#[test]
fn exclusive_contention_is_reported_at_once() {
    // One holder, a writable token outstanding on behalf of one context: an
    // attempt made on behalf of another context fails immediately instead
    // of waiting for the hold to clear.
    let mut l = ExclusiveLock::new(0u64);
    let held_elsewhere = l.inner_mut().unwrap();
    assert_eq!(l.inner_mut().unwrap_err(), TryLockError::WouldBlock);
    l.unlock(held_elsewhere);
}

#[test]
fn exclusive_poisoned_refuses_both_paths() {
    let mut l = ExclusiveLock::new(3u64);
    let token = l.inner_mut().unwrap();
    l.abandon(token);
    assert_eq!(l.inner().unwrap_err(), TryLockError::Poisoned);
    assert_eq!(l.inner_mut().unwrap_err(), TryLockError::Poisoned);
}

#[test]
fn exclusive_release_restores_acquisition() {
    let mut l = ExclusiveLock::new(2u64);
    let token = l.inner().unwrap();
    assert!(l.inner_mut().is_err());
    l.unlock(token);
    let token = l.inner_mut().unwrap();
    l.set(&token, 4);
    l.unlock(token);
    let token = l.inner().unwrap();
    assert_eq!(*l.read(&token), 4);
    l.unlock(token);
}
