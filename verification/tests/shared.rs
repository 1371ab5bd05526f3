use guarded_access::Inner;
use guarded_access::InnerMut;
use guarded_access::SharedLock;
use guarded_access::TryLockError;

#[test]
fn shared_read_when_idle_succeeds() {
    let mut l = SharedLock::new(23u64);
    let token = l.inner().unwrap();
    assert_eq!(*l.read(&token), 23);
    l.release_read(token);
}

#[test]
fn shared_two_readers_coexist() {
    let mut l = SharedLock::new(8u64);
    let first = l.inner().unwrap();
    let second = l.inner().unwrap();
    assert_eq!(*l.read(&first), 8);
    assert_eq!(*l.read(&second), 8);
    l.release_read(first);
    l.release_read(second);
}

#[test]
fn shared_write_while_read_outstanding_fails() {
    let mut l = SharedLock::new(0u64);
    let token = l.inner().unwrap();
    assert_eq!(l.inner_mut().unwrap_err(), TryLockError::WouldBlock);
    l.release_read(token);
}

#[test]
fn shared_read_while_write_outstanding_fails() {
    let mut l = SharedLock::new(0u64);
    let token = l.inner_mut().unwrap();
    assert_eq!(l.inner().unwrap_err(), TryLockError::WouldBlock);
    l.release_write(token);
}

#[test]
fn shared_poisoned_refuses_both_paths() {
    let mut l = SharedLock::new(3u64);
    let token = l.inner_mut().unwrap();
    l.abandon_write(token);
    assert_eq!(l.inner().unwrap_err(), TryLockError::Poisoned);
    assert_eq!(l.inner_mut().unwrap_err(), TryLockError::Poisoned);
}

#[test]
fn shared_release_read_restores_write() {
    let mut l = SharedLock::new(1u64);
    let token = l.inner().unwrap();
    assert!(l.inner_mut().is_err());
    l.release_read(token);
    let token = l.inner_mut().unwrap();
    l.set(&token, 2);
    assert_eq!(*l.read_mut(&token), 2);
    l.release_write(token);
}

#[test]
fn shared_release_write_restores_read() {
    let mut l = SharedLock::new(6u64);
    let token = l.inner_mut().unwrap();
    assert!(l.inner().is_err());
    l.release_write(token);
    let token = l.inner().unwrap();
    assert_eq!(*l.read(&token), 6);
    l.release_read(token);
}
