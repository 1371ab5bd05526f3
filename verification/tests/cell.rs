use guarded_access::BorrowError;
use guarded_access::BorrowMutError;
use guarded_access::CheckedCell;
use guarded_access::Inner;
use guarded_access::InnerMut;

#[test]
fn cell_read_when_idle_succeeds() {
    let mut c = CheckedCell::new(41u32);
    let token = c.inner().unwrap();
    assert_eq!(*c.read(&token), 41);
    c.release(token);
}

#[test]
fn cell_write_while_read_outstanding_fails() {
    let mut c = CheckedCell::new(1u32);
    let token = c.inner().unwrap();
    assert_eq!(c.inner_mut().unwrap_err(), BorrowMutError);
    c.release(token);
}

#[test]
fn cell_read_while_write_outstanding_fails() {
    let mut c = CheckedCell::new(1u32);
    let token = c.inner_mut().unwrap();
    assert_eq!(c.inner().unwrap_err(), BorrowError);
    c.release_mut(token);
}

#[test]
fn cell_two_readers_coexist() {
    let mut c = CheckedCell::new(12u32);
    let first = c.inner().unwrap();
    let second = c.inner().unwrap();
    assert_eq!(*c.read(&first), 12);
    assert_eq!(*c.read(&second), 12);
    assert_eq!(c.inner_mut().unwrap_err(), BorrowMutError);
    c.release(first);
    assert_eq!(c.inner_mut().unwrap_err(), BorrowMutError);
    c.release(second);
    assert!(c.inner_mut().is_ok());
}

#[test]
fn cell_release_restores_acquisition() {
    let mut c = CheckedCell::new(9u32);
    let token = c.inner_mut().unwrap();
    assert!(c.inner().is_err());
    c.release_mut(token);
    let token = c.inner().unwrap();
    assert_eq!(*c.read(&token), 9);
    c.release(token);
    assert!(c.inner_mut().is_ok());
}

#[test]
fn cell_write_then_read_back() {
    let mut c = CheckedCell::new(5u32);
    let token = c.inner_mut().unwrap();
    let bumped = *c.read_mut(&token) + 1;
    c.set(&token, bumped);
    c.release_mut(token);
    let token = c.inner().unwrap();
    assert_eq!(*c.read(&token), 6);
    c.release(token);
}
