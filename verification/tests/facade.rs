//! Generic code over the two capability traits, the way a consumer of the
//! facade is expected to use them: it accepts anything readable or
//! writable without knowing which holder variant backs it.

use guarded_access::CheckedCell;
use guarded_access::ExclusiveLock;
use guarded_access::Inner;
use guarded_access::InnerMut;
use guarded_access::SharedLock;

fn try_acquire_read<H: Inner>(h: &mut H) -> Result<H::Guard, <H as Inner>::Error> {
    h.inner()
}

fn try_acquire_write<H: InnerMut>(h: &mut H) -> Result<H::GuardMut, <H as InnerMut>::Error> {
    h.inner_mut()
}

#[test]
fn facade_read_succeeds_on_every_idle_variant() {
    let mut cell = CheckedCell::new(1u8);
    let mut exclusive = ExclusiveLock::new(2u8);
    let mut shared = SharedLock::new(3u8);
    assert!(try_acquire_read(&mut cell).is_ok());
    assert!(try_acquire_read(&mut exclusive).is_ok());
    assert!(try_acquire_read(&mut shared).is_ok());
}

#[test]
fn facade_write_fails_on_every_variant_under_read() {
    let mut cell = CheckedCell::new(1u8);
    let mut exclusive = ExclusiveLock::new(2u8);
    let mut shared = SharedLock::new(3u8);
    let cell_token = try_acquire_read(&mut cell).unwrap();
    let exclusive_token = try_acquire_read(&mut exclusive).unwrap();
    let shared_token = try_acquire_read(&mut shared).unwrap();
    assert!(try_acquire_write(&mut cell).is_err());
    assert!(try_acquire_write(&mut exclusive).is_err());
    assert!(try_acquire_write(&mut shared).is_err());
    cell.release(cell_token);
    exclusive.unlock(exclusive_token);
    shared.release_read(shared_token);
}

#[test]
fn facade_write_grants_exclusive_access() {
    let mut shared = SharedLock::new(10u16);
    let token = try_acquire_write(&mut shared).unwrap();
    assert!(try_acquire_read(&mut shared).is_err());
    shared.set(&token, 11);
    shared.release_write(token);
    let token = try_acquire_read(&mut shared).unwrap();
    assert_eq!(*shared.read(&token), 11);
    shared.release_read(token);
}
