//! A guarded-access facade over three kinds of protected-value holders.
//!
//! A holder owns a payload and mediates access to it through transient
//! access tokens. Three holder variants are provided:
//!
//! * [`CheckedCell`] — a single-owner, runtime-checked cell: many readable
//!   tokens may coexist, or exactly one writable token; there is no
//!   concurrency and no poisoned state, only runtime aliasing checks.
//! * [`ExclusiveLock`] — an exclusive lock: every token takes an exclusive
//!   hold, and the lock can be left poisoned by a failed exclusive section.
//! * [`SharedLock`] — a shared/exclusive lock: many readable tokens may
//!   coexist, or exactly one writable token, and the lock can be poisoned.
//!
//! Each variant implements the two capability traits [`Inner`] (obtain a
//! readable token) and [`InnerMut`] (obtain a writable token). Acquisition
//! never blocks: one attempt is made and failure is reported at once as the
//! variant's own error value. A token is released by handing it back to its
//! holder; releasing restores the holder's readiness for later acquisitions.

use vstd::prelude::*;

pub mod cell;
pub mod exclusive;
pub mod shared;

pub use cell::BorrowError;
pub use cell::BorrowMutError;
pub use cell::CellRef;
pub use cell::CellRefMut;
pub use cell::CheckedCell;
pub use exclusive::ExclusiveLock;
pub use exclusive::ExclusiveToken;
pub use exclusive::TryLockError;
pub use shared::SharedLock;
pub use shared::SharedReadToken;
pub use shared::SharedWriteToken;

verus! {

/// The readable capability: any protected-value holder that can hand out a
/// scoped read-access token by a single non-blocking acquisition attempt.
///
/// `read_ready` says exactly when the attempt succeeds, `with_read_acquired`
/// gives the holder state after a success, and `read_fail` gives the error
/// value reported when the attempt fails. The payload is never changed by an
/// acquisition attempt, whether it succeeds or fails.
pub trait Inner: Sized {
    /// The protected payload type.
    type Inner;
    /// The token handed out on a successful read acquisition.
    type Guard;
    /// The outcome reported when read acquisition cannot proceed.
    type Error;

    /// The protected payload currently held.
    spec fn value(&self) -> Self::Inner;

    /// Whether a read acquisition attempt on this state succeeds.
    spec fn read_ready(&self) -> bool;

    /// The holder state after a successful read acquisition.
    spec fn with_read_acquired(&self) -> Self;

    /// The error reported by a read acquisition attempt on a state where
    /// none can succeed.
    spec fn read_fail(&self) -> Self::Error;

    /// Attempt once, without blocking, to obtain a readable token.
    fn inner(&mut self) -> (r: Result<Self::Guard, Self::Error>)
        ensures
            r is Ok <==> old(self).read_ready(),
            old(self).read_ready() ==> *final(self) == old(self).with_read_acquired(),
            !old(self).read_ready() ==> *final(self) == *old(self)
                && r == Err::<Self::Guard, Self::Error>(old(self).read_fail()),
            final(self).value() == old(self).value(),
    ;
}

/// The writable capability: any protected-value holder that can hand out a
/// scoped write-access token by a single non-blocking acquisition attempt.
///
/// While a writable token is outstanding no other token, readable or
/// writable, can be issued; the spec functions below make that concrete for
/// each holder variant.
pub trait InnerMut: Inner {
    /// The token handed out on a successful write acquisition.
    type GuardMut;
    /// The outcome reported when write acquisition cannot proceed.
    type Error;

    /// Whether a write acquisition attempt on this state succeeds.
    spec fn write_ready(&self) -> bool;

    /// The holder state after a successful write acquisition.
    spec fn with_write_acquired(&self) -> Self;

    /// The error reported by a write acquisition attempt on a state where
    /// none can succeed.
    spec fn write_fail(&self) -> <Self as InnerMut>::Error;

    /// Attempt once, without blocking, to obtain a writable token.
    fn inner_mut(&mut self) -> (r: Result<Self::GuardMut, <Self as InnerMut>::Error>)
        ensures
            r is Ok <==> old(self).write_ready(),
            old(self).write_ready() ==> *final(self) == old(self).with_write_acquired(),
            !old(self).write_ready() ==> *final(self) == *old(self)
                && r == Err::<Self::GuardMut, <Self as InnerMut>::Error>(old(self).write_fail()),
            final(self).value() == old(self).value(),
    ;
}

} // verus!
