//! The exclusive-lock variant.
//!
//! An `ExclusiveLock` hands out at most one token at a time, and both the
//! readable and the writable capability take that same exclusive hold. A
//! failed exclusive section — modelled by abandoning the token with
//! [`ExclusiveLock::abandon`] — leaves the lock poisoned, after which every
//! acquisition attempt reports [`TryLockError::Poisoned`].

use vstd::prelude::*;

use crate::Inner;
use crate::InnerMut;

verus! {

/// Reported when an acquisition attempt on a lock cannot proceed: either the
/// lock is currently held elsewhere, or a prior exclusive section failed and
/// left the lock poisoned for good.
#[derive(Clone, Copy, PartialEq, Eq, Structural, Debug)]
pub enum TryLockError {
    /// The lock is currently held; a blocking acquisition would have waited.
    WouldBlock,
    /// A prior exclusive section failed while holding the lock.
    Poisoned,
}

/// The exclusive token for an `ExclusiveLock`; hand it back with
/// [`ExclusiveLock::unlock`], or with [`ExclusiveLock::abandon`] when the
/// exclusive section failed.
#[derive(Debug)]
pub struct ExclusiveToken {
    #[allow(dead_code)]
    marker: (),
}

/// An exclusive lock: a payload together with a held flag and a poisoned
/// flag.
pub struct ExclusiveLock<T> {
    /// The protected payload.
    pub payload: T,
    /// Whether the single token is outstanding.
    pub held: bool,
    /// Whether a prior exclusive section failed while holding the lock.
    pub poisoned: bool,
}

impl<T> ExclusiveLock<T> {
    /// Whether the single token is outstanding.
    pub open spec fn is_held(&self) -> bool {
        self.held
    }

    /// Whether a prior exclusive section failed while holding the lock.
    pub open spec fn is_poisoned(&self) -> bool {
        self.poisoned
    }

    /// The lock state after its token has been handed back in good order.
    pub open spec fn with_released(&self) -> Self {
        ExclusiveLock { payload: self.payload, held: false, poisoned: self.poisoned }
    }

    /// The lock state after its token has been abandoned by a failed
    /// exclusive section.
    pub open spec fn with_abandoned(&self) -> Self {
        ExclusiveLock { payload: self.payload, held: false, poisoned: true }
    }

    /// Make an unlocked, unpoisoned lock around `payload`.
    pub fn new(payload: T) -> (l: Self)
        ensures
            !l.is_held(),
            !l.is_poisoned(),
            l.value() == payload,
    {
        ExclusiveLock { payload, held: false, poisoned: false }
    }

    /// Attempt once, without blocking, to take the exclusive hold.
    pub fn try_lock(&mut self) -> (r: Result<ExclusiveToken, TryLockError>)
        ensures
            r is Ok <==> old(self).read_ready(),
            old(self).read_ready() ==> *final(self) == old(self).with_read_acquired(),
            !old(self).read_ready() ==> *final(self) == *old(self) && r == Err::<
                ExclusiveToken,
                TryLockError,
            >(old(self).read_fail()),
    {
        if self.poisoned {
            Err(TryLockError::Poisoned)
        } else if self.held {
            Err(TryLockError::WouldBlock)
        } else {
            self.held = true;
            Ok(ExclusiveToken { marker: () })
        }
    }

    /// Read the payload through the outstanding token.
    pub fn read(&self, _token: &ExclusiveToken) -> (r: &T)
        requires
            self.is_held(),
        ensures
            *r == self.value(),
    {
        &self.payload
    }

    /// Replace the payload through the outstanding token.
    pub fn set(&mut self, _token: &ExclusiveToken, payload: T)
        requires
            old(self).is_held(),
        ensures
            final(self).value() == payload,
            final(self).is_held(),
            final(self).is_poisoned() == old(self).is_poisoned(),
    {
        self.payload = payload;
    }

    /// Hand the outstanding token back in good order, releasing the hold.
    pub fn unlock(&mut self, _token: ExclusiveToken)
        requires
            old(self).is_held(),
        ensures
            *final(self) == old(self).with_released(),
    {
        self.held = false;
    }

    /// Abandon the outstanding token after a failed exclusive section,
    /// releasing the hold and leaving the lock poisoned for good.
    pub fn abandon(&mut self, _token: ExclusiveToken)
        requires
            old(self).is_held(),
        ensures
            *final(self) == old(self).with_abandoned(),
    {
        self.held = false;
        self.poisoned = true;
    }
}

impl<T> Inner for ExclusiveLock<T> {
    type Inner = T;

    type Guard = ExclusiveToken;

    type Error = TryLockError;

    open spec fn value(&self) -> T {
        self.payload
    }

    open spec fn read_ready(&self) -> bool {
        !self.held && !self.poisoned
    }

    open spec fn with_read_acquired(&self) -> Self {
        ExclusiveLock { payload: self.payload, held: true, poisoned: self.poisoned }
    }

    open spec fn read_fail(&self) -> TryLockError {
        if self.poisoned {
            TryLockError::Poisoned
        } else {
            TryLockError::WouldBlock
        }
    }

    fn inner(&mut self) -> (r: Result<ExclusiveToken, TryLockError>) {
        self.try_lock()
    }
}

impl<T> InnerMut for ExclusiveLock<T> {
    type GuardMut = ExclusiveToken;

    type Error = TryLockError;

    open spec fn write_ready(&self) -> bool {
        !self.held && !self.poisoned
    }

    open spec fn with_write_acquired(&self) -> Self {
        ExclusiveLock { payload: self.payload, held: true, poisoned: self.poisoned }
    }

    open spec fn write_fail(&self) -> TryLockError {
        if self.poisoned {
            TryLockError::Poisoned
        } else {
            TryLockError::WouldBlock
        }
    }

    fn inner_mut(&mut self) -> (r: Result<ExclusiveToken, TryLockError>) {
        self.try_lock()
    }
}

/// Law: when the lock is neither held nor poisoned, a read acquisition
/// succeeds, and the payload it grants access to is the lock's payload,
/// unchanged. The same holds of a write acquisition.
pub proof fn lemma_exclusive_idle_acquire_succeeds<T>(l: ExclusiveLock<T>)
    requires
        !l.is_held(),
        !l.is_poisoned(),
    ensures
        l.read_ready(),
        l.write_ready(),
        l.with_read_acquired().value() == l.value(),
        l.with_write_acquired().value() == l.value(),
{
}

/// Law: while any token is outstanding on an unpoisoned exclusive lock,
/// every further acquisition, readable or writable, fails with contention:
/// the lock's readable tokens take the same exclusive hold as its writable
/// ones.
pub proof fn lemma_exclusive_held_excludes_all<T>(l: ExclusiveLock<T>)
    requires
        l.is_held(),
        !l.is_poisoned(),
    ensures
        !l.read_ready(),
        !l.write_ready(),
        l.read_fail() == TryLockError::WouldBlock,
        l.write_fail() == TryLockError::WouldBlock,
{
}

/// Law: once the lock is poisoned, every acquisition attempt, readable or
/// writable, reports the poisoned outcome.
pub proof fn lemma_exclusive_poisoned_refuses_all<T>(l: ExclusiveLock<T>)
    requires
        l.is_poisoned(),
    ensures
        !l.read_ready(),
        !l.write_ready(),
        l.read_fail() == TryLockError::Poisoned,
        l.write_fail() == TryLockError::Poisoned,
{
}

/// Law: once the outstanding token is handed back in good order, both kinds
/// of acquisition succeed again, and the payload is unchanged by the
/// release.
pub proof fn lemma_exclusive_release_restores<T>(l: ExclusiveLock<T>)
    requires
        l.is_held(),
        !l.is_poisoned(),
    ensures
        l.with_released().read_ready(),
        l.with_released().write_ready(),
        l.with_released().value() == l.value(),
{
}

} // verus!
