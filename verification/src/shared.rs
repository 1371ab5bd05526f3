//! The shared/exclusive-lock variant.
//!
//! A `SharedLock` admits many readable tokens at once, or exactly one
//! writable token, never both. As with [`ExclusiveLock`], a failed exclusive
//! section — modelled by abandoning the writable token with
//! [`SharedLock::abandon_write`] — leaves the lock poisoned, after which
//! every acquisition attempt reports [`TryLockError::Poisoned`].
//!
//! [`ExclusiveLock`]: crate::ExclusiveLock

use vstd::prelude::*;

use crate::Inner;
use crate::InnerMut;
use crate::TryLockError;

verus! {

/// A readable token for a `SharedLock`; hand it back with
/// [`SharedLock::release_read`] when the access is over.
#[derive(Debug)]
pub struct SharedReadToken {
    #[allow(dead_code)]
    marker: (),
}

/// A writable token for a `SharedLock`; hand it back with
/// [`SharedLock::release_write`], or with [`SharedLock::abandon_write`] when
/// the exclusive section failed.
#[derive(Debug)]
pub struct SharedWriteToken {
    #[allow(dead_code)]
    marker: (),
}

/// A shared/exclusive lock: a payload together with the count of
/// outstanding readable tokens, a writer flag and a poisoned flag.
pub struct SharedLock<T> {
    /// The protected payload.
    pub payload: T,
    /// How many readable tokens are outstanding.
    pub readers: usize,
    /// Whether the writable token is outstanding.
    pub writing: bool,
    /// Whether a prior exclusive section failed while holding the writable
    /// token.
    pub poisoned: bool,
}

impl<T> SharedLock<T> {
    /// How many readable tokens are outstanding.
    pub open spec fn reader_count(&self) -> nat {
        self.readers as nat
    }

    /// Whether the writable token is outstanding.
    pub open spec fn is_writing(&self) -> bool {
        self.writing
    }

    /// Whether a prior exclusive section failed while holding the writable
    /// token.
    pub open spec fn is_poisoned(&self) -> bool {
        self.poisoned
    }

    /// The lock state after one readable token has been released.
    pub open spec fn with_read_released(&self) -> Self {
        SharedLock {
            payload: self.payload,
            readers: (self.readers - 1) as usize,
            writing: self.writing,
            poisoned: self.poisoned,
        }
    }

    /// The lock state after the writable token has been handed back in good
    /// order.
    pub open spec fn with_write_released(&self) -> Self {
        SharedLock {
            payload: self.payload,
            readers: self.readers,
            writing: false,
            poisoned: self.poisoned,
        }
    }

    /// The lock state after the writable token has been abandoned by a
    /// failed exclusive section.
    pub open spec fn with_write_abandoned(&self) -> Self {
        SharedLock { payload: self.payload, readers: self.readers, writing: false, poisoned: true }
    }

    /// Make an unlocked, unpoisoned lock around `payload`.
    pub fn new(payload: T) -> (l: Self)
        ensures
            l.reader_count() == 0,
            !l.is_writing(),
            !l.is_poisoned(),
            l.value() == payload,
    {
        SharedLock { payload, readers: 0, writing: false, poisoned: false }
    }

    /// Attempt once, without blocking, to take one more shared hold. The
    /// attempt also reports contention in the one out-of-model situation
    /// where the reader count has reached the machine's limit.
    pub fn try_read(&mut self) -> (r: Result<SharedReadToken, TryLockError>)
        ensures
            r is Ok <==> old(self).read_ready(),
            old(self).read_ready() ==> *final(self) == old(self).with_read_acquired(),
            !old(self).read_ready() ==> *final(self) == *old(self) && r == Err::<
                SharedReadToken,
                TryLockError,
            >(old(self).read_fail()),
    {
        if self.poisoned {
            Err(TryLockError::Poisoned)
        } else if self.writing || self.readers == usize::MAX {
            Err(TryLockError::WouldBlock)
        } else {
            self.readers = self.readers + 1;
            Ok(SharedReadToken { marker: () })
        }
    }

    /// Attempt once, without blocking, to take the exclusive hold.
    pub fn try_write(&mut self) -> (r: Result<SharedWriteToken, TryLockError>)
        ensures
            r is Ok <==> old(self).write_ready(),
            old(self).write_ready() ==> *final(self) == old(self).with_write_acquired(),
            !old(self).write_ready() ==> *final(self) == *old(self) && r == Err::<
                SharedWriteToken,
                TryLockError,
            >(old(self).write_fail()),
    {
        if self.poisoned {
            Err(TryLockError::Poisoned)
        } else if self.writing || self.readers > 0 {
            Err(TryLockError::WouldBlock)
        } else {
            self.writing = true;
            Ok(SharedWriteToken { marker: () })
        }
    }

    /// Read the payload through an outstanding readable token.
    pub fn read(&self, _token: &SharedReadToken) -> (r: &T)
        requires
            self.reader_count() > 0,
        ensures
            *r == self.value(),
    {
        &self.payload
    }

    /// Read the payload through the outstanding writable token.
    pub fn read_mut(&self, _token: &SharedWriteToken) -> (r: &T)
        requires
            self.is_writing(),
        ensures
            *r == self.value(),
    {
        &self.payload
    }

    /// Replace the payload through the outstanding writable token.
    pub fn set(&mut self, _token: &SharedWriteToken, payload: T)
        requires
            old(self).is_writing(),
        ensures
            final(self).value() == payload,
            final(self).is_writing(),
            final(self).reader_count() == old(self).reader_count(),
            final(self).is_poisoned() == old(self).is_poisoned(),
    {
        self.payload = payload;
    }

    /// Release one outstanding readable token.
    pub fn release_read(&mut self, _token: SharedReadToken)
        requires
            old(self).reader_count() > 0,
        ensures
            *final(self) == old(self).with_read_released(),
    {
        self.readers = self.readers - 1;
    }

    /// Hand the outstanding writable token back in good order, releasing
    /// the exclusive hold.
    pub fn release_write(&mut self, _token: SharedWriteToken)
        requires
            old(self).is_writing(),
        ensures
            *final(self) == old(self).with_write_released(),
    {
        self.writing = false;
    }

    /// Abandon the outstanding writable token after a failed exclusive
    /// section, releasing the hold and leaving the lock poisoned for good.
    pub fn abandon_write(&mut self, _token: SharedWriteToken)
        requires
            old(self).is_writing(),
        ensures
            *final(self) == old(self).with_write_abandoned(),
    {
        self.writing = false;
        self.poisoned = true;
    }
}

impl<T> Inner for SharedLock<T> {
    type Inner = T;

    type Guard = SharedReadToken;

    type Error = TryLockError;

    open spec fn value(&self) -> T {
        self.payload
    }

    open spec fn read_ready(&self) -> bool {
        &&& !self.writing
        &&& !self.poisoned
        &&& self.readers < usize::MAX
    }

    open spec fn with_read_acquired(&self) -> Self {
        SharedLock {
            payload: self.payload,
            readers: (self.readers + 1) as usize,
            writing: self.writing,
            poisoned: self.poisoned,
        }
    }

    open spec fn read_fail(&self) -> TryLockError {
        if self.poisoned {
            TryLockError::Poisoned
        } else {
            TryLockError::WouldBlock
        }
    }

    fn inner(&mut self) -> (r: Result<SharedReadToken, TryLockError>) {
        self.try_read()
    }
}

impl<T> InnerMut for SharedLock<T> {
    type GuardMut = SharedWriteToken;

    type Error = TryLockError;

    open spec fn write_ready(&self) -> bool {
        &&& self.readers == 0
        &&& !self.writing
        &&& !self.poisoned
    }

    open spec fn with_write_acquired(&self) -> Self {
        SharedLock {
            payload: self.payload,
            readers: self.readers,
            writing: true,
            poisoned: self.poisoned,
        }
    }

    open spec fn write_fail(&self) -> TryLockError {
        if self.poisoned {
            TryLockError::Poisoned
        } else {
            TryLockError::WouldBlock
        }
    }

    fn inner_mut(&mut self) -> (r: Result<SharedWriteToken, TryLockError>) {
        self.try_write()
    }
}

/// Law: when no token is outstanding and the lock is not poisoned, a read
/// acquisition succeeds, and the payload it grants access to is the lock's
/// payload, unchanged. The same holds of a write acquisition.
pub proof fn lemma_shared_idle_acquire_succeeds<T>(l: SharedLock<T>)
    requires
        l.reader_count() == 0,
        !l.is_writing(),
        !l.is_poisoned(),
    ensures
        l.read_ready(),
        l.write_ready(),
        l.with_read_acquired().value() == l.value(),
        l.with_write_acquired().value() == l.value(),
{
}

/// Law: while at least one readable token is outstanding on an unpoisoned
/// lock, a write acquisition fails with contention.
pub proof fn lemma_shared_read_excludes_write<T>(l: SharedLock<T>)
    requires
        l.reader_count() > 0,
        !l.is_poisoned(),
    ensures
        !l.write_ready(),
        l.write_fail() == TryLockError::WouldBlock,
{
}

/// Law: while the writable token is outstanding on an unpoisoned lock, a
/// read acquisition fails with contention, and so does a second write
/// acquisition.
pub proof fn lemma_shared_write_excludes_read<T>(l: SharedLock<T>)
    requires
        l.is_writing(),
        !l.is_poisoned(),
    ensures
        !l.read_ready(),
        l.read_fail() == TryLockError::WouldBlock,
        !l.write_ready(),
{
}

/// Law: readable tokens may be held concurrently: on every state where a
/// read acquisition succeeds and the reader count is not at the machine's
/// limit, a further read acquisition succeeds on the state it leaves
/// behind, with the payload unchanged.
pub proof fn lemma_shared_two_readers<T>(l: SharedLock<T>)
    requires
        l.read_ready(),
        l.reader_count() + 1 < usize::MAX,
    ensures
        l.with_read_acquired().read_ready(),
        l.with_read_acquired().value() == l.value(),
{
}

/// Law: once the lock is poisoned, every acquisition attempt, readable or
/// writable, reports the poisoned outcome.
pub proof fn lemma_shared_poisoned_refuses_all<T>(l: SharedLock<T>)
    requires
        l.is_poisoned(),
    ensures
        !l.read_ready(),
        !l.write_ready(),
        l.read_fail() == TryLockError::Poisoned,
        l.write_fail() == TryLockError::Poisoned,
{
}

/// Law: once the last outstanding readable token is released, both kinds
/// of acquisition succeed again, and the payload is unchanged by the
/// release.
pub proof fn lemma_shared_release_read_restores<T>(l: SharedLock<T>)
    requires
        l.reader_count() == 1,
        !l.is_writing(),
        !l.is_poisoned(),
    ensures
        l.with_read_released().read_ready(),
        l.with_read_released().write_ready(),
        l.with_read_released().value() == l.value(),
{
}

/// Law: once the writable token is handed back in good order, both kinds
/// of acquisition succeed again, and the payload is unchanged by the
/// release.
pub proof fn lemma_shared_release_write_restores<T>(l: SharedLock<T>)
    requires
        l.is_writing(),
        l.reader_count() == 0,
        !l.is_poisoned(),
    ensures
        l.with_write_released().read_ready(),
        l.with_write_released().write_ready(),
        l.with_write_released().value() == l.value(),
{
}

} // verus!
