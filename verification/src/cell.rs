//! The single-owner, runtime-checked cell variant.
//!
//! A `CheckedCell` enforces the aliasing rule of single ownership at run
//! time: any number of readable tokens may be outstanding at once, or
//! exactly one writable token, never both. There is no poisoned state;
//! every failure is an aliasing violation, reported as [`BorrowError`] on
//! the read path and [`BorrowMutError`] on the write path.

use vstd::prelude::*;

use crate::Inner;
use crate::InnerMut;

verus! {

/// Reported when a readable token is requested while the writable token is
/// outstanding: a runtime aliasing violation.
#[derive(Clone, Copy, PartialEq, Eq, Structural, Debug)]
pub struct BorrowError;

/// Reported when a writable token is requested while another token is
/// outstanding: a runtime aliasing violation.
#[derive(Clone, Copy, PartialEq, Eq, Structural, Debug)]
pub struct BorrowMutError;

/// A readable token for a `CheckedCell`; hand it back with
/// [`CheckedCell::release`] when the access is over.
#[derive(Debug)]
pub struct CellRef {
    #[allow(dead_code)]
    marker: (),
}

/// A writable token for a `CheckedCell`; hand it back with
/// [`CheckedCell::release_mut`] when the access is over.
#[derive(Debug)]
pub struct CellRefMut {
    #[allow(dead_code)]
    marker: (),
}

/// A single-owner cell: a payload together with the count of outstanding
/// readable tokens and a writer flag, its runtime borrow state.
pub struct CheckedCell<T> {
    /// The protected payload.
    pub payload: T,
    /// How many readable tokens are outstanding.
    pub readers: usize,
    /// Whether the writable token is outstanding.
    pub writing: bool,
}

impl<T> CheckedCell<T> {
    /// How many readable tokens are outstanding.
    pub open spec fn reader_count(&self) -> nat {
        self.readers as nat
    }

    /// Whether the writable token is outstanding.
    pub open spec fn is_writing(&self) -> bool {
        self.writing
    }

    /// The cell state after one readable token has been released.
    pub open spec fn with_read_released(&self) -> Self {
        CheckedCell {
            payload: self.payload,
            readers: (self.readers - 1) as usize,
            writing: self.writing,
        }
    }

    /// The cell state after the writable token has been released.
    pub open spec fn with_write_released(&self) -> Self {
        CheckedCell { payload: self.payload, readers: self.readers, writing: false }
    }

    /// Make a cell around `payload`, with no token outstanding.
    pub fn new(payload: T) -> (c: Self)
        ensures
            c.reader_count() == 0,
            !c.is_writing(),
            c.value() == payload,
    {
        CheckedCell { payload, readers: 0, writing: false }
    }

    /// Attempt once to take one more readable hold on this cell; only an
    /// outstanding writable token blocks it. The attempt also reports an
    /// aliasing violation in the one out-of-model situation where the
    /// reader count has reached the machine's limit.
    pub fn try_borrow(&mut self) -> (r: Result<CellRef, BorrowError>)
        ensures
            r is Ok <==> old(self).read_ready(),
            old(self).read_ready() ==> *final(self) == old(self).with_read_acquired(),
            !old(self).read_ready() ==> *final(self) == *old(self) && r == Err::<
                CellRef,
                BorrowError,
            >(old(self).read_fail()),
    {
        if self.writing || self.readers == usize::MAX {
            Err(BorrowError)
        } else {
            self.readers = self.readers + 1;
            Ok(CellRef { marker: () })
        }
    }

    /// Attempt once to take the single writable hold on this cell; any
    /// outstanding token blocks it.
    pub fn try_borrow_mut(&mut self) -> (r: Result<CellRefMut, BorrowMutError>)
        ensures
            r is Ok <==> old(self).write_ready(),
            old(self).write_ready() ==> *final(self) == old(self).with_write_acquired(),
            !old(self).write_ready() ==> *final(self) == *old(self) && r == Err::<
                CellRefMut,
                BorrowMutError,
            >(old(self).write_fail()),
    {
        if self.writing || self.readers > 0 {
            Err(BorrowMutError)
        } else {
            self.writing = true;
            Ok(CellRefMut { marker: () })
        }
    }

    /// Read the payload through an outstanding readable token.
    pub fn read(&self, _token: &CellRef) -> (r: &T)
        requires
            self.reader_count() > 0,
        ensures
            *r == self.value(),
    {
        &self.payload
    }

    /// Read the payload through the outstanding writable token.
    pub fn read_mut(&self, _token: &CellRefMut) -> (r: &T)
        requires
            self.is_writing(),
        ensures
            *r == self.value(),
    {
        &self.payload
    }

    /// Replace the payload through the outstanding writable token.
    pub fn set(&mut self, _token: &CellRefMut, payload: T)
        requires
            old(self).is_writing(),
        ensures
            final(self).value() == payload,
            final(self).is_writing(),
            final(self).reader_count() == old(self).reader_count(),
    {
        self.payload = payload;
    }

    /// Release one outstanding readable token.
    pub fn release(&mut self, _token: CellRef)
        requires
            old(self).reader_count() > 0,
        ensures
            *final(self) == old(self).with_read_released(),
    {
        self.readers = self.readers - 1;
    }

    /// Release the outstanding writable token, leaving the cell free.
    pub fn release_mut(&mut self, _token: CellRefMut)
        requires
            old(self).is_writing(),
        ensures
            *final(self) == old(self).with_write_released(),
    {
        self.writing = false;
    }
}

impl<T> Inner for CheckedCell<T> {
    type Inner = T;

    type Guard = CellRef;

    type Error = BorrowError;

    open spec fn value(&self) -> T {
        self.payload
    }

    open spec fn read_ready(&self) -> bool {
        &&& !self.writing
        &&& self.readers < usize::MAX
    }

    open spec fn with_read_acquired(&self) -> Self {
        CheckedCell {
            payload: self.payload,
            readers: (self.readers + 1) as usize,
            writing: self.writing,
        }
    }

    open spec fn read_fail(&self) -> BorrowError {
        BorrowError
    }

    fn inner(&mut self) -> (r: Result<CellRef, BorrowError>) {
        self.try_borrow()
    }
}

impl<T> InnerMut for CheckedCell<T> {
    type GuardMut = CellRefMut;

    type Error = BorrowMutError;

    open spec fn write_ready(&self) -> bool {
        &&& self.readers == 0
        &&& !self.writing
    }

    open spec fn with_write_acquired(&self) -> Self {
        CheckedCell { payload: self.payload, readers: self.readers, writing: true }
    }

    open spec fn write_fail(&self) -> BorrowMutError {
        BorrowMutError
    }

    fn inner_mut(&mut self) -> (r: Result<CellRefMut, BorrowMutError>) {
        self.try_borrow_mut()
    }
}

/// Law: when no token is outstanding, a read acquisition on the cell
/// succeeds, and the payload it grants access to is the cell's payload,
/// unchanged. The same holds of a write acquisition.
pub proof fn lemma_cell_idle_acquire_succeeds<T>(c: CheckedCell<T>)
    requires
        c.reader_count() == 0,
        !c.is_writing(),
    ensures
        c.read_ready(),
        c.write_ready(),
        c.with_read_acquired().value() == c.value(),
        c.with_write_acquired().value() == c.value(),
{
}

/// Law: readable tokens may be held concurrently on the cell: on every
/// state where a read acquisition succeeds and the reader count is not at
/// the machine's limit, a further read acquisition succeeds on the state
/// it leaves behind, with the payload unchanged.
pub proof fn lemma_cell_two_readers<T>(c: CheckedCell<T>)
    requires
        c.read_ready(),
        c.reader_count() + 1 < usize::MAX,
    ensures
        c.with_read_acquired().read_ready(),
        c.with_read_acquired().value() == c.value(),
{
}

/// Law: while a readable token is outstanding, a write acquisition fails
/// as an aliasing violation.
pub proof fn lemma_cell_read_excludes_write<T>(c: CheckedCell<T>)
    requires
        c.reader_count() > 0,
    ensures
        !c.write_ready(),
        c.write_fail() == BorrowMutError,
{
}

/// Law: while the writable token is outstanding, a read acquisition fails
/// as an aliasing violation, and so does a second write acquisition.
pub proof fn lemma_cell_write_excludes_read<T>(c: CheckedCell<T>)
    requires
        c.is_writing(),
    ensures
        !c.read_ready(),
        c.read_fail() == BorrowError,
        !c.write_ready(),
{
}

/// Law: once the last outstanding readable token is released, both kinds
/// of acquisition succeed again, and the payload is unchanged by the
/// release.
pub proof fn lemma_cell_release_read_restores<T>(c: CheckedCell<T>)
    requires
        c.reader_count() == 1,
        !c.is_writing(),
    ensures
        c.with_read_released().read_ready(),
        c.with_read_released().write_ready(),
        c.with_read_released().value() == c.value(),
{
}

/// Law: once the writable token is released, both kinds of acquisition
/// succeed again, and the payload is unchanged by the release.
pub proof fn lemma_cell_release_write_restores<T>(c: CheckedCell<T>)
    requires
        c.is_writing(),
        c.reader_count() == 0,
    ensures
        c.with_write_released().read_ready(),
        c.with_write_released().write_ready(),
        c.with_write_released().value() == c.value(),
{
}

} // verus!
