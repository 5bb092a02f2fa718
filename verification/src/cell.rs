//! Shared mutable cells. During one instruction several logical owners (the
//! transition handler and the marshaling layer) need access to the same
//! in-memory record. The cells live in an arena; a `Mutable<T>` is a cheap
//! handle addressing one slot, and copying the handle shares the slot. A
//! runtime checked-out-for-write flag per slot enforces the single-writer
//! discipline: the flag must be clear before write access is granted, reads
//! are refused while it is held, and committing the write clears it again.
//! Violations are reported as errors, never as silent corruption.

use core::marker::PhantomData;
use vstd::prelude::*;

verus! {

/// A violation of the cell access discipline. Any of these aborts the
/// instruction that caused it; none of them corrupts a slot.
#[derive(Clone, Copy, Debug, PartialEq, Eq)]
pub enum CellError {
    /// The handle does not address a slot of this arena.
    UnknownHandle,
    /// A write checkout is live on the slot, so no other access is granted.
    WriteHeld,
    /// A commit was attempted on a slot that was never checked out.
    NotHeld,
}

/// A handle to one shared slot of a [`CellArena`]. Handles are plain values:
/// copying one yields another handle to the same slot.
#[derive(Debug)]
pub struct Mutable<T> {
    index: usize,
    marker: PhantomData<T>,
}

impl<T> Mutable<T> {
    /// The slot this handle addresses.
    pub closed spec fn id(&self) -> int {
        self.index as int
    }
}

impl<T> Clone for Mutable<T> {
    /// Cloning a handle shares the slot it addresses.
    fn clone(&self) -> (r: Self)
        ensures
            r == *self,
    {
        Mutable { index: self.index, marker: PhantomData }
    }
}

impl<T> Copy for Mutable<T> {

}

/// An arena of shared slots, each holding a value of `T` and its
/// checked-out-for-write flag.
pub struct CellArena<T> {
    values: Vec<T>,
    flags: Vec<bool>,
}

impl<T> CellArena<T> {
    /// One flag per value.
    pub closed spec fn wf(&self) -> bool {
        self.flags@.len() == self.values@.len()
    }

    /// How many slots have been allocated.
    pub closed spec fn spec_len(&self) -> int {
        self.values@.len() as int
    }

    /// The value currently stored in slot `i`.
    pub closed spec fn value_at(&self, i: int) -> T {
        self.values@[i]
    }

    /// Whether slot `i` is checked out for writing.
    pub closed spec fn checked_out_at(&self, i: int) -> bool {
        self.flags@[i]
    }

    /// The handle addresses a slot of this arena.
    pub open spec fn valid(&self, m: Mutable<T>) -> bool {
        0 <= m.id() < self.spec_len()
    }

    /// The slot may be read: it exists and no write checkout is live on it.
    pub open spec fn readable(&self, m: Mutable<T>) -> bool {
        self.valid(m) && !self.checked_out_at(m.id())
    }

    /// The error reported when read or checkout access to `m` is refused.
    pub open spec fn access_error(&self, m: Mutable<T>) -> CellError {
        if !self.valid(m) {
            CellError::UnknownHandle
        } else {
            CellError::WriteHeld
        }
    }

    /// Slots other than `i` kept their value and their flag.
    pub open spec fn unchanged_except(&self, earlier: &Self, i: int) -> bool {
        forall|j: int|
            0 <= j < earlier.spec_len() && j != i ==> self.value_at(j) == earlier.value_at(j)
                && self.checked_out_at(j) == earlier.checked_out_at(j)
    }

    /// An arena with no slots.
    pub fn new() -> (arena: CellArena<T>)
        ensures
            arena.wf(),
            arena.spec_len() == 0,
    {
        CellArena { values: Vec::new(), flags: Vec::new() }
    }

    /// Read access to the slot `m` addresses. Refused while a write checkout
    /// is live on the slot.
    pub fn borrow(&self, m: &Mutable<T>) -> (r: Result<&T, CellError>)
        requires
            self.wf(),
        ensures
            r is Ok <==> self.readable(*m),
            r matches Ok(v) ==> *v == self.value_at(m.id()),
            r matches Err(e) ==> e == self.access_error(*m),
    {
        if m.index >= self.values.len() {
            Err(CellError::UnknownHandle)
        } else if self.flags[m.index] {
            Err(CellError::WriteHeld)
        } else {
            Ok(&self.values[m.index])
        }
    }

    /// Take the write checkout on the slot `m` addresses. The flag must be
    /// clear: a second checkout while one is live is an aliasing violation
    /// and is refused.
    pub fn checkout(&mut self, m: &Mutable<T>) -> (r: Result<(), CellError>)
        requires
            old(self).wf(),
        ensures
            final(self).wf(),
            final(self).spec_len() == old(self).spec_len(),
            r is Ok <==> old(self).readable(*m),
            r is Ok ==> final(self).checked_out_at(m.id())
                && final(self).value_at(m.id()) == old(self).value_at(m.id())
                && final(self).unchanged_except(old(self), m.id()),
            r matches Err(e) ==> e == old(self).access_error(*m) && *final(self) == *old(self),
    {
        if m.index >= self.values.len() {
            Err(CellError::UnknownHandle)
        } else if self.flags[m.index] {
            Err(CellError::WriteHeld)
        } else {
            self.flags[m.index] = true;
            Ok(())
        }
    }

    /// Store `value` into the checked-out slot `m` addresses and release the
    /// checkout. Refused unless the write checkout is live.
    pub fn commit(&mut self, m: &Mutable<T>, value: T) -> (r: Result<(), CellError>)
        requires
            old(self).wf(),
        ensures
            final(self).wf(),
            final(self).spec_len() == old(self).spec_len(),
            r is Ok <==> old(self).valid(*m) && old(self).checked_out_at(m.id()),
            r is Ok ==> final(self).value_at(m.id()) == value
                && !final(self).checked_out_at(m.id())
                && final(self).unchanged_except(old(self), m.id()),
            r matches Err(e) ==> *final(self) == *old(self) && e == (if !old(self).valid(*m) {
                CellError::UnknownHandle
            } else {
                CellError::NotHeld
            }),
    {
        if m.index >= self.values.len() {
            Err(CellError::UnknownHandle)
        } else if !self.flags[m.index] {
            Err(CellError::NotHeld)
        } else {
            self.values[m.index] = value;
            self.flags[m.index] = false;
            Ok(())
        }
    }
}

impl<T> Mutable<T> {
    /// Allocate a fresh slot holding `value` and hand back its handle. The
    /// new slot is not checked out.
    pub fn new(arena: &mut CellArena<T>, value: T) -> (m: Mutable<T>)
        requires
            old(arena).wf(),
        ensures
            final(arena).wf(),
            final(arena).spec_len() == old(arena).spec_len() + 1,
            m.id() == old(arena).spec_len(),
            final(arena).value_at(m.id()) == value,
            !final(arena).checked_out_at(m.id()),
            final(arena).unchanged_except(old(arena), m.id()),
    {
        let index = arena.values.len();
        arena.values.push(value);
        arena.flags.push(false);
        Mutable { index, marker: PhantomData }
    }
}

impl<T: Clone> Mutable<Vec<T>> {
    /// Resolve a possibly negative index into the vector this cell holds:
    /// a negative index counts back from the end.
    pub fn wrapped_index(&self, arena: &CellArena<Vec<T>>, index: i128) -> (r: usize)
        requires
            arena.wf(),
            arena.readable(*self),
            index >= 0 ==> index <= usize::MAX as i128,
            index < 0 ==> 0 <= index + arena.value_at(self.id())@.len(),
        ensures
            r == if index >= 0 {
                index as int
            } else {
                index + arena.value_at(self.id())@.len()
            },
    {
        if index >= 0 {
            return index as usize;
        }
        let len = match arena.borrow(self) {
            Ok(v) => v.len(),
            Err(_) => vstd::pervasive::unreached(),
        };
        let shifted = index + len as i128;
        return shifted as usize;
    }
}

impl<T: Clone, const N: usize> Mutable<[T; N]> {
    /// Resolve a possibly negative index into the array this cell holds:
    /// a negative index counts back from the end. The length is the array's
    /// own, so the arena is not consulted.
    pub fn wrapped_index(&self, index: i128) -> (r: usize)
        requires
            index >= 0 ==> index <= usize::MAX as i128,
            index < 0 ==> 0 <= index + N,
            N as int <= usize::MAX as int,
        ensures
            r == if index >= 0 {
                index as int
            } else {
                index + N
            },
    {
        if index >= 0 {
            return index as usize;
        }
        let shifted = index + N as i128;
        return shifted as usize;
    }
}

} // verus!
