//! A cell holding an optional value.
//!
//! `SingletonOption` stores an `Option` directly. `get` and `get_mut` assume
//! presence and fail with `EmptyValue` on an empty cell — after the thread and
//! borrow checks, which every operation here runs, the presence queries
//! included. `replace` always succeeds structurally; `take` extracts the value
//! and leaves the cell empty.

use crate::cell::{BorrowState, Mode, SafetyCell};
use crate::error::AccessError;
use vstd::prelude::*;

verus! {

/// A cell holding an optional value.
pub struct SingletonOption<T> {
    /// The core cell around the stored option.
    pub cell: SafetyCell<Option<T>>,
}

impl<T> SingletonOption<T> {
    /// Well-formedness of the core cell.
    pub open spec fn inv(self) -> bool {
        self.cell.inv()
    }

    /// The stored option.
    pub open spec fn stored(self) -> Option<T> {
        self.cell.value
    }

    /// The thread-affinity check of the core cell.
    pub open spec fn thread_ok(self, thread: u64) -> bool {
        self.cell.thread_ok(thread)
    }

    /// Outcome of the checks of a transient shared access (`as_option`,
    /// `is_some`, `is_none`).
    pub open spec fn shared_outcome(self, thread: u64) -> (
        Result<(), AccessError>,
        SingletonOption<T>,
    ) {
        let (r, c) = self.cell.shared_probe(thread);
        (r, SingletonOption { cell: c })
    }

    /// Outcome of the checks of a transient exclusive access
    /// (`as_option_mut`).
    pub open spec fn exclusive_outcome(self, thread: u64) -> (
        Result<(), AccessError>,
        SingletonOption<T>,
    ) {
        let (r, c) = self.cell.exclusive_probe(thread);
        (r, SingletonOption { cell: c })
    }

    /// Outcome of `get`: the shared-access checks, then an empty cell is
    /// refused.
    pub open spec fn get_outcome(self, thread: u64) -> (Result<(), AccessError>, SingletonOption<
        T,
    >) {
        let (r, s1) = self.shared_outcome(thread);
        if r is Err {
            (r, s1)
        } else if s1.cell.value is None {
            (Err(AccessError::EmptyValue), s1)
        } else {
            (Ok(()), s1)
        }
    }

    /// Outcome of `get_mut`: the exclusive-access checks, then an empty cell
    /// is refused.
    pub open spec fn get_mut_outcome(self, thread: u64) -> (
        Result<(), AccessError>,
        SingletonOption<T>,
    ) {
        let (r, s1) = self.exclusive_outcome(thread);
        if r is Err {
            (r, s1)
        } else if s1.cell.value is None {
            (Err(AccessError::EmptyValue), s1)
        } else {
            (Ok(()), s1)
        }
    }

    /// Outcome of `replace`: the exclusive-access checks, then the cell holds
    /// the new value (whatever it held before is dropped).
    pub open spec fn replace_outcome(self, thread: u64, value: T) -> (
        Result<(), AccessError>,
        SingletonOption<T>,
    ) {
        let (r, s1) = self.exclusive_outcome(thread);
        if r is Err {
            (r, s1)
        } else {
            (Ok(()), SingletonOption { cell: SafetyCell { value: Some(value), ..s1.cell } })
        }
    }

    /// Outcome of `take`: the exclusive-access checks, then the stored option
    /// comes out and the cell is left empty.
    pub open spec fn take_outcome(self, thread: u64) -> (
        Result<Option<T>, AccessError>,
        SingletonOption<T>,
    ) {
        let (r, s1) = self.exclusive_outcome(thread);
        if r is Err {
            (Err(r->Err_0), s1)
        } else {
            (Ok(s1.cell.value), SingletonOption { cell: SafetyCell { value: None, ..s1.cell } })
        }
    }

    /// A new checked cell holding nothing.
    pub fn new() -> (s: SingletonOption<T>)
        ensures
            s.cell == (SafetyCell {
                value: None::<T>,
                mode: Mode::Checked,
                state: BorrowState::Free,
                owner: None::<u64>,
            }),
            s.inv(),
    {
        SingletonOption { cell: SafetyCell::new(None, Mode::Checked) }
    }

    /// A new empty cell, in the given mode.
    pub fn new_with_mode(mode: Mode) -> (s: SingletonOption<T>)
        ensures
            s.cell == (SafetyCell {
                value: None::<T>,
                mode,
                state: BorrowState::Free,
                owner: None::<u64>,
            }),
            s.inv(),
    {
        SingletonOption { cell: SafetyCell::new(None, mode) }
    }

    /// A new checked cell holding `value`.
    pub fn new_some(value: T) -> (s: SingletonOption<T>)
        ensures
            s.cell == (SafetyCell {
                value: Some(value),
                mode: Mode::Checked,
                state: BorrowState::Free,
                owner: None::<u64>,
            }),
            s.inv(),
    {
        SingletonOption { cell: SafetyCell::new(Some(value), Mode::Checked) }
    }

    /// Shared read of the stored option itself.
    pub fn as_option(&mut self, thread: u64) -> (r: Result<&Option<T>, AccessError>)
        requires
            old(self).inv(),
        ensures
            final(self).inv(),
            *final(self) == old(self).shared_outcome(thread).1,
            match r {
                Ok(v) => old(self).shared_outcome(thread).0 is Ok && *v == old(self).stored(),
                Err(e) => old(self).shared_outcome(thread).0 == Err::<(), AccessError>(e),
            },
    {
        self.cell.get(thread)
    }

    /// Exclusive access to the stored option itself; the borrow of the cell
    /// brackets the returned reference.
    pub fn as_option_mut(&mut self, thread: u64) -> (r: Result<&mut Option<T>, AccessError>)
        requires
            old(self).inv(),
        ensures
            final(self).inv(),
            match r {
                Ok(v) => {
                    &&& old(self).exclusive_outcome(thread).0 is Ok
                    &&& *v == old(self).stored()
                    &&& final(self).cell == (SafetyCell {
                        value: *final(v),
                        ..old(self).exclusive_outcome(thread).1.cell
                    })
                },
                Err(e) => {
                    &&& old(self).exclusive_outcome(thread).0 == Err::<(), AccessError>(e)
                    &&& *final(self) == old(self).exclusive_outcome(thread).1
                },
            },
    {
        self.cell.get_mut(thread)
    }

    /// Shared read of the value, assuming presence.
    pub fn get(&mut self, thread: u64) -> (r: Result<&T, AccessError>)
        requires
            old(self).inv(),
        ensures
            final(self).inv(),
            *final(self) == old(self).get_outcome(thread).1,
            match r {
                Ok(v) => old(self).get_outcome(thread).0 is Ok && Some(*v) == old(self).stored(),
                Err(e) => old(self).get_outcome(thread).0 == Err::<(), AccessError>(e),
            },
    {
        match self.cell.get(thread) {
            Err(e) => Err(e),
            Ok(opt) => match opt {
                Some(v) => Ok(v),
                None => Err(AccessError::EmptyValue),
            },
        }
    }

    /// Exclusive access to the value, assuming presence; the borrow of the
    /// cell brackets the returned reference.
    pub fn get_mut(&mut self, thread: u64) -> (r: Result<&mut T, AccessError>)
        requires
            old(self).inv(),
        ensures
            final(self).inv(),
            match r {
                Ok(v) => {
                    &&& old(self).get_mut_outcome(thread).0 is Ok
                    &&& Some(*v) == old(self).stored()
                    &&& final(self).cell == (SafetyCell {
                        value: Some(*final(v)),
                        ..old(self).get_mut_outcome(thread).1.cell
                    })
                },
                Err(e) => {
                    &&& old(self).get_mut_outcome(thread).0 == Err::<(), AccessError>(e)
                    &&& *final(self) == old(self).get_mut_outcome(thread).1
                },
            },
    {
        match self.cell.acquire_exclusive(thread) {
            Err(e) => Err(e),
            Ok(()) => {
                self.cell.release_exclusive();
                match &mut self.cell.value {
                    Some(v) => Ok(v),
                    None => Err(AccessError::EmptyValue),
                }
            },
        }
    }

    /// Store `value`, dropping whatever was held before.
    pub fn replace(&mut self, thread: u64, value: T) -> (r: Result<(), AccessError>)
        requires
            old(self).inv(),
        ensures
            final(self).inv(),
            *final(self) == old(self).replace_outcome(thread, value).1,
            match r {
                Ok(()) => old(self).replace_outcome(thread, value).0 is Ok,
                Err(e) => old(self).replace_outcome(thread, value).0 == Err::<(), AccessError>(e),
            },
    {
        self.cell.replace(thread, Some(value))
    }

    /// Take the stored option out, leaving the cell empty.
    pub fn take(&mut self, thread: u64) -> (r: Result<Option<T>, AccessError>)
        requires
            old(self).inv(),
        ensures
            final(self).inv(),
            *final(self) == old(self).take_outcome(thread).1,
            r == old(self).take_outcome(thread).0,
    {
        match self.cell.acquire_exclusive(thread) {
            Err(e) => Err(e),
            Ok(()) => {
                self.cell.release_exclusive();
                Ok(self.cell.value.take())
            },
        }
    }

    /// Whether the cell holds a value; still runs the shared-access checks.
    pub fn is_some(&mut self, thread: u64) -> (r: Result<bool, AccessError>)
        requires
            old(self).inv(),
        ensures
            final(self).inv(),
            *final(self) == old(self).shared_outcome(thread).1,
            match r {
                Ok(b) => old(self).shared_outcome(thread).0 is Ok && b == (old(self).stored()
                    is Some),
                Err(e) => old(self).shared_outcome(thread).0 == Err::<(), AccessError>(e),
            },
    {
        match self.cell.get(thread) {
            Err(e) => Err(e),
            Ok(opt) => Ok(opt.is_some()),
        }
    }

    /// Whether the cell is empty; still runs the shared-access checks.
    pub fn is_none(&mut self, thread: u64) -> (r: Result<bool, AccessError>)
        requires
            old(self).inv(),
        ensures
            final(self).inv(),
            *final(self) == old(self).shared_outcome(thread).1,
            match r {
                Ok(b) => old(self).shared_outcome(thread).0 is Ok && b == (old(self).stored()
                    is None),
                Err(e) => old(self).shared_outcome(thread).0 == Err::<(), AccessError>(e),
            },
    {
        match self.cell.get(thread) {
            Err(e) => Err(e),
            Ok(opt) => Ok(opt.is_none()),
        }
    }
}

/// Law (optional-value lifecycle): on a fresh checked cell the storage is
/// empty and a read fails with `EmptyValue`; `replace` succeeds and a read
/// then sees the stored value; `take` hands that value out, and afterwards the
/// cell is empty again and a read fails with `EmptyValue`.
pub proof fn lemma_option_lifecycle<T>(s: SingletonOption<T>, thread: u64, v: T)
    requires
        s.inv(),
        s.cell.mode is Checked,
        s.cell.state is Free,
        s.stored() is None,
        s.thread_ok(thread),
    ensures
        s.get_outcome(thread).0 == Err::<(), AccessError>(AccessError::EmptyValue),
        s.shared_outcome(thread).0 is Ok,
        s.replace_outcome(thread, v).0 is Ok,
        ({
            let s1 = s.replace_outcome(thread, v).1;
            &&& s1.stored() == Some(v)
            &&& s1.get_outcome(thread).0 is Ok
            &&& s1.take_outcome(thread).0 == Ok::<Option<T>, AccessError>(Some(v))
            &&& s1.take_outcome(thread).1.stored() is None
            &&& s1.take_outcome(thread).1.get_outcome(thread).0 == Err::<(), AccessError>(
                AccessError::EmptyValue,
            )
        }),
{
}

} // verus!
