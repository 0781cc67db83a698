//! A cell whose storage starts out uninitialized.
//!
//! `SingletonUninit` holds possibly-absent storage, modelled as a tagged
//! union rather than raw uninitialized memory: absent storage is a tag, and
//! every access pays one tag check, in either mode. Until the one legal `init`
//! call has run, every other operation fails with `NotInitialized`, before
//! the thread and borrow checks, so the more specific error surfaces first.

use crate::cell::{BorrowState, Mode, SafetyCell};
use crate::error::AccessError;
use vstd::prelude::*;

verus! {

/// A cell holding possibly-uninitialized storage plus its initialized tag.
pub struct SingletonUninit<T> {
    /// The core cell; `None` is the uninitialized tag.
    pub cell: SafetyCell<Option<T>>,
}

impl<T> SingletonUninit<T> {
    /// Well-formedness of the core cell.
    pub open spec fn inv(self) -> bool {
        self.cell.inv()
    }

    /// Whether the one-time initialization has happened.
    pub open spec fn initialized(self) -> bool {
        self.cell.value is Some
    }

    /// The storage: the value, or the uninitialized tag.
    pub open spec fn stored(self) -> Option<T> {
        self.cell.value
    }

    /// The thread-affinity check of the core cell.
    pub open spec fn thread_ok(self, thread: u64) -> bool {
        self.cell.thread_ok(thread)
    }

    /// Outcome of a shared read: the uninitialized tag fails first, then the
    /// transient shared access runs.
    pub open spec fn get_outcome(self, thread: u64) -> (Result<(), AccessError>, SingletonUninit<
        T,
    >) {
        if self.cell.value is None {
            (Err(AccessError::NotInitialized), self)
        } else {
            let (r, c) = self.cell.shared_probe(thread);
            (r, SingletonUninit { cell: c })
        }
    }

    /// Outcome of the checks of an exclusive access: the uninitialized tag
    /// fails first, then the transient exclusive access runs.
    pub open spec fn exclusive_outcome(self, thread: u64) -> (
        Result<(), AccessError>,
        SingletonUninit<T>,
    ) {
        if self.cell.value is None {
            (Err(AccessError::NotInitialized), self)
        } else {
            let (r, c) = self.cell.exclusive_probe(thread);
            (r, SingletonUninit { cell: c })
        }
    }

    /// Outcome of `init`: the thread-affinity check runs first (pinning the
    /// owner), then a second initialization is refused, then the exclusive
    /// access writes the value and sets the tag.
    pub open spec fn init_outcome(self, thread: u64, value: T) -> (
        Result<(), AccessError>,
        SingletonUninit<T>,
    ) {
        let (tr, c1) = self.cell.thread_probe(thread);
        if tr is Err {
            (tr, SingletonUninit { cell: c1 })
        } else if c1.value is Some {
            (Err(AccessError::AlreadyInitialized), SingletonUninit { cell: c1 })
        } else {
            let (br, c2) = c1.exclusive_probe(thread);
            if br is Err {
                (br, SingletonUninit { cell: c2 })
            } else {
                (Ok(()), SingletonUninit { cell: SafetyCell { value: Some(value), ..c2 } })
            }
        }
    }

    /// Outcome of `replace`: the checks of an exclusive access, then the
    /// storage is overwritten in place (the previous value is dropped).
    pub open spec fn replace_outcome(self, thread: u64, value: T) -> (
        Result<(), AccessError>,
        SingletonUninit<T>,
    ) {
        let (r, s1) = self.exclusive_outcome(thread);
        if r is Err {
            (r, s1)
        } else {
            (Ok(()), SingletonUninit { cell: SafetyCell { value: Some(value), ..s1.cell } })
        }
    }

    /// Outcome of `init_or_replace`: a transient exclusive access that writes
    /// the value whether or not the tag was set.
    pub open spec fn force_outcome(self, thread: u64, value: T) -> (
        Result<(), AccessError>,
        SingletonUninit<T>,
    ) {
        let (r, c) = self.cell.exclusive_probe(thread);
        if r is Err {
            (r, SingletonUninit { cell: c })
        } else {
            (Ok(()), SingletonUninit { cell: SafetyCell { value: Some(value), ..c } })
        }
    }

    /// A new checked cell whose storage is uninitialized.
    pub fn uninit() -> (s: SingletonUninit<T>)
        ensures
            s.cell == (SafetyCell {
                value: None::<T>,
                mode: Mode::Checked,
                state: BorrowState::Free,
                owner: None::<u64>,
            }),
            s.inv(),
    {
        SingletonUninit { cell: SafetyCell::new(None, Mode::Checked) }
    }

    /// A new cell with uninitialized storage, in the given mode.
    pub fn uninit_with_mode(mode: Mode) -> (s: SingletonUninit<T>)
        ensures
            s.cell == (SafetyCell {
                value: None::<T>,
                mode,
                state: BorrowState::Free,
                owner: None::<u64>,
            }),
            s.inv(),
    {
        SingletonUninit { cell: SafetyCell::new(None, mode) }
    }

    /// A new checked cell whose storage is already initialized to `value`.
    pub fn new(value: T) -> (s: SingletonUninit<T>)
        ensures
            s.cell == (SafetyCell {
                value: Some(value),
                mode: Mode::Checked,
                state: BorrowState::Free,
                owner: None::<u64>,
            }),
            s.inv(),
    {
        SingletonUninit { cell: SafetyCell::new(Some(value), Mode::Checked) }
    }

    /// Shared read of the initialized value.
    pub fn get(&mut self, thread: u64) -> (r: Result<&T, AccessError>)
        requires
            old(self).inv(),
        ensures
            final(self).inv(),
            *final(self) == old(self).get_outcome(thread).1,
            match r {
                Ok(v) => old(self).get_outcome(thread).0 is Ok && Some(*v) == old(self).stored(),
                Err(e) => old(self).get_outcome(thread).0 == Err::<(), AccessError>(e),
            },
    {
        if self.cell.value.is_none() {
            return Err(AccessError::NotInitialized);
        }
        match self.cell.get(thread) {
            Ok(opt) => match opt {
                Some(v) => Ok(v),
                None => {
                    proof {
                        assert(false);
                    }
                    Err(AccessError::NotInitialized)
                },
            },
            Err(e) => Err(e),
        }
    }

    /// Exclusive access to the initialized value; the borrow of the cell
    /// itself brackets the returned reference.
    pub fn get_mut(&mut self, thread: u64) -> (r: Result<&mut T, AccessError>)
        requires
            old(self).inv(),
        ensures
            final(self).inv(),
            match r {
                Ok(v) => {
                    &&& old(self).exclusive_outcome(thread).0 is Ok
                    &&& Some(*v) == old(self).stored()
                    &&& final(self).cell == (SafetyCell {
                        value: Some(*final(v)),
                        ..old(self).exclusive_outcome(thread).1.cell
                    })
                },
                Err(e) => {
                    &&& old(self).exclusive_outcome(thread).0 == Err::<(), AccessError>(e)
                    &&& *final(self) == old(self).exclusive_outcome(thread).1
                },
            },
    {
        if self.cell.value.is_none() {
            return Err(AccessError::NotInitialized);
        }
        match self.cell.acquire_exclusive(thread) {
            Err(e) => Err(e),
            Ok(()) => {
                self.cell.release_exclusive();
                match &mut self.cell.value {
                    Some(v) => Ok(v),
                    None => {
                        proof {
                            assert(false);
                        }
                        Err(AccessError::NotInitialized)
                    },
                }
            },
        }
    }

    /// Overwrite the initialized storage in place: the previous value is
    /// dropped and the new one written, under a transient exclusive access.
    pub fn replace(&mut self, thread: u64, value: T) -> (r: Result<(), AccessError>)
        requires
            old(self).inv(),
        ensures
            final(self).inv(),
            *final(self) == old(self).replace_outcome(thread, value).1,
            match r {
                Ok(()) => old(self).replace_outcome(thread, value).0 is Ok,
                Err(e) => old(self).replace_outcome(thread, value).0 == Err::<(), AccessError>(e),
            },
    {
        if self.cell.value.is_none() {
            return Err(AccessError::NotInitialized);
        }
        self.cell.replace(thread, Some(value))
    }

    /// One-time initialization: writes the value and sets the tag; the only
    /// place the tag goes from unset to set.
    pub fn init(&mut self, thread: u64, value: T) -> (r: Result<(), AccessError>)
        requires
            old(self).inv(),
        ensures
            final(self).inv(),
            *final(self) == old(self).init_outcome(thread, value).1,
            match r {
                Ok(()) => old(self).init_outcome(thread, value).0 is Ok,
                Err(e) => old(self).init_outcome(thread, value).0 == Err::<(), AccessError>(e),
            },
    {
        match self.cell.check_thread(thread) {
            Err(e) => return Err(e),
            Ok(()) => {},
        }
        if self.cell.value.is_some() {
            return Err(AccessError::AlreadyInitialized);
        }
        match self.cell.acquire_exclusive(thread) {
            Err(e) => Err(e),
            Ok(()) => {
                self.cell.release_exclusive();
                self.cell.value = Some(value);
                Ok(())
            },
        }
    }

    /// Initialize the storage, or overwrite it if the tag is already set.
    pub fn init_or_replace(&mut self, thread: u64, value: T) -> (r: Result<(), AccessError>)
        requires
            old(self).inv(),
        ensures
            final(self).inv(),
            *final(self) == old(self).force_outcome(thread, value).1,
            match r {
                Ok(()) => old(self).force_outcome(thread, value).0 is Ok,
                Err(e) => old(self).force_outcome(thread, value).0 == Err::<(), AccessError>(e),
            },
    {
        self.cell.replace(thread, Some(value))
    }
}

/// Law (one-time initialization lifecycle): on a fresh checked cell, a read
/// fails with `NotInitialized` and changes nothing; `init` succeeds, and a
/// read then sees the initialized value; a second `init` fails with
/// `AlreadyInitialized` and changes nothing; `replace` overwrites the storage
/// and a read then sees the new value.
pub proof fn lemma_uninit_lifecycle<T>(s: SingletonUninit<T>, thread: u64, v1: T, v2: T)
    requires
        s.inv(),
        s.cell.mode is Checked,
        s.cell.state is Free,
        !s.initialized(),
        s.thread_ok(thread),
    ensures
        s.get_outcome(thread) == (Err::<(), AccessError>(AccessError::NotInitialized), s),
        s.init_outcome(thread, v1).0 == Ok::<(), AccessError>(()),
        ({
            let s1 = s.init_outcome(thread, v1).1;
            &&& s1.stored() == Some(v1)
            &&& s1.get_outcome(thread).0 is Ok
            &&& s1.init_outcome(thread, v2) == (
                Err::<(), AccessError>(AccessError::AlreadyInitialized),
                s1,
            )
            &&& s1.replace_outcome(thread, v2).0 is Ok
            &&& s1.replace_outcome(thread, v2).1.stored() == Some(v2)
            &&& s1.replace_outcome(thread, v2).1.get_outcome(thread).0 is Ok
        }),
{
}

} // verus!
