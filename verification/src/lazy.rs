//! A cell whose value is computed on first use.
//!
//! `SingletonLazy` stores a one-shot initializer and a slot for the computed
//! value; exactly one of the two is present. The first access that needs the
//! value consumes the initializer and records its output — a one-way
//! transition that runs under the exclusive-access checks, since a
//! half-complete resolution must not be observable. Once resolved, the cell
//! behaves exactly like an always-initialized one, and there is no
//! initializer left to consult again.

use crate::cell::{BorrowState, Mode, SafetyCell};
use crate::error::AccessError;
use vstd::prelude::*;

verus! {

/// The storage of a lazy cell: a pending initializer, or the computed value.
pub struct LazyState<T, F> {
    /// The one-shot initializer; consumed by the first resolving access.
    pub initializer: Option<F>,
    /// The computed value, once the initializer has run.
    pub computed: Option<T>,
}

/// A cell holding a deferred value plus its one-shot initializer.
pub struct SingletonLazy<T, F> {
    /// The core cell around the lazy storage.
    pub cell: SafetyCell<LazyState<T, F>>,
}

impl<T, F: FnOnce() -> T> SingletonLazy<T, F> {
    /// Whether the initializer has not yet run.
    pub open spec fn pending(self) -> bool {
        self.cell.value.initializer is Some
    }

    /// Whether the value has been computed.
    pub open spec fn resolved(self) -> bool {
        self.cell.value.computed is Some
    }

    /// The computed value, once resolved.
    pub open spec fn stored(self) -> T {
        self.cell.value.computed->0
    }

    /// The initializer, while pending.
    pub open spec fn init_fn(self) -> F {
        self.cell.value.initializer->0
    }

    /// Well-formedness: the core cell is well-formed, exactly one of
    /// initializer and value is present, and a pending initializer may be
    /// called.
    pub open spec fn inv(self) -> bool {
        &&& self.cell.inv()
        &&& (self.pending() <==> !self.resolved())
        &&& (self.pending() ==> call_requires(self.init_fn(), ()))
    }

    /// The thread-affinity check of the core cell.
    pub open spec fn thread_ok(self, thread: u64) -> bool {
        self.cell.thread_ok(thread)
    }

    /// The checks a `get` runs: resolving a pending cell is a write, so it
    /// needs the transient exclusive access; reading a resolved one needs
    /// only the shared access.
    pub open spec fn get_checks(self, thread: u64) -> (
        Result<(), AccessError>,
        SafetyCell<LazyState<T, F>>,
    ) {
        if self.pending() {
            self.cell.exclusive_probe(thread)
        } else {
            self.cell.shared_probe(thread)
        }
    }

    /// A new checked cell with a pending initializer.
    pub fn new(initializer: F) -> (s: SingletonLazy<T, F>)
        requires
            call_requires(initializer, ()),
        ensures
            s.cell == (SafetyCell {
                value: LazyState { initializer: Some(initializer), computed: None::<T> },
                mode: Mode::Checked,
                state: BorrowState::Free,
                owner: None::<u64>,
            }),
            s.inv(),
            s.pending(),
    {
        SingletonLazy {
            cell: SafetyCell::new(
                LazyState { initializer: Some(initializer), computed: None },
                Mode::Checked,
            ),
        }
    }

    /// A new cell with a pending initializer, in the given mode.
    pub fn new_with_mode(initializer: F, mode: Mode) -> (s: SingletonLazy<T, F>)
        requires
            call_requires(initializer, ()),
        ensures
            s.cell == (SafetyCell {
                value: LazyState { initializer: Some(initializer), computed: None::<T> },
                mode,
                state: BorrowState::Free,
                owner: None::<u64>,
            }),
            s.inv(),
            s.pending(),
    {
        SingletonLazy {
            cell: SafetyCell::new(LazyState { initializer: Some(initializer), computed: None }, mode),
        }
    }

    /// Consume the initializer and record its output. Runs only on a pending
    /// cell, after the exclusive-access checks have passed.
    fn resolve(&mut self)
        requires
            old(self).inv(),
            old(self).pending(),
        ensures
            final(self).inv(),
            final(self).resolved(),
            final(self).cell == (SafetyCell {
                value: LazyState {
                    initializer: None::<F>,
                    computed: Some(final(self).stored()),
                },
                ..old(self).cell
            }),
            call_ensures(old(self).init_fn(), (), final(self).stored()),
    {
        let f = self.cell.value.initializer.take().unwrap();
        let v = f();
        self.cell.value.computed = Some(v);
    }

    /// Read the value, computing it first if this is the first access.
    ///
    /// While the cell is pending, the resolution is a write, so a read while
    /// any handle is outstanding fails with `BorrowConflict`; once resolved,
    /// it is an ordinary shared read. On the access that resolves, the value
    /// handed back is the one output of the initializer, recorded for every
    /// later access.
    pub fn get(&mut self, thread: u64) -> (r: Result<&T, AccessError>)
        requires
            old(self).inv(),
        ensures
            final(self).inv(),
            match r {
                Ok(v) => {
                    &&& old(self).get_checks(thread).0 is Ok
                    &&& final(self).cell == (SafetyCell {
                        value: LazyState { initializer: None::<F>, computed: Some(*v) },
                        ..old(self).get_checks(thread).1
                    })
                    &&& old(self).resolved() ==> *v == old(self).stored()
                    &&& old(self).pending() ==> call_ensures(old(self).init_fn(), (), *v)
                },
                Err(e) => {
                    &&& old(self).get_checks(thread).0 == Err::<(), AccessError>(e)
                    &&& final(self).cell == old(self).get_checks(thread).1
                },
            },
    {
        if self.cell.value.initializer.is_some() {
            match self.cell.acquire_exclusive(thread) {
                Err(e) => return Err(e),
                Ok(()) => {},
            }
            self.cell.release_exclusive();
            self.resolve();
        } else {
            match self.cell.acquire_shared(thread) {
                Err(e) => return Err(e),
                Ok(()) => {},
            }
            self.cell.release_shared();
        }
        match &self.cell.value.computed {
            Some(v) => Ok(v),
            None => {
                proof {
                    assert(false);
                }
                Err(AccessError::NotInitialized)
            },
        }
    }

    /// Exclusive access to the value, computing it first if this is the first
    /// access; the borrow of the cell brackets the returned reference.
    pub fn get_mut(&mut self, thread: u64) -> (r: Result<&mut T, AccessError>)
        requires
            old(self).inv(),
        ensures
            final(self).inv(),
            match r {
                Ok(v) => {
                    &&& old(self).cell.exclusive_probe(thread).0 is Ok
                    &&& final(self).cell == (SafetyCell {
                        value: LazyState { initializer: None::<F>, computed: Some(*final(v)) },
                        ..old(self).cell.exclusive_probe(thread).1
                    })
                    &&& old(self).resolved() ==> *v == old(self).stored()
                    &&& old(self).pending() ==> call_ensures(old(self).init_fn(), (), *v)
                },
                Err(e) => {
                    &&& old(self).cell.exclusive_probe(thread).0 == Err::<(), AccessError>(e)
                    &&& final(self).cell == old(self).cell.exclusive_probe(thread).1
                },
            },
    {
        match self.cell.acquire_exclusive(thread) {
            Err(e) => return Err(e),
            Ok(()) => {},
        }
        self.cell.release_exclusive();
        if self.cell.value.initializer.is_some() {
            self.resolve();
        }
        match &mut self.cell.value.computed {
            Some(v) => Ok(v),
            None => {
                proof {
                    assert(false);
                }
                Err(AccessError::NotInitialized)
            },
        }
    }

    /// Overwrite the value. A pending cell is resolved first — the
    /// initializer runs once and its output is dropped — then the new value
    /// is recorded; so the initializer is still consumed exactly once.
    pub fn replace(&mut self, thread: u64, value: T) -> (r: Result<(), AccessError>)
        requires
            old(self).inv(),
        ensures
            final(self).inv(),
            match r {
                Ok(()) => {
                    &&& old(self).cell.exclusive_probe(thread).0 is Ok
                    &&& final(self).cell == (SafetyCell {
                        value: LazyState { initializer: None::<F>, computed: Some(value) },
                        ..old(self).cell.exclusive_probe(thread).1
                    })
                },
                Err(e) => {
                    &&& old(self).cell.exclusive_probe(thread).0 == Err::<(), AccessError>(e)
                    &&& final(self).cell == old(self).cell.exclusive_probe(thread).1
                },
            },
    {
        match self.cell.acquire_exclusive(thread) {
            Err(e) => return Err(e),
            Ok(()) => {},
        }
        self.cell.release_exclusive();
        if self.cell.value.initializer.is_some() {
            self.resolve();
        }
        self.cell.value.computed = Some(value);
        Ok(())
    }

    /// Acquire a shared handle on the underlying cell; pair a success with
    /// one `release_shared`.
    pub fn acquire_shared(&mut self, thread: u64) -> (r: Result<(), AccessError>)
        requires
            old(self).inv(),
        ensures
            final(self).inv(),
            r == old(self).cell.shared_acquire(thread).0,
            final(self).cell == old(self).cell.shared_acquire(thread).1,
    {
        self.cell.acquire_shared(thread)
    }

    /// Release one shared handle.
    pub fn release_shared(&mut self)
        requires
            old(self).inv(),
            old(self).cell.mode is Checked ==> old(self).cell.state matches BorrowState::Shared(
                _,
            ),
        ensures
            final(self).inv(),
            final(self).cell == old(self).cell.shared_release_next(),
    {
        self.cell.release_shared()
    }

    /// Acquire the exclusive handle on the underlying cell; pair a success
    /// with one `release_exclusive`.
    pub fn acquire_exclusive(&mut self, thread: u64) -> (r: Result<(), AccessError>)
        requires
            old(self).inv(),
        ensures
            final(self).inv(),
            r == old(self).cell.exclusive_acquire(thread).0,
            final(self).cell == old(self).cell.exclusive_acquire(thread).1,
    {
        self.cell.acquire_exclusive(thread)
    }

    /// Release the exclusive handle.
    pub fn release_exclusive(&mut self)
        requires
            old(self).inv(),
            old(self).cell.mode is Checked ==> old(self).cell.state is Exclusive,
        ensures
            final(self).inv(),
            final(self).cell == old(self).cell.exclusive_release_next(),
    {
        self.cell.release_exclusive()
    }
}

/// Law (the initializer runs at most once, and every read observes its one
/// output): `get`'s contract resolves a pending cell to exactly the value it
/// returns, consuming the initializer; this lemma adds that on a resolved,
/// quiescent cell every further read passes its checks, observes exactly the
/// recorded value, and leaves the storage untouched — so no second run can
/// ever happen, and every read returns the single recorded output.
pub proof fn lemma_lazy_single_output<T, F: FnOnce() -> T>(
    s: SingletonLazy<T, F>,
    thread: u64,
    y: T,
)
    requires
        s.inv(),
        s.cell.state is Free,
        s.thread_ok(thread),
        s.resolved(),
        s.stored() == y,
    ensures
        !s.pending(),
        s.get_checks(thread).0 is Ok,
        s.get_checks(thread).1.value == s.cell.value,
        s.get_checks(thread).1.value.computed == Some(y),
        s.get_checks(thread).1.value.initializer == None::<F>,
        s.get_checks(thread).1.state is Free,
{
}

} // verus!
