//! The safety-checked cell core.
//!
//! [`SafetyCell`] owns one value together with the dynamic bookkeeping that
//! turns "mutable state reached from many places" into something whose misuse
//! is caught at the point of violation: a borrow state machine (free, shared
//! with a count, exclusive) and a thread-affinity record that pins the cell to
//! whichever thread touches it first. Every operation of the singleton types
//! funnels through the two primitives here, acquire-shared and
//! acquire-exclusive.
//!
//! A cell built in [`Mode::Unchecked`] keeps no bookkeeping at all: every
//! acquire succeeds and nothing is recorded. That is the zero-overhead
//! counterpart of the checked mode, for programs already known to respect the
//! discipline.

use crate::error::AccessError;
use vstd::prelude::*;

verus! {

/// Whether a cell performs the dynamic safety checks.
#[derive(Clone, Copy, Debug, PartialEq, Eq, Structural)]
pub enum Mode {
    /// Every acquire runs the thread-affinity and borrow checks.
    Checked,
    /// Every acquire succeeds; no state is kept. The discipline is advisory.
    Unchecked,
}

/// The dynamic borrow state of a checked cell.
#[derive(Clone, Copy, Debug, PartialEq, Eq, Structural)]
pub enum BorrowState {
    /// No access is outstanding.
    Free,
    /// The given number of shared handles is outstanding; always at least one.
    Shared(u64),
    /// One exclusive handle is outstanding.
    Exclusive,
}

/// One value guarded by the dynamic borrow/thread-affinity state machine.
pub struct SafetyCell<T> {
    /// The guarded value.
    pub value: T,
    /// Chosen at construction; never changes afterwards.
    pub mode: Mode,
    /// Outstanding handles, in checked mode; always `Free` in unchecked mode.
    pub state: BorrowState,
    /// The thread that first touched the cell, in checked mode; fixed once set.
    pub owner: Option<u64>,
}

impl<T> SafetyCell<T> {
    /// Well-formedness: a shared count is at least one, and an unchecked cell
    /// keeps no bookkeeping.
    pub open spec fn inv(self) -> bool {
        &&& (self.state matches BorrowState::Shared(n) ==> n >= 1)
        &&& (self.mode is Unchecked ==> self.state is Free && self.owner is None)
    }

    /// The thread-affinity check: the cell is untouched, or was first touched
    /// by this very thread.
    pub open spec fn thread_ok(self, thread: u64) -> bool {
        self.owner is None || self.owner == Some(thread)
    }

    /// The same cell with its owner pinned to the given thread.
    pub open spec fn pinned(self, thread: u64) -> SafetyCell<T> {
        SafetyCell { owner: Some(thread), ..self }
    }

    /// Outcome of requesting a shared handle: the result and the next state.
    ///
    /// Unchecked: succeeds, nothing recorded. Checked: fails with
    /// `ThreadAffinityViolation` from a foreign thread; otherwise the owner is
    /// pinned (first access only) and the request fails with `BorrowConflict`
    /// while an exclusive handle is outstanding or the shared count is
    /// saturated, else the count grows by one.
    pub open spec fn shared_acquire(self, thread: u64) -> (Result<(), AccessError>, SafetyCell<T>) {
        if self.mode is Unchecked {
            (Ok(()), self)
        } else if !self.thread_ok(thread) {
            (Err(AccessError::ThreadAffinityViolation), self)
        } else {
            match self.state {
                BorrowState::Free => (
                    Ok(()),
                    SafetyCell { state: BorrowState::Shared(1), ..self.pinned(thread) },
                ),
                BorrowState::Shared(n) => if n < u64::MAX {
                    (
                        Ok(()),
                        SafetyCell {
                            state: BorrowState::Shared((n + 1) as u64),
                            ..self.pinned(thread)
                        },
                    )
                } else {
                    (Err(AccessError::BorrowConflict), self.pinned(thread))
                },
                BorrowState::Exclusive => (Err(AccessError::BorrowConflict), self.pinned(thread)),
            }
        }
    }

    /// Outcome of requesting an exclusive handle.
    ///
    /// As `shared_acquire`, except that any outstanding handle at all is a
    /// `BorrowConflict`; on success the state becomes `Exclusive`.
    pub open spec fn exclusive_acquire(self, thread: u64) -> (
        Result<(), AccessError>,
        SafetyCell<T>,
    ) {
        if self.mode is Unchecked {
            (Ok(()), self)
        } else if !self.thread_ok(thread) {
            (Err(AccessError::ThreadAffinityViolation), self)
        } else {
            match self.state {
                BorrowState::Free => (
                    Ok(()),
                    SafetyCell { state: BorrowState::Exclusive, ..self.pinned(thread) },
                ),
                _ => (Err(AccessError::BorrowConflict), self.pinned(thread)),
            }
        }
    }

    /// The state after releasing one shared handle: the count shrinks by one,
    /// reaching `Free` at zero.
    pub open spec fn shared_release_next(self) -> SafetyCell<T> {
        if self.mode is Unchecked {
            self
        } else {
            match self.state {
                BorrowState::Shared(n) => if n == 1 {
                    SafetyCell { state: BorrowState::Free, ..self }
                } else {
                    SafetyCell { state: BorrowState::Shared((n - 1) as u64), ..self }
                },
                _ => self,
            }
        }
    }

    /// The state after releasing the exclusive handle: `Free` again.
    pub open spec fn exclusive_release_next(self) -> SafetyCell<T> {
        if self.mode is Unchecked {
            self
        } else {
            match self.state {
                BorrowState::Exclusive => SafetyCell { state: BorrowState::Free, ..self },
                _ => self,
            }
        }
    }

    /// Outcome of the thread-affinity check alone: from a foreign thread it
    /// fails, else it pins the owner (first access only), as every acquire
    /// does.
    pub open spec fn thread_probe(self, thread: u64) -> (Result<(), AccessError>, SafetyCell<T>) {
        if self.mode is Unchecked {
            (Ok(()), self)
        } else if !self.thread_ok(thread) {
            (Err(AccessError::ThreadAffinityViolation), self)
        } else {
            (Ok(()), self.pinned(thread))
        }
    }

    /// Outcome of a transient shared access: a shared handle acquired and, on
    /// success, released again before the operation returns.
    pub open spec fn shared_probe(self, thread: u64) -> (Result<(), AccessError>, SafetyCell<T>) {
        let (r, mid) = self.shared_acquire(thread);
        if r is Ok {
            (r, mid.shared_release_next())
        } else {
            (r, mid)
        }
    }

    /// Outcome of a transient exclusive access: the exclusive handle acquired
    /// and, on success, released again before the operation returns.
    pub open spec fn exclusive_probe(self, thread: u64) -> (
        Result<(), AccessError>,
        SafetyCell<T>,
    ) {
        let (r, mid) = self.exclusive_acquire(thread);
        if r is Ok {
            (r, mid.exclusive_release_next())
        } else {
            (r, mid)
        }
    }

    /// A new cell: no handle outstanding, no owning thread recorded.
    pub fn new(value: T, mode: Mode) -> (c: SafetyCell<T>)
        ensures
            c == (SafetyCell {
                value,
                mode,
                state: BorrowState::Free,
                owner: None::<u64>,
            }),
            c.inv(),
    {
        SafetyCell { value, mode, state: BorrowState::Free, owner: None }
    }

    /// Acquire a shared handle. The caller must pair a success with one
    /// `release_shared` call; that bracket is the critical section.
    pub fn acquire_shared(&mut self, thread: u64) -> (r: Result<(), AccessError>)
        requires
            old(self).inv(),
        ensures
            final(self).inv(),
            r == old(self).shared_acquire(thread).0,
            *final(self) == old(self).shared_acquire(thread).1,
    {
        match self.mode {
            Mode::Unchecked => Ok(()),
            Mode::Checked => {
                match self.owner {
                    Some(owner) => {
                        if owner != thread {
                            return Err(AccessError::ThreadAffinityViolation);
                        }
                    },
                    None => {
                        self.owner = Some(thread);
                    },
                }
                match self.state {
                    BorrowState::Free => {
                        self.state = BorrowState::Shared(1);
                        Ok(())
                    },
                    BorrowState::Shared(n) => {
                        if n < u64::MAX {
                            self.state = BorrowState::Shared(n + 1);
                            Ok(())
                        } else {
                            Err(AccessError::BorrowConflict)
                        }
                    },
                    BorrowState::Exclusive => Err(AccessError::BorrowConflict),
                }
            },
        }
    }

    /// Release one shared handle acquired by `acquire_shared`.
    pub fn release_shared(&mut self)
        requires
            old(self).inv(),
            old(self).mode is Checked ==> old(self).state matches BorrowState::Shared(_),
        ensures
            final(self).inv(),
            *final(self) == old(self).shared_release_next(),
    {
        match self.mode {
            Mode::Unchecked => {},
            Mode::Checked => {
                match self.state {
                    BorrowState::Shared(n) => {
                        if n == 1 {
                            self.state = BorrowState::Free;
                        } else {
                            self.state = BorrowState::Shared(n - 1);
                        }
                    },
                    _ => {},
                }
            },
        }
    }

    /// Acquire the exclusive handle. The caller must pair a success with one
    /// `release_exclusive` call; that bracket is the critical section.
    pub fn acquire_exclusive(&mut self, thread: u64) -> (r: Result<(), AccessError>)
        requires
            old(self).inv(),
        ensures
            final(self).inv(),
            r == old(self).exclusive_acquire(thread).0,
            *final(self) == old(self).exclusive_acquire(thread).1,
    {
        match self.mode {
            Mode::Unchecked => Ok(()),
            Mode::Checked => {
                match self.owner {
                    Some(owner) => {
                        if owner != thread {
                            return Err(AccessError::ThreadAffinityViolation);
                        }
                    },
                    None => {
                        self.owner = Some(thread);
                    },
                }
                match self.state {
                    BorrowState::Free => {
                        self.state = BorrowState::Exclusive;
                        Ok(())
                    },
                    _ => Err(AccessError::BorrowConflict),
                }
            },
        }
    }

    /// Release the exclusive handle acquired by `acquire_exclusive`.
    pub fn release_exclusive(&mut self)
        requires
            old(self).inv(),
            old(self).mode is Checked ==> old(self).state is Exclusive,
        ensures
            final(self).inv(),
            *final(self) == old(self).exclusive_release_next(),
    {
        match self.mode {
            Mode::Unchecked => {},
            Mode::Checked => {
                match self.state {
                    BorrowState::Exclusive => {
                        self.state = BorrowState::Free;
                    },
                    _ => {},
                }
            },
        }
    }

    /// The thread-affinity check alone, pinning this thread as owner on the
    /// first access, exactly as the acquire primitives do.
    pub fn check_thread(&mut self, thread: u64) -> (r: Result<(), AccessError>)
        requires
            old(self).inv(),
        ensures
            final(self).inv(),
            r == old(self).thread_probe(thread).0,
            *final(self) == old(self).thread_probe(thread).1,
    {
        match self.mode {
            Mode::Unchecked => Ok(()),
            Mode::Checked => {
                match self.owner {
                    Some(owner) => if owner != thread {
                        Err(AccessError::ThreadAffinityViolation)
                    } else {
                        Ok(())
                    },
                    None => {
                        self.owner = Some(thread);
                        Ok(())
                    },
                }
            },
        }
    }

    /// Shared read of the value: the acquire-shared checks run and the handle
    /// is released before returning, so no dynamic handle stays outstanding;
    /// the returned reference is bracketed by the borrow of the cell itself.
    pub fn get(&mut self, thread: u64) -> (r: Result<&T, AccessError>)
        requires
            old(self).inv(),
        ensures
            final(self).inv(),
            *final(self) == old(self).shared_probe(thread).1,
            match r {
                Ok(v) => old(self).shared_probe(thread).0 is Ok && *v == old(self).value,
                Err(e) => old(self).shared_probe(thread).0 == Err::<(), AccessError>(e),
            },
    {
        match self.acquire_shared(thread) {
            Ok(()) => {
                self.release_shared();
                Ok(&self.value)
            },
            Err(e) => Err(e),
        }
    }

    /// Exclusive access to the value: the acquire-exclusive checks run and the
    /// handle is released before returning; Rust's borrow of the cell itself
    /// brackets the returned reference, so no overlapping access can happen
    /// while it lives.
    pub fn get_mut(&mut self, thread: u64) -> (r: Result<&mut T, AccessError>)
        requires
            old(self).inv(),
        ensures
            final(self).inv(),
            match r {
                Ok(v) => {
                    &&& old(self).exclusive_probe(thread).0 is Ok
                    &&& *v == old(self).value
                    &&& *final(self) == (SafetyCell {
                        value: *final(v),
                        ..old(self).exclusive_probe(thread).1
                    })
                },
                Err(e) => {
                    &&& old(self).exclusive_probe(thread).0 == Err::<(), AccessError>(e)
                    &&& *final(self) == old(self).exclusive_probe(thread).1
                },
            },
    {
        match self.acquire_exclusive(thread) {
            Ok(()) => {
                self.release_exclusive();
                Ok(&mut self.value)
            },
            Err(e) => Err(e),
        }
    }

    /// Overwrite the value under a transient exclusive access; the previous
    /// value is dropped.
    pub fn replace(&mut self, thread: u64, value: T) -> (r: Result<(), AccessError>)
        requires
            old(self).inv(),
        ensures
            final(self).inv(),
            match r {
                Ok(()) => {
                    &&& old(self).exclusive_probe(thread).0 == Ok::<(), AccessError>(())
                    &&& *final(self) == (SafetyCell {
                        value,
                        ..old(self).exclusive_probe(thread).1
                    })
                },
                Err(e) => {
                    &&& old(self).exclusive_probe(thread).0 == Err::<(), AccessError>(e)
                    &&& *final(self) == old(self).exclusive_probe(thread).1
                },
            },
    {
        match self.get_mut(thread) {
            Ok(v) => {
                *v = value;
                Ok(())
            },
            Err(e) => Err(e),
        }
    }
}

/// Law: with a shared handle outstanding, requesting an exclusive handle
/// fails with `BorrowConflict`; with the exclusive handle outstanding, any
/// request at all fails with `BorrowConflict`. In both cases the cell is
/// unchanged.
pub proof fn lemma_borrow_conflict<T>(c: SafetyCell<T>, thread: u64)
    requires
        c.inv(),
        c.mode is Checked,
        c.thread_ok(thread),
    ensures
        c.state matches BorrowState::Shared(_) ==> c.exclusive_acquire(thread) == (
            Err::<(), AccessError>(AccessError::BorrowConflict),
            c.pinned(thread),
        ),
        c.state is Exclusive ==> c.exclusive_acquire(thread) == (
            Err::<(), AccessError>(AccessError::BorrowConflict),
            c.pinned(thread),
        ),
        c.state is Exclusive ==> c.shared_acquire(thread) == (
            Err::<(), AccessError>(AccessError::BorrowConflict),
            c.pinned(thread),
        ),
        c.owner == Some(thread) ==> c.pinned(thread) == c,
{
}

/// Law: once a checked cell has been touched by one thread, every acquire
/// from a different thread fails with `ThreadAffinityViolation` and changes
/// nothing.
pub proof fn lemma_thread_affinity<T>(c: SafetyCell<T>, first: u64, other: u64)
    requires
        c.inv(),
        c.mode is Checked,
        c.owner == Some(first),
        other != first,
    ensures
        c.shared_acquire(other) == (
            Err::<(), AccessError>(AccessError::ThreadAffinityViolation),
            c,
        ),
        c.exclusive_acquire(other) == (
            Err::<(), AccessError>(AccessError::ThreadAffinityViolation),
            c,
        ),
{
}

/// Law: a successful acquire-release bracket restores the borrow state it
/// found and changes nothing but the owner record, which it pins to the
/// acquiring thread.
pub proof fn lemma_probe_restores<T>(c: SafetyCell<T>, thread: u64)
    requires
        c.inv(),
    ensures
        c.shared_probe(thread).0 is Ok ==> c.shared_probe(thread).1 == if c.mode
            is Checked {
            c.pinned(thread)
        } else {
            c
        },
        c.exclusive_probe(thread).0 is Ok ==> c.exclusive_probe(thread).1 == if c.mode
            is Checked {
            c.pinned(thread)
        } else {
            c
        },
{
}

} // verus!
