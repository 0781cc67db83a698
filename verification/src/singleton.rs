//! A cell holding an always-initialized value.
//!
//! `Singleton` adds nothing to the core cell beyond its type: shared reads,
//! exclusive access and whole-value replacement, each funnelled through the
//! acquire primitives of [`SafetyCell`].

use crate::cell::{BorrowState, Mode, SafetyCell};
use crate::error::AccessError;
use vstd::prelude::*;

verus! {

/// A cell holding an already-initialized value.
pub struct Singleton<T> {
    /// The core cell that performs every check.
    pub cell: SafetyCell<T>,
}

/// One step of a client's use of a `Singleton`: a shared read, or a write of
/// a whole value (by `replace`, or through the reference `get_mut` hands out).
pub enum SingletonOp<T> {
    /// A shared read (`get`).
    Get,
    /// A whole-value write (`replace`, or a store through `get_mut`).
    Write(T),
}

impl<T> Singleton<T> {
    /// Well-formedness of the core cell.
    pub open spec fn inv(self) -> bool {
        self.cell.inv()
    }

    /// The value currently held.
    pub open spec fn value(self) -> T {
        self.cell.value
    }

    /// The thread-affinity check of the core cell.
    pub open spec fn thread_ok(self, thread: u64) -> bool {
        self.cell.thread_ok(thread)
    }

    /// Outcome of one operation: the result and the next state. `Get` is a
    /// transient shared access; `Write` is a transient exclusive access that
    /// overwrites the value.
    pub open spec fn apply_op(self, thread: u64, op: SingletonOp<T>) -> (
        Result<(), AccessError>,
        Singleton<T>,
    ) {
        match op {
            SingletonOp::Get => {
                let (r, c) = self.cell.shared_probe(thread);
                (r, Singleton { cell: c })
            },
            SingletonOp::Write(v) => {
                let (r, c) = self.cell.exclusive_probe(thread);
                if r is Ok {
                    (r, Singleton { cell: SafetyCell { value: v, ..c } })
                } else {
                    (r, Singleton { cell: c })
                }
            },
        }
    }

    /// Run a whole sequence of operations from one thread: whether every one
    /// of them succeeded, and the final state.
    pub open spec fn run_ops(self, thread: u64, ops: Seq<SingletonOp<T>>) -> (
        bool,
        Singleton<T>,
    )
        decreases ops.len(),
    {
        if ops.len() == 0 {
            (true, self)
        } else {
            let (r, next) = self.apply_op(thread, ops[0]);
            let (rest_ok, last) = next.run_ops(thread, ops.subrange(1, ops.len() as int));
            (r is Ok && rest_ok, last)
        }
    }

    /// The most recently written value after a sequence of operations, given
    /// the value held before it.
    pub open spec fn latest_value(v0: T, ops: Seq<SingletonOp<T>>) -> T
        decreases ops.len(),
    {
        if ops.len() == 0 {
            v0
        } else {
            let v1 = match ops[0] {
                SingletonOp::Get => v0,
                SingletonOp::Write(v) => v,
            };
            Self::latest_value(v1, ops.subrange(1, ops.len() as int))
        }
    }

    /// The value each read in the sequence observes (what `get` returns is
    /// the value held when it runs), in order.
    pub open spec fn observed_values(self, thread: u64, ops: Seq<SingletonOp<T>>) -> Seq<T>
        decreases ops.len(),
    {
        if ops.len() == 0 {
            Seq::empty()
        } else {
            let (r, next) = self.apply_op(thread, ops[0]);
            let rest = next.observed_values(thread, ops.subrange(1, ops.len() as int));
            match ops[0] {
                SingletonOp::Get => seq![self.cell.value] + rest,
                SingletonOp::Write(v) => rest,
            }
        }
    }

    /// The value each read in the sequence ought to observe: the most recent
    /// write before it, or the initial value where none came before.
    pub open spec fn expected_values(v0: T, ops: Seq<SingletonOp<T>>) -> Seq<T>
        decreases ops.len(),
    {
        if ops.len() == 0 {
            Seq::empty()
        } else {
            let rest = ops.subrange(1, ops.len() as int);
            match ops[0] {
                SingletonOp::Get => seq![v0] + Self::expected_values(v0, rest),
                SingletonOp::Write(v) => Self::expected_values(v, rest),
            }
        }
    }

    /// A new checked cell holding `value`.
    pub fn new(value: T) -> (s: Singleton<T>)
        ensures
            s.cell == (SafetyCell {
                value,
                mode: Mode::Checked,
                state: BorrowState::Free,
                owner: None::<u64>,
            }),
            s.inv(),
    {
        Singleton { cell: SafetyCell::new(value, Mode::Checked) }
    }

    /// A new cell holding `value`, in the given mode.
    pub fn new_with_mode(value: T, mode: Mode) -> (s: Singleton<T>)
        ensures
            s.cell == (SafetyCell { value, mode, state: BorrowState::Free, owner: None::<u64> }),
            s.inv(),
    {
        Singleton { cell: SafetyCell::new(value, mode) }
    }

    /// Shared read of the value.
    pub fn get(&mut self, thread: u64) -> (r: Result<&T, AccessError>)
        requires
            old(self).inv(),
        ensures
            final(self).inv(),
            final(self).cell == old(self).cell.shared_probe(thread).1,
            match r {
                Ok(v) => old(self).cell.shared_probe(thread).0 is Ok && *v == old(self).value(),
                Err(e) => old(self).cell.shared_probe(thread).0 == Err::<(), AccessError>(e),
            },
    {
        self.cell.get(thread)
    }

    /// Exclusive access to the value; the borrow of the cell itself brackets
    /// the returned reference.
    pub fn get_mut(&mut self, thread: u64) -> (r: Result<&mut T, AccessError>)
        requires
            old(self).inv(),
        ensures
            final(self).inv(),
            match r {
                Ok(v) => {
                    &&& old(self).cell.exclusive_probe(thread).0 is Ok
                    &&& *v == old(self).value()
                    &&& final(self).cell == (SafetyCell {
                        value: *final(v),
                        ..old(self).cell.exclusive_probe(thread).1
                    })
                },
                Err(e) => {
                    &&& old(self).cell.exclusive_probe(thread).0 == Err::<(), AccessError>(e)
                    &&& final(self).cell == old(self).cell.exclusive_probe(thread).1
                },
            },
    {
        self.cell.get_mut(thread)
    }

    /// Overwrite the value under a transient exclusive access; the previous
    /// value is dropped.
    pub fn replace(&mut self, thread: u64, value: T) -> (r: Result<(), AccessError>)
        requires
            old(self).inv(),
        ensures
            final(self).inv(),
            r == old(self).apply_op(thread, SingletonOp::Write(value)).0,
            *final(self) == old(self).apply_op(thread, SingletonOp::Write(value)).1,
    {
        let r = self.cell.replace(thread, value);
        proof {
            // a success carries the unit payload, so it equals the modelled one
            assert(r->Ok_0 == ());
        }
        r
    }

    /// Acquire a shared handle on the underlying cell; pair a success with one
    /// `release_shared`.
    pub fn acquire_shared(&mut self, thread: u64) -> (r: Result<(), AccessError>)
        requires
            old(self).inv(),
        ensures
            final(self).inv(),
            r == old(self).cell.shared_acquire(thread).0,
            final(self).cell == old(self).cell.shared_acquire(thread).1,
    {
        self.cell.acquire_shared(thread)
    }

    /// Release one shared handle.
    pub fn release_shared(&mut self)
        requires
            old(self).inv(),
            old(self).cell.mode is Checked ==> old(self).cell.state matches BorrowState::Shared(
                _,
            ),
        ensures
            final(self).inv(),
            final(self).cell == old(self).cell.shared_release_next(),
    {
        self.cell.release_shared()
    }

    /// Acquire the exclusive handle on the underlying cell; pair a success
    /// with one `release_exclusive`.
    pub fn acquire_exclusive(&mut self, thread: u64) -> (r: Result<(), AccessError>)
        requires
            old(self).inv(),
        ensures
            final(self).inv(),
            r == old(self).cell.exclusive_acquire(thread).0,
            final(self).cell == old(self).cell.exclusive_acquire(thread).1,
    {
        self.cell.acquire_exclusive(thread)
    }

    /// Release the exclusive handle.
    pub fn release_exclusive(&mut self)
        requires
            old(self).inv(),
            old(self).cell.mode is Checked ==> old(self).cell.state is Exclusive,
        ensures
            final(self).inv(),
            final(self).cell == old(self).cell.exclusive_release_next(),
    {
        self.cell.release_exclusive()
    }
}

/// Law: from a single thread, with no handle outstanding, no sequence of
/// reads and writes ever fails; every read observes the most recent write
/// before it (or the initial value, where none came before); and the value
/// the cell holds after the sequence is the most recently written one.
pub proof fn lemma_single_thread_sequence<T>(
    s: Singleton<T>,
    thread: u64,
    ops: Seq<SingletonOp<T>>,
)
    requires
        s.inv(),
        s.cell.state is Free,
        s.thread_ok(thread),
    ensures
        s.run_ops(thread, ops).0,
        s.observed_values(thread, ops) == Singleton::<T>::expected_values(s.value(), ops),
        s.run_ops(thread, ops).1.value() == Singleton::<T>::latest_value(s.value(), ops),
        s.run_ops(thread, ops).1.inv(),
        s.run_ops(thread, ops).1.cell.state is Free,
        s.run_ops(thread, ops).1.thread_ok(thread),
        s.run_ops(thread, ops).1.cell.mode == s.cell.mode,
    decreases ops.len(),
{
    if ops.len() > 0 {
        let (r, next) = s.apply_op(thread, ops[0]);
        lemma_single_thread_sequence(next, thread, ops.subrange(1, ops.len() as int));
    }
}

} // verus!
