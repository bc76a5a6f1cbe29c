//! The process guard: a token that proves that no other session is active.
//!
//! The engine keeps state that all its handles share, so one flag stands for
//! the whole engine. A guard is granted by swapping the flag to "taken" in one
//! atomic step, and gives the flag back when it is dropped. Nothing waits: an
//! attempt that finds the flag taken fails at once.

use crate::error::Error;
use std::sync::atomic::AtomicBool;
use std::sync::atomic::Ordering;
use vstd::prelude::*;

verus! {

/// Proof of exclusive use of the engine, for as long as the value lives.
/// It is neither copied nor shared; dropping it frees the engine.
pub struct Guard<'a> {
    flag: &'a AtomicBool,
}

/// Whether an attempt is granted, given what its swap found in the flag.
pub open spec fn grants(previous: bool) -> bool {
    previous
}

/// What is done to the flag.
pub enum GuardOp {
    /// An attempt to take the flag.
    Acquire,
    /// The drop of a live guard. Without a live guard there is nothing to
    /// drop, and the flag stays as it is.
    Release,
}

/// The flag together with the number of guards that are alive.
pub struct FlagState {
    /// What the flag holds.
    pub available: bool,
    /// How many guards were granted and not yet dropped.
    pub live: nat,
}

impl FlagState {
    /// A fresh flag: available, no guard alive.
    pub open spec fn fresh() -> FlagState {
        FlagState { available: true, live: 0 }
    }

    /// The flag is available exactly when no guard is alive, and never is
    /// more than one alive.
    pub open spec fn exclusive(self) -> bool {
        &&& self.live <= 1
        &&& self.available <==> self.live == 0
    }

    /// Whether an attempt made in this state is granted.
    pub open spec fn acquire_granted(self) -> bool {
        grants(self.available)
    }

    /// The state after an attempt: the flag is taken either way, and a granted
    /// attempt adds a guard.
    pub open spec fn acquire(self) -> FlagState {
        FlagState {
            available: false,
            live: if self.acquire_granted() {
                self.live + 1
            } else {
                self.live
            },
        }
    }

    /// The state after a live guard is dropped.
    pub open spec fn release(self) -> FlagState {
        if self.live > 0 {
            FlagState { available: true, live: (self.live - 1) as nat }
        } else {
            self
        }
    }

    /// The state after one operation.
    pub open spec fn step(self, op: GuardOp) -> FlagState {
        match op {
            GuardOp::Acquire => self.acquire(),
            GuardOp::Release => self.release(),
        }
    }

    /// The state after a sequence of operations, first to last.
    pub open spec fn run(self, ops: Seq<GuardOp>) -> FlagState
        decreases ops.len(),
    {
        if ops.len() == 0 {
            self
        } else {
            self.run(ops.drop_last()).step(ops.last())
        }
    }
}

impl<'a> Guard<'a> {
    /// The flag that this guard holds, and gives back when it is dropped.
    pub closed spec fn flag(&self) -> &'a AtomicBool {
        self.flag
    }

    /// Tries to take `flag`: sets it to taken in one atomic step, and grants
    /// the guard iff it was available before. What the swap finds depends on
    /// every other holder of the flag; `granted` says what follows from it.
    /// A guard that is granted holds `flag` and no other.
    pub fn new(flag: &'a AtomicBool) -> (r: Result<Guard<'a>, Error>)
        ensures
            r matches Ok(g) ==> g.flag() == flag,
            r matches Err(e) ==> e == Error::GuardConflict,
    {
        let previous = flag.swap(false, Ordering::SeqCst);
        Guard::granted(flag, previous)
    }

    /// The outcome of an attempt on `flag` whose swap found `previous`. It is
    /// meant for a value that a swap on `flag` returned and for no other: the
    /// guard that it grants gives the flag back when it is dropped.
    pub fn granted(flag: &'a AtomicBool, previous: bool) -> (r: Result<Guard<'a>, Error>)
        ensures
            r.is_ok() <==> grants(previous),
            r matches Ok(g) ==> g.flag() == flag,
            r matches Err(e) ==> e == Error::GuardConflict,
    {
        if previous {
            Ok(Guard { flag })
        } else {
            Err(Error::GuardConflict)
        }
    }
}

impl<'a> Drop for Guard<'a> {
    /// Gives the flag back. This cannot fail.
    fn drop(&mut self)
        opens_invariants none
        no_unwind
    {
        let flag: &AtomicBool = self.flag;
        make_available(flag);
    }
}

/// `AtomicBool::store` of `true`, sequentially consistent. The store returns
/// nothing. What is taken on trust is that it does not unwind, as a
/// destructor must not: std documents a panic for the orderings `Acquire` and
/// `AcqRel` only.
#[verifier::external_body]
fn make_available(flag: &AtomicBool)
    opens_invariants none
    no_unwind
{
    flag.store(true, Ordering::SeqCst);
}

/// Whatever sequence of attempts and drops a fresh flag sees, at most one
/// guard is alive at any instant, and the flag is available exactly when none
/// is.
pub proof fn lemma_at_most_one_guard(ops: Seq<GuardOp>)
    ensures
        FlagState::fresh().run(ops).exclusive(),
        FlagState::fresh().run(ops).live <= 1,
    decreases ops.len(),
{
    if ops.len() > 0 {
        lemma_at_most_one_guard(ops.drop_last());
    }
}

/// The same at every instant on the way: after each prefix of the sequence
/// at most one guard is alive.
pub proof fn lemma_at_most_one_guard_at_any_instant(ops: Seq<GuardOp>, k: int)
    requires
        0 <= k <= ops.len(),
    ensures
        FlagState::fresh().run(ops.take(k)).exclusive(),
        FlagState::fresh().run(ops.take(k)).live <= 1,
{
    lemma_at_most_one_guard(ops.take(k));
}

/// After the live guard is dropped, the next attempt is granted.
pub proof fn lemma_release_then_acquire(s: FlagState)
    requires
        s.exclusive(),
        s.live == 1,
    ensures
        s.release().acquire_granted(),
        s.release().acquire().live == 1,
        s.release().acquire().exclusive(),
{
}

/// While a guard is alive a second attempt is refused, and it changes
/// nothing: the flag stays taken and the first guard stays the only one.
pub proof fn lemma_second_acquire_refused(s: FlagState)
    requires
        s.exclusive(),
        s.live == 1,
    ensures
        !s.acquire_granted(),
        s.acquire() == s,
{
}

} // verus!
