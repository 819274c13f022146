//! What holds of the lock however its lockers' accesses interleave.
use crate::primitives::shared_futex::{
    word_after, LockAction, LockOperation, CONTENDED, LOCKED, UNLOCKED,
};
use vstd::prelude::*;

verus! {

/// What one thread is doing with the lock.
pub enum Locker {
    /// It neither has the lock nor wants it.
    Away,
    /// It takes the lock, or has it (`LockOperation::Held`).
    Locking(LockOperation),
    /// The kernel has put it to sleep.
    Sleeping,
    /// It has given the lock back and is about to wake one sleeper.
    Waking,
}

/// A lock word and the threads that use it.
pub struct LockSystem {
    pub word: u32,
    pub lockers: Seq<Locker>,
}

impl LockSystem {
    /// Every thread is away and the lock is free.
    pub open spec fn initial(self) -> bool {
        &&& self.word == UNLOCKED
        &&& forall|i: int| 0 <= i < self.lockers.len() ==> self.lockers[i] is Away
    }

    /// Thread `i` has the lock.
    pub open spec fn holds(self, i: int) -> bool {
        &&& 0 <= i < self.lockers.len()
        &&& self.lockers[i] == Locker::Locking(LockOperation::Held)
    }

    /// Thread `i` has slept or is about to: it will mark the word or sleep.
    pub open spec fn contends(self, i: int) -> bool {
        &&& 0 <= i < self.lockers.len()
        &&& match self.lockers[i] {
            Locker::Locking(op) => match op {
                LockOperation::Spin { first, .. } => !first,
                LockOperation::Mark | LockOperation::Asleep => true,
                _ => false,
            },
            Locker::Waking => true,
            _ => false,
        }
    }

    pub open spec fn sleeps(self, i: int) -> bool {
        &&& 0 <= i < self.lockers.len()
        &&& self.lockers[i] is Sleeping
    }

    pub open spec fn set(self, word: u32, i: int, locker: Locker) -> LockSystem {
        LockSystem { word, lockers: self.lockers.update(i, locker) }
    }

    /// Thread `i` starts to take the lock.
    pub open spec fn starts(self, after: LockSystem, i: int) -> bool {
        &&& self.lockers[i] is Away
        &&& after == self.set(self.word, i, Locker::Locking(LockOperation::Fast))
    }

    /// Thread `i` does the next action of its operation. A sleep on a word
    /// that is not contended returns at once.
    pub open spec fn acts(self, after: LockSystem, i: int) -> bool {
        match self.lockers[i] {
            Locker::Locking(op) => match op.next_action() {
                Some(action) => {
                    let word = word_after(self.word, action);
                    if action == LockAction::Sleep && self.word == CONTENDED {
                        after == self.set(word, i, Locker::Sleeping)
                    } else {
                        after == self.set(word, i, Locker::Locking(op.after(self.word)))
                    }
                },
                None => false,
            },
            _ => false,
        }
    }

    /// Sleeper `i` wakes, because it was woken or spontaneously.
    pub open spec fn awakes(self, after: LockSystem, i: int) -> bool {
        &&& self.lockers[i] is Sleeping
        &&& after == self.set(
            self.word,
            i,
            Locker::Locking(LockOperation::Asleep.after(CONTENDED)),
        )
    }

    /// Holder `i` gives the lock back.
    pub open spec fn unlocks(self, after: LockSystem, i: int) -> bool {
        &&& self.holds(i)
        &&& after == self.set(
            UNLOCKED,
            i,
            if self.word == CONTENDED {
                Locker::Waking
            } else {
                Locker::Away
            },
        )
    }

    /// Thread `i` wakes sleeper `j`, or finds no thread asleep.
    pub open spec fn wakes(self, after: LockSystem, i: int, j: int) -> bool {
        &&& self.lockers[i] is Waking
        &&& if self.sleeps(j) {
            exists|middle: LockSystem| #[trigger] self.awakes(middle, j) && after == middle.set(
                middle.word,
                i,
                Locker::Away,
            )
        } else {
            &&& forall|k: int| !self.sleeps(k)
            &&& after == self.set(self.word, i, Locker::Away)
        }
    }

    /// One access of one thread.
    pub open spec fn step(self, after: LockSystem) -> bool {
        exists|i: int, j: int| #[trigger] self.step_of(after, i, j)
    }

    pub open spec fn step_of(self, after: LockSystem, i: int, j: int) -> bool {
        &&& 0 <= i < self.lockers.len()
        &&& {
            ||| self.starts(after, i)
            ||| self.acts(after, i)
            ||| self.awakes(after, i)
            ||| self.unlocks(after, i)
            ||| self.wakes(after, i, j)
        }
    }

    /// What every access keeps.
    pub open spec fn inv(self) -> bool {
        &&& self.word == UNLOCKED || self.word == LOCKED || self.word == CONTENDED
        &&& forall|i: int| #[trigger] self.holds(i) ==> self.word != UNLOCKED
        &&& forall|i: int, j: int| #[trigger] self.holds(i) && #[trigger] self.holds(j) ==> i == j
        &&& (exists|i: int| self.sleeps(i)) ==> self.word == CONTENDED || exists|i: int|
            self.contends(i)
    }
}

/// At the start the invariant holds.
pub proof fn law_lock_initial(s: LockSystem)
    requires
        s.initial(),
    ensures
        s.inv(),
{
}

/// Every access of every thread keeps the invariant.
pub proof fn law_lock_step(s: LockSystem, t: LockSystem)
    requires
        s.inv(),
        s.step(t),
    ensures
        t.inv(),
{
    let (i, j) = choose|i: int, j: int| #[trigger] s.step_of(t, i, j);
    assert(s.lockers.len() == t.lockers.len());
    assert forall|k: int| k != i && (s.sleeps(j) && s.wakes(t, i, j) ==> k != j) implies s.holds(k)
        == t.holds(k) && s.contends(k) == t.contends(k) && s.sleeps(k) == t.sleeps(k) by {}
    if exists|k: int| t.sleeps(k) {
        let sleeper = choose|k: int| t.sleeps(k);
        if t.word != CONTENDED && !t.contends(i) {
            if s.wakes(t, i, j) {
                assert(s.sleeps(j));
                assert(t.contends(j));
            } else {
                assert(s.sleeps(sleeper) || sleeper == i);
                assert(exists|k: int| s.contends(k));
                let contender = choose|k: int| s.contends(k);
                assert(contender != i ==> t.contends(contender));
            }
        }
    }
}

/// No two threads hold the lock at the same time, and it is marked as locked
/// while one does.
pub proof fn law_mutual_exclusion(s: LockSystem, i: int, j: int)
    requires
        s.inv(),
        s.holds(i),
        s.holds(j),
    ensures
        i == j,
        s.word != UNLOCKED,
{
}

/// No sleeper is forgotten: while a thread sleeps, either the word says so, and
/// whoever unlocks it wakes one, or some thread is on its way to wake a sleeper
/// or to mark the word.
pub proof fn law_no_sleeper_forgotten(s: LockSystem, i: int)
    requires
        s.inv(),
        s.sleeps(i),
    ensures
        s.word == CONTENDED || exists|k: int| s.contends(k),
{
}

/// A run of threads that use a lock.
pub open spec fn is_lock_run(trace: Seq<LockSystem>) -> bool {
    &&& trace.len() > 0
    &&& trace[0].initial()
    &&& forall|n: int| 0 <= n < trace.len() - 1 ==> (#[trigger] trace[n]).step(trace[n + 1])
}

/// However the accesses of the threads interleave, never two of them hold the
/// lock.
pub proof fn law_every_lock_run(trace: Seq<LockSystem>, n: int)
    requires
        is_lock_run(trace),
        0 <= n < trace.len(),
    ensures
        trace[n].inv(),
        forall|i: int, j: int|
            #[trigger] trace[n].holds(i) && #[trigger] trace[n].holds(j) ==> i == j,
    decreases n,
{
    if n == 0 {
        law_lock_initial(trace[0]);
    } else {
        law_every_lock_run(trace, n - 1);
        assert(trace[n - 1 + 1] == trace[n]);
        law_lock_step(trace[n - 1], trace[n]);
    }
}

} // verus!
