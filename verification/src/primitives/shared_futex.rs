//! A mutual-exclusion lock on one futex word with three states: unlocked,
//! locked, and locked with other threads waiting.
use crate::sync::futex;
use core::sync::atomic::{AtomicU32, Ordering};
use rustix::io::Errno;
use vstd::prelude::*;

verus! {

pub const UNLOCKED: u32 = 0;

/// Locked, no other threads waiting.
pub const LOCKED: u32 = 1;

/// Locked, and other threads waiting.
pub const CONTENDED: u32 = 2;

/// How often a locked word is looked at before it is marked as contended.
pub const SPIN_LIMIT: u32 = 100;

/// What a locker does next to the word. Each is one access, whose result is
/// the value that the word had before it.
#[derive(Clone, Copy, PartialEq, Eq, Structural, Debug)]
pub enum LockAction {
    /// Change the word from `UNLOCKED` to `LOCKED`; leave another value alone.
    TakeFree,
    /// Read the word.
    Observe,
    /// Set the word to `CONTENDED`.
    MarkContended,
    /// Sleep while the word is `CONTENDED`.
    Sleep,
}

/// How far a locker has come.
#[derive(Clone, Copy, PartialEq, Eq, Structural, Debug)]
pub enum LockOperation {
    /// Nothing was done yet.
    Fast,
    /// Waiting a little for the word to change. `first` until the first sleep.
    Spin { left: u32, first: bool },
    /// The word was seen unlocked.
    Retry,
    /// The word was not seen contended.
    Mark,
    /// The word was seen contended.
    Asleep,
    /// The lock is held.
    Held,
}

impl LockOperation {
    /// What is done next; `None` once the lock is held.
    pub open spec fn next_action(self) -> Option<LockAction> {
        match self {
            LockOperation::Fast | LockOperation::Retry => Some(LockAction::TakeFree),
            LockOperation::Spin { .. } => Some(LockAction::Observe),
            LockOperation::Mark => Some(LockAction::MarkContended),
            LockOperation::Asleep => Some(LockAction::Sleep),
            LockOperation::Held => None,
        }
    }

    /// Where a locker goes that knows the word to hold `state` and may not
    /// take it without marking it: to sleep if others are known to wait.
    pub open spec fn contending(state: u32) -> LockOperation {
        if state == CONTENDED {
            LockOperation::Asleep
        } else {
            LockOperation::Mark
        }
    }

    /// Where a locker goes whose access found the word holding `found`.
    pub open spec fn after(self, found: u32) -> LockOperation {
        match self {
            LockOperation::Fast => if found == UNLOCKED {
                LockOperation::Held
            } else {
                LockOperation::Spin { left: SPIN_LIMIT, first: true }
            },
            LockOperation::Spin { left, first } => if found == LOCKED && left > 0 {
                LockOperation::Spin { left: (left - 1) as u32, first }
            } else if first && found == UNLOCKED {
                LockOperation::Retry
            } else {
                LockOperation::contending(found)
            },
            LockOperation::Retry => if found == UNLOCKED {
                LockOperation::Held
            } else {
                LockOperation::contending(found)
            },
            LockOperation::Mark => if found == UNLOCKED {
                LockOperation::Held
            } else {
                LockOperation::Asleep
            },
            LockOperation::Asleep => LockOperation::Spin { left: SPIN_LIMIT, first: false },
            LockOperation::Held => LockOperation::Held,
        }
    }

    pub fn action(&self) -> (action: Option<LockAction>)
        ensures
            action == self.next_action(),
    {
        match *self {
            LockOperation::Fast => Some(LockAction::TakeFree),
            LockOperation::Spin { .. } => Some(LockAction::Observe),
            LockOperation::Retry => Some(LockAction::TakeFree),
            LockOperation::Mark => Some(LockAction::MarkContended),
            LockOperation::Asleep => Some(LockAction::Sleep),
            LockOperation::Held => None,
        }
    }

    /// Takes the value that the word had before the action was done.
    pub fn resume(&mut self, found: u32)
        ensures
            *final(self) == old(self).after(found),
    {
        *self = match *self {
            LockOperation::Fast => {
                if found == UNLOCKED {
                    LockOperation::Held
                } else {
                    LockOperation::Spin { left: SPIN_LIMIT, first: true }
                }
            },
            LockOperation::Spin { left, first } => {
                // The spinning stops when the word is unlocked, but also when
                // it is contended.
                if found == LOCKED && left != 0 {
                    LockOperation::Spin { left: left - 1, first }
                } else if first && found == UNLOCKED {
                    LockOperation::Retry
                } else if found == CONTENDED {
                    LockOperation::Asleep
                } else {
                    LockOperation::Mark
                }
            },
            LockOperation::Retry => {
                if found == UNLOCKED {
                    LockOperation::Held
                } else if found == CONTENDED {
                    LockOperation::Asleep
                } else {
                    LockOperation::Mark
                }
            },
            LockOperation::Mark => {
                if found == UNLOCKED {
                    LockOperation::Held
                } else {
                    LockOperation::Asleep
                }
            },
            LockOperation::Asleep => LockOperation::Spin { left: SPIN_LIMIT, first: false },
            LockOperation::Held => LockOperation::Held,
        };
    }
}

/// What an action leaves in a word that held `word`.
pub open spec fn word_after(word: u32, action: LockAction) -> u32 {
    match action {
        LockAction::TakeFree => if word == UNLOCKED {
            LOCKED
        } else {
            word
        },
        LockAction::Observe | LockAction::Sleep => word,
        LockAction::MarkContended => CONTENDED,
    }
}

/// The state of a lock: what its futex word holds.
#[derive(Clone, Copy, PartialEq, Eq, Structural, Debug)]
pub struct SharedFutex {
    state: u32,
}

impl View for SharedFutex {
    type V = u32;

    closed spec fn view(&self) -> u32 {
        self.state
    }
}

impl Default for SharedFutex {
    /// An unlocked lock.
    fn default() -> (lock: Self)
        ensures
            lock@ == UNLOCKED,
    {
        SharedFutex { state: UNLOCKED }
    }
}

impl SharedFutex {
    /// Does one action of a locker. `None` where the caller sleeps: the action
    /// is a sleep and the word is contended.
    pub fn perform(&mut self, action: LockAction) -> (found: Option<u32>)
        ensures
            final(self)@ == word_after(old(self)@, action),
            found == (if action == LockAction::Sleep && old(self)@ == CONTENDED {
                None
            } else {
                Some(old(self)@)
            }),
    {
        let found: u32 = self.state;
        match action {
            LockAction::TakeFree => {
                if found == UNLOCKED {
                    self.state = LOCKED;
                }
            },
            LockAction::Observe => {},
            LockAction::MarkContended => {
                self.state = CONTENDED;
            },
            LockAction::Sleep => {
                if found == CONTENDED {
                    return None;
                }
            },
        }
        Some(found)
    }

    /// Whether somebody has the lock.
    #[inline]
    pub fn is_locked(&self) -> (locked: bool)
        ensures
            locked == (self@ != UNLOCKED),
    {
        self.state != UNLOCKED
    }

    /// Takes the lock if it is free.
    #[inline]
    pub fn try_lock(&mut self) -> (taken: bool)
        ensures
            taken == (old(self)@ == UNLOCKED),
            final(self)@ == (if taken {
                LOCKED
            } else {
                old(self)@
            }),
    {
        self.perform(LockAction::TakeFree) == Some(UNLOCKED)
    }

    /// Takes the lock if it is free, and else announces a waiter: the caller
    /// then sleeps on the word while it is `CONTENDED` and calls again with
    /// `waited`. A lock taken after a sleep stays marked as contended, for the
    /// sake of others that may still sleep.
    pub fn lock(&mut self, waited: bool) -> (taken: bool)
        ensures
            taken == (old(self)@ == UNLOCKED),
            final(self)@ == (if taken && !waited {
                LOCKED
            } else {
                CONTENDED
            }),
    {
        if !waited && self.try_lock() {
            return true;
        }
        self.lock_contended(waited)
    }

    fn lock_contended(&mut self, waited: bool) -> (taken: bool)
        ensures
            taken == (old(self)@ == UNLOCKED),
            final(self)@ == (if taken && !waited {
                LOCKED
            } else {
                CONTENDED
            }),
    {
        let state: u32 = self.spin();
        // A lock that is free now is taken without a mark, unless others may
        // sleep on it.
        if state == UNLOCKED && !waited {
            return self.try_lock();
        }
        if state != CONTENDED {
            self.perform(LockAction::MarkContended) == Some(UNLOCKED)
        } else {
            false
        }
    }

    /// Waits a little for a locked word to change, and reads it.
    fn spin(&self) -> (state: u32)
        ensures
            state == self@,
    {
        let mut spin: u32 = SPIN_LIMIT;
        while self.state == LOCKED && spin != 0
            decreases spin,
        {
            spin = spin - 1;
        }
        self.state
    }

    /// Gives the lock back. Tells whether one sleeper has to be woken: it will
    /// mark the lock as contended again, so that the others are woken in turn.
    #[inline]
    pub fn unlock(&mut self) -> (wake_one: bool)
        ensures
            final(self)@ == UNLOCKED,
            wake_one == (old(self)@ == CONTENDED),
    {
        let contended: bool = self.state == CONTENDED;
        self.state = UNLOCKED;
        contended
    }
}

/// Whether the access that `action` stands for can find `found` in the word.
/// Nothing more is known of it than that such an access gave it. Who slept on a
/// contended word goes on as if it had found it so.
pub closed spec fn is_found(word: &AtomicU32, action: LockAction, found: u32) -> bool {
    match action {
        LockAction::TakeFree => exists|result: Result<u32, u32>| #[trigger]
            is_taken(word, result) && (result == Ok::<u32, u32>(found) || result == Err::<
                u32,
                u32,
            >(found)),
        LockAction::Observe => call_ensures(AtomicU32::load, (word, Ordering::Relaxed), found),
        LockAction::MarkContended => call_ensures(
            AtomicU32::swap,
            (word, CONTENDED, Ordering::Acquire),
            found,
        ),
        LockAction::Sleep => found == CONTENDED && exists|result: Result<(), Errno>|
            futex::is_wait(word, CONTENDED, result),
    }
}

/// Whether an attempt to change the word from `UNLOCKED` to `LOCKED` can come back
/// with `result`.
pub closed spec fn is_taken(word: &AtomicU32, result: Result<u32, u32>) -> bool {
    call_ensures(
        AtomicU32::compare_exchange,
        (word, UNLOCKED, LOCKED, Ordering::Acquire, Ordering::Relaxed),
        result,
    )
}

/// Whether setting the word to `UNLOCKED` can find `before` in it.
pub closed spec fn is_freed(word: &AtomicU32, before: u32) -> bool {
    call_ensures(AtomicU32::swap, (word, UNLOCKED, Ordering::Release), before)
}

/// The word was set to `UNLOCKED`, and one sleeper was woken if it was contended.
pub open spec fn is_unlocked(word: &AtomicU32) -> bool {
    exists|before: u32| #[trigger]
        is_freed(word, before) && (before == CONTENDED ==> exists|result: Result<usize, Errno>|
            futex::is_wake(word, 1, result))
}

/// A lock word that other processes use at the same time.
pub struct LiveFutex<'a> {
    pub word: &'a AtomicU32,
}

impl<'a> LiveFutex<'a> {
    /// Does one action of a locker and returns the value that the word had. A
    /// sleep returns when the word may have changed.
    pub fn perform(&self, action: LockAction) -> (found: u32)
        ensures
            is_found(self.word, action, found),
            action == LockAction::Sleep ==> found == CONTENDED,
    {
        match action {
            LockAction::TakeFree => {
                let result = self.word.compare_exchange(
                    UNLOCKED,
                    LOCKED,
                    Ordering::Acquire,
                    Ordering::Relaxed,
                );
                assert(is_taken(self.word, result));
                match result {
                    Ok(found) => found,
                    Err(found) => found,
                }
            },
            LockAction::Observe => self.word.load(Ordering::Relaxed),
            LockAction::MarkContended => self.word.swap(CONTENDED, Ordering::Acquire),
            LockAction::Sleep => {
                let _ = futex::futex_wait(self.word, CONTENDED);
                CONTENDED
            },
        }
    }

    /// Gives the lock back and wakes one sleeper if there may be one.
    pub fn unlock(&self)
        ensures
            is_unlocked(self.word),
    {
        let before: u32 = self.word.swap(UNLOCKED, Ordering::Release);
        assert(is_freed(self.word, before));
        if before == CONTENDED {
            let _ = futex::futex_wake_one(self.word);
        }
    }
}

/// Which accesses a locker makes to a lock word that others use: it takes the lock
/// by changing the word from free to held, marks it by putting the mark in, and
/// sleeps only on the mark. It is told what the word held.
pub proof fn law_live_lock(lock: LiveFutex<'_>, action: LockAction, found: u32)
    requires
        call_ensures(LiveFutex::perform, (&lock, action), found),
    ensures
        match action {
            LockAction::TakeFree => exists|result: Result<u32, u32>| #[trigger]
                call_ensures(
                    AtomicU32::compare_exchange,
                    (lock.word, 0u32, 1u32, Ordering::Acquire, Ordering::Relaxed),
                    result,
                ) && found == (match result {
                    Ok(held) => held,
                    Err(held) => held,
                }),
            LockAction::Observe => call_ensures(
                AtomicU32::load,
                (lock.word, Ordering::Relaxed),
                found,
            ),
            LockAction::MarkContended => call_ensures(
                AtomicU32::swap,
                (lock.word, 2u32, Ordering::Acquire),
                found,
            ),
            LockAction::Sleep => found == 2 && exists|result: Result<(), Errno>|
                futex::is_wait(lock.word, 2, result),
        },
{
    if action is TakeFree {
        let result = choose|result: Result<u32, u32>| #[trigger]
            is_taken(lock.word, result) && (result == Ok::<u32, u32>(found) || result == Err::<
                u32,
                u32,
            >(found));
        assert(is_taken(lock.word, result));
    }
}

/// Giving a lock back frees its word, and wakes one sleeper if the word was marked.
pub proof fn law_live_unlock(lock: LiveFutex<'_>)
    requires
        call_ensures(LiveFutex::unlock, (&lock,), ()),
    ensures
        exists|before: u32| #[trigger]
            call_ensures(AtomicU32::swap, (lock.word, 0u32, Ordering::Release), before) && (before
                == 2 ==> exists|result: Result<usize, Errno>| futex::is_wake(lock.word, 1, result)),
{
    let before = choose|before: u32| #[trigger]
        is_freed(lock.word, before) && (before == CONTENDED ==> exists|
            result: Result<usize, Errno>,
        |
            futex::is_wake(lock.word, 1, result));
    assert(is_freed(lock.word, before));
}

/// A locker gets the lock exactly when it found the word free with an access that
/// took it; it does not get it by looking or by sleeping.
pub proof fn law_who_gets_the_lock(op: LockOperation, found: u32)
    requires
        op != LockOperation::Held,
    ensures
        op.after(found) == LockOperation::Held <==> found == 0 && (op.next_action() == Some(
            LockAction::TakeFree,
        ) || op.next_action() == Some(LockAction::MarkContended)),
        op.next_action() is Some,
        LockOperation::Held.next_action() is None,
        op.after(found) == LockOperation::Asleep ==> found == 2 || op.next_action() == Some(
            LockAction::MarkContended,
        ),
        op is Asleep <==> op.next_action() == Some(LockAction::Sleep),
{
}

/// A locker that starts takes a lock that is free at once, and looks at one that is
/// not, for as long as it is held and unmarked, but no more than a hundred times
/// and once; one that slept marks the lock when it takes it.
pub proof fn law_spinning_ends(op: LockOperation, found: u32)
    ensures
        LockOperation::Fast.next_action() == Some(LockAction::TakeFree),
        LockOperation::Fast.after(0) == LockOperation::Held,
        found != 0 ==> LockOperation::Fast.after(found) == (LockOperation::Spin {
            left: 100,
            first: true,
        }),
        op matches LockOperation::Spin { left, first } ==> {
            &&& op.next_action() == Some(LockAction::Observe)
            &&& op.after(found) is Spin <==> found == 1 && left > 0
            &&& op.after(found) matches LockOperation::Spin { left: next, first: still } ==> next
                == left - 1 && still == first
            &&& found == 0 ==> op.after(found).next_action() == Some(
                if first {
                    LockAction::TakeFree
                } else {
                    LockAction::MarkContended
                },
            )
            &&& found == 2 ==> op.after(found) == LockOperation::Asleep
            &&& found == 1 && left == 0 ==> op.after(found) == LockOperation::Mark
        },
        op is Asleep ==> (op.after(found) matches LockOperation::Spin { left, first } && left == 100
            && !first),
{
}

/// What each access leaves in the lock word.
pub proof fn law_lock_word(word: u32)
    ensures
        word_after(word, LockAction::TakeFree) == (if word == 0 {
            1
        } else {
            word
        }),
        word_after(word, LockAction::MarkContended) == 2,
        word_after(word, LockAction::Observe) == word,
        word_after(word, LockAction::Sleep) == word,
{
}

} // verus!
