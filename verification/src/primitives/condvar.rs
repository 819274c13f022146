//! A condition variable that goes with a lock.
use crate::primitives::shared_futex::{is_unlocked, LiveFutex, SharedFutex, CONTENDED, UNLOCKED};
use crate::sync::condvar::{is_seen, LiveCondvar};
use crate::sync::futex;
use core::sync::atomic::AtomicU32;
use rustix::io::Errno;
use vstd::prelude::*;

verus! {

/// What a waiter does once it has given its lock back: wake one locker if it
/// must, sleep while the condition variable holds `expected`, and lock again.
#[derive(Clone, Copy, PartialEq, Eq, Structural, Debug)]
pub struct CondvarWait {
    pub expected: u32,
    pub wake_locker: bool,
}

/// The state of a condition variable: what its futex word holds.
#[derive(Clone, Copy, PartialEq, Eq, Structural, Debug)]
pub struct SharedCondvar {
    value: u32,
}

impl View for SharedCondvar {
    type V = u32;

    closed spec fn view(&self) -> u32 {
        self.value
    }
}

impl Default for SharedCondvar {
    fn default() -> (condvar: Self)
        ensures
            condvar@ == 0,
    {
        SharedCondvar { value: 0 }
    }
}

impl SharedCondvar {
    /// Gives the lock back. The value to sleep on is read before that.
    pub fn wait(&self, lock: &mut SharedFutex) -> (wait: CondvarWait)
        ensures
            final(lock)@ == UNLOCKED,
            wait == (CondvarWait { expected: self@, wake_locker: old(lock)@ == CONTENDED }),
    {
        let expected: u32 = self.value;
        let wake_locker = lock.unlock();
        CondvarWait { expected, wake_locker }
    }

    /// One turn of waiting while `condition` holds of the content that `lock`
    /// protects: `None`, with the lock kept, where it does not hold; else the
    /// lock is given back, and the caller comes again after its wait.
    pub fn wait_while<T, F: Fn(&T) -> bool>(
        &self,
        lock: &mut SharedFutex,
        content: &T,
        condition: F,
    ) -> (wait: Option<CondvarWait>)
        requires
            condition.requires((content,)),
        ensures
            condition.ensures((content,), wait is Some),
            wait is None ==> final(lock)@ == old(lock)@,
            wait is Some ==> final(lock)@ == UNLOCKED && wait == Some(
                CondvarWait { expected: self@, wake_locker: old(lock)@ == CONTENDED },
            ),
    {
        if condition(content) {
            Some(self.wait(lock))
        } else {
            None
        }
    }

    /// Returns how many sleepers are to be woken.
    pub fn notify_one(&self) -> (wake: u32)
        ensures
            wake == 1,
    {
        1
    }

    /// Returns how many sleepers are to be woken: all.
    pub fn notify_all(&self) -> (wake: u32)
        ensures
            wake == u32::MAX,
    {
        u32::MAX
    }
}

/// A condition variable that other processes use at the same time.
pub struct LiveLockedCondvar<'a> {
    pub word: &'a AtomicU32,
}

impl<'a> LiveLockedCondvar<'a> {
    /// Gives the lock back and sleeps, unless the word has changed in between.
    /// The caller locks again.
    pub fn wait(&self, lock: &LiveFutex<'_>)
        ensures
            is_unlocked(lock.word),
            exists|value: u32, result: Result<(), Errno>| #[trigger]
                is_seen(self.word, value) && #[trigger] futex::is_wait(self.word, value, result),
    {
        let value: u32 = LiveCondvar { word: self.word }.peek();
        lock.unlock();
        let _ = futex::futex_wait(self.word, value);
    }

    /// Wakes one sleeper.
    pub fn notify_one(&self)
        ensures
            exists|result: Result<usize, Errno>| futex::is_wake(self.word, 1, result),
    {
        let _ = futex::futex_wake(self.word, 1);
    }

    /// Wakes all sleepers.
    pub fn notify_all(&self)
        ensures
            exists|result: Result<usize, Errno>| futex::is_wake(self.word, u32::MAX, result),
    {
        let _ = futex::futex_wake(self.word, u32::MAX);
    }
}

} // verus!
