//! A condition variable that sleeps on whatever its counter holds.
use crate::sync::condvar::{is_notified, is_seen, notified, LiveCondvar};
use crate::sync::futex;
use core::sync::atomic::AtomicU32;
use rustix::io::Errno;
use vstd::prelude::*;

verus! {

/// Simple condition variable for lock-free synchronization: what its futex
/// word holds. It needs neither a mutex nor a ticket.
#[derive(Clone, Copy, PartialEq, Eq, Structural, Debug)]
pub struct LockFreeCondvar {
    value: u32,
}

impl View for LockFreeCondvar {
    type V = u32;

    closed spec fn view(&self) -> u32 {
        self.value
    }
}

impl Default for LockFreeCondvar {
    fn default() -> (condvar: Self)
        ensures
            condvar@ == 0,
    {
        LockFreeCondvar { value: 0 }
    }
}

impl LockFreeCondvar {
    /// Returns the value that the caller sleeps on: the present one.
    #[inline]
    pub fn wait(&self) -> (expected: u32)
        ensures
            expected == self@,
    {
        self.value
    }

    /// Counts a notification. Returns how many sleepers are to be woken: all.
    #[inline]
    pub fn notify_all(&mut self) -> (wake: u32)
        ensures
            final(self)@ == notified(old(self)@, 1),
            wake == futex::WAKE_ALL,
    {
        self.value = self.value.wrapping_add(1);
        futex::WAKE_ALL
    }
}

/// A condition variable that other processes use at the same time.
pub struct LiveLockFreeCondvar<'a> {
    pub word: &'a AtomicU32,
}

impl<'a> LiveLockFreeCondvar<'a> {
    /// Sleeps while the word holds what it holds now; may wake spontaneously.
    pub fn wait(&self)
        ensures
            exists|value: u32, result: Result<(), Errno>| #[trigger]
                is_seen(self.word, value) && #[trigger] futex::is_wait(self.word, value, result),
    {
        let value: u32 = LiveCondvar { word: self.word }.peek();
        let _ = futex::futex_wait(self.word, value);
    }

    /// Counts a notification and wakes all sleepers.
    pub fn notify_all(&self)
        ensures
            exists|success: bool| is_notified(self.word, futex::WAKE_ALL, success),
    {
        let success = LiveCondvar { word: self.word }.notify_all();
        assert(is_notified(self.word, futex::WAKE_ALL, success));
    }
}

} // verus!
