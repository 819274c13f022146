//! A condition variable without a mutex: a counter of notifications.
//!
//! Who waits takes a ticket (the counter), looks at what it waits for, and
//! sleeps only while the counter still equals the ticket, so a notification
//! that comes in between is not missed.
use crate::sync::futex;
use core::sync::atomic::{AtomicU32, Ordering};
use rustix::io::Errno;
use vstd::prelude::*;

verus! {

/// How often a waiter looks at the counter before it sleeps.
pub const SPIN_LIMIT: u32 = 1000;

/// The counter after `times` more notifications.
pub open spec fn notified(value: u32, times: nat) -> u32 {
    ((value + times) % 0x1_0000_0000) as u32
}

/// The state of a condition variable: what its futex word holds.
#[derive(Clone, Copy, PartialEq, Eq, Structural, Debug)]
pub struct SharedCondvar {
    value: u32,
}

impl View for SharedCondvar {
    type V = u32;

    closed spec fn view(&self) -> u32 {
        self.value
    }
}

impl Default for SharedCondvar {
    fn default() -> (condvar: Self)
        ensures
            condvar@ == 0,
    {
        SharedCondvar { value: 0 }
    }
}

impl SharedCondvar {
    /// The condition variable whose word holds `value`.
    pub fn at(value: u32) -> (condvar: Self)
        ensures
            condvar@ == value,
    {
        SharedCondvar { value }
    }

    /// The ticket to wait with.
    #[inline(always)]
    pub fn value(&self) -> (ticket: u32)
        ensures
            ticket == self@,
    {
        self.value
    }

    /// Tells whether a waiter with ticket `expected` has to sleep. It may wake
    /// spontaneously.
    #[inline]
    pub fn wait(&self, expected: u32) -> (sleeps: bool)
        ensures
            sleeps == (self@ == expected),
    {
        self.value == expected
    }

    /// Counts a notification. Returns how many sleepers are to be woken.
    #[inline]
    pub fn notify_one(&mut self) -> (wake: u32)
        ensures
            final(self)@ == notified(old(self)@, 1),
            wake == 1,
    {
        self.value = self.value.wrapping_add(1);
        1
    }

    /// Counts a notification. Returns how many sleepers are to be woken: all.
    #[inline]
    pub fn notify_all(&mut self) -> (wake: u32)
        ensures
            final(self)@ == notified(old(self)@, 1),
            wake == futex::WAKE_ALL,
    {
        self.value = self.value.wrapping_add(1);
        futex::WAKE_ALL
    }
}

/// Whether a read of the word can give `value`. Nothing more is known of it than
/// that such a read gave it.
pub closed spec fn is_value(word: &AtomicU32, value: u32) -> bool {
    call_ensures(AtomicU32::load, (word, Ordering::Acquire), value)
}

/// Whether a read of the word that orders no other access can give `value`.
pub closed spec fn is_seen(word: &AtomicU32, value: u32) -> bool {
    call_ensures(AtomicU32::load, (word, Ordering::Relaxed), value)
}

/// Whether the word was counted up by one from `before`. Nothing more is known of
/// `before` than that such an access found it.
pub closed spec fn is_counted(word: &AtomicU32, before: u32) -> bool {
    call_ensures(AtomicU32::fetch_add, (word, 1u32, Ordering::Release), before)
}

/// A notification was counted in the word, and a wake-up of at most `count`
/// sleepers succeeded, or did not.
pub open spec fn is_notified(word: &AtomicU32, count: u32, success: bool) -> bool {
    &&& exists|before: u32| is_counted(word, before)
    &&& exists|result: Result<usize, Errno>| #[trigger]
        futex::is_wake(word, count, result) && success == (result is Ok)
}

/// The word was seen to hold another value than `expected`, or there was a wait on
/// it, to last while it holds `expected`.
pub open spec fn is_waited(word: &AtomicU32, expected: u32) -> bool {
    ||| exists|value: u32| #[trigger] is_seen(word, value) && value != expected
    ||| exists|result: Result<(), Errno>| futex::is_wait(word, expected, result)
}

/// A condition variable that other processes use at the same time.
pub struct LiveCondvar<'a> {
    pub word: &'a AtomicU32,
}

impl<'a> LiveCondvar<'a> {
    /// The ticket to wait with: what the counter holds.
    pub fn value(&self) -> (ticket: u32)
        ensures
            is_value(self.word, ticket),
    {
        self.word.load(Ordering::Acquire)
    }

    /// What the counter holds, for a look that orders no other access.
    pub fn peek(&self) -> (value: u32)
        ensures
            is_seen(self.word, value),
    {
        self.word.load(Ordering::Relaxed)
    }

    /// Looks at the counter for a while, then sleeps, as long as the counter
    /// is `expected`.
    pub fn wait(&self, expected: u32)
        ensures
            is_waited(self.word, expected),
    {
        let mut left: u32 = SPIN_LIMIT;
        while left > 0
            decreases left,
        {
            let value: u32 = self.peek();
            if !SharedCondvar::at(value).wait(expected) {
                return;
            }
            left = left - 1;
        }
        let _ = futex::futex_wait(self.word, expected);
    }

    /// Counts a notification and wakes one sleeper; tells whether the system call
    /// succeeded.
    pub fn notify_one(&self) -> (success: bool)
        ensures
            is_notified(self.word, 1, success),
    {
        let before: u32 = self.word.fetch_add(1, Ordering::Release);
        assert(is_counted(self.word, before));
        futex::futex_wake_one(self.word)
    }

    /// Counts a notification and wakes all sleepers; tells whether the system call
    /// succeeded.
    pub fn notify_all(&self) -> (success: bool)
        ensures
            is_notified(self.word, futex::WAKE_ALL, success),
    {
        let before: u32 = self.word.fetch_add(1, Ordering::Release);
        assert(is_counted(self.word, before));
        futex::futex_wake_all(self.word)
    }
}

/// A notification is not missed: once a ticket was taken, any number of
/// notifications short of 2^32 leaves a counter on which a waiter with that
/// ticket does not sleep.
pub proof fn law_ticket(ticket: u32, times: nat)
    requires
        0 < times < 0x1_0000_0000,
    ensures
        notified(ticket, times) != ticket,
        notified(ticket, 0) == ticket,
        notified(notified(ticket, (times - 1) as nat), 1) == notified(ticket, times),
{
}

/// A notification counts one up, and from the largest value back to 0.
pub proof fn law_notified(value: u32, times: nat)
    ensures
        value < 0xffff_ffff ==> notified(value, 1) == value + 1,
        notified(0xffff_ffff, 1) == 0,
        times < 0x1_0000_0000 ==> notified(0, times) == times,
        notified(notified(value, times), 1) == notified(value, times + 1),
{
}

/// A notification of a condition variable that others use counts one up and wakes
/// one sleeper, or all; a ticket is what the counter holds; and who waits sleeps
/// only on its ticket.
pub proof fn law_live_condvar(
    condvar: LiveCondvar<'_>,
    ticket: u32,
    expected: u32,
    one: bool,
    all: bool,
)
    requires
        call_ensures(LiveCondvar::value, (&condvar,), ticket),
        call_ensures(LiveCondvar::wait, (&condvar, expected), ()),
        call_ensures(LiveCondvar::notify_one, (&condvar,), one),
        call_ensures(LiveCondvar::notify_all, (&condvar,), all),
    ensures
        call_ensures(AtomicU32::load, (condvar.word, Ordering::Acquire), ticket),
        (exists|value: u32| #[trigger]
            call_ensures(AtomicU32::load, (condvar.word, Ordering::Relaxed), value) && value
                != expected) || exists|result: Result<(), Errno>|
            futex::is_wait(condvar.word, expected, result),
        exists|before: u32|
            call_ensures(AtomicU32::fetch_add, (condvar.word, 1u32, Ordering::Release), before),
        exists|result: Result<usize, Errno>| #[trigger]
            futex::is_wake(condvar.word, 1, result) && one == (result is Ok),
        exists|result: Result<usize, Errno>| #[trigger]
            futex::is_wake(condvar.word, 0x7fff_ffff, result) && all == (result is Ok),
{
    let before = choose|before: u32| is_counted(condvar.word, before);
    assert(is_counted(condvar.word, before));
    if exists|value: u32| #[trigger] is_seen(condvar.word, value) && value != expected {
        let value = choose|value: u32| #[trigger]
            is_seen(condvar.word, value) && value != expected;
        assert(is_seen(condvar.word, value));
    }
}

} // verus!
