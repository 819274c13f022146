//! Futex words: 32-bit words in memory that several processes map.
use core::sync::atomic::AtomicU32;
use rustix::io::Errno;
use rustix::thread::futex::Flags;
use vstd::prelude::*;

verus! {

/// A futex word in shared memory.
pub type Futex = AtomicU32;

/// The value of a futex word.
pub type Primitive = u32;

/// How many waiters a wake-up of all of them asks for.
pub const WAKE_ALL: u32 = 0x7fff_ffff;

/// The error of a system call, as `rustix` reports it. Nothing is known of it
/// here but that it is an error.
#[verifier::external_type_specification]
#[verifier::external_body]
pub struct ExErrno(Errno);

/// Calls `rustix::thread::futex::wait` on a word shared between processes,
/// without a timeout. The kernel puts the caller to sleep while the word holds
/// `state`; it may return at any time after that. What it returns depends on
/// the other processes and on the kernel, so nothing is claimed of it.
#[verifier::external_body]
fn wait_on(futex: &AtomicU32, state: u32) -> (result: Result<(), Errno>) {
    rustix::thread::futex::wait(futex, Flags::empty(), state, None)
}

/// Calls `rustix::thread::futex::wake` on a word shared between processes, for
/// at most `count` waiters. How many wake depends on the other processes, so
/// nothing is claimed of the result.
#[verifier::external_body]
fn wake(futex: &AtomicU32, count: u32) -> (result: Result<usize, Errno>) {
    rustix::thread::futex::wake(futex, Flags::empty(), count)
}

/// Whether a wait on the word, to last while it holds `state`, can come back with
/// `result`. Nothing more is known of it than that such a wait gave it.
pub closed spec fn is_wait(futex: &AtomicU32, state: u32, result: Result<(), Errno>) -> bool {
    call_ensures(wait_on, (futex, state), result)
}

/// Whether a wake-up of at most `count` sleepers of the word can come back with
/// `result`. Nothing more is known of it than that such a wake-up gave it.
pub closed spec fn is_wake(futex: &AtomicU32, count: u32, result: Result<usize, Errno>) -> bool {
    call_ensures(wake, (futex, count), result)
}

/// Whether a system call succeeded.
#[inline]
pub fn succeeded<T>(result: &Result<T, Errno>) -> (success: bool)
    ensures
        success == (result is Ok),
{
    result.is_ok()
}

/// How many sleepers a wake-up woke; `None` where the system call failed.
#[inline]
pub fn woken(result: Result<usize, Errno>) -> (count: Option<usize>)
    ensures
        count == (match result {
            Ok(count) => Some(count),
            Err(_) => None,
        }),
{
    result.ok()
}

/// Sleeps on the word while it holds `state`. Tells whether the system call
/// succeeded, which says nothing of the word: a sleeper can wake spontaneously.
#[inline]
pub fn futex_wait(futex: &AtomicU32, state: u32) -> (success: bool)
    ensures
        exists|result: Result<(), Errno>| #[trigger]
            is_wait(futex, state, result) && success == (result is Ok),
{
    let result = wait_on(futex, state);
    assert(is_wait(futex, state, result));
    succeeded(&result)
}

/// Wakes at most `count` sleepers of the word; `None` where the system call
/// failed.
#[inline]
pub fn futex_wake(futex: &AtomicU32, count: u32) -> (number: Option<usize>)
    ensures
        exists|result: Result<usize, Errno>| #[trigger]
            is_wake(futex, count, result) && number == (match result {
                Ok(number) => Some(number),
                Err(_) => None,
            }),
{
    let result = wake(futex, count);
    assert(is_wake(futex, count, result));
    woken(result)
}

/// Wakes one sleeper of the word; tells whether the system call succeeded.
#[inline]
pub fn futex_wake_one(futex: &AtomicU32) -> (success: bool)
    ensures
        exists|result: Result<usize, Errno>| #[trigger]
            is_wake(futex, 1, result) && success == (result is Ok),
{
    let result = wake(futex, 1);
    assert(is_wake(futex, 1, result));
    succeeded(&result)
}

/// Wakes all sleepers of the word; tells whether the system call succeeded.
#[inline]
pub fn futex_wake_all(futex: &AtomicU32) -> (success: bool)
    ensures
        exists|result: Result<usize, Errno>| #[trigger]
            is_wake(futex, WAKE_ALL, result) && success == (result is Ok),
{
    let result = wake(futex, WAKE_ALL);
    assert(is_wake(futex, WAKE_ALL, result));
    succeeded(&result)
}

} // verus!
