use rs_ipc::primitives::condvar::{CondvarWait, SharedCondvar as LockedCondvar};
use rs_ipc::primitives::shared_futex::{
    LiveFutex, LockAction, LockOperation, SharedFutex, CONTENDED, LOCKED, SPIN_LIMIT, UNLOCKED,
};
use rs_ipc::sync::condvar::{LiveCondvar, SharedCondvar};
use rs_ipc::sync::futex::{
    futex_wait, futex_wake, futex_wake_all, futex_wake_one, succeeded, woken,
};
use rs_ipc::sync::lock_free_condvar::{LiveLockFreeCondvar, LockFreeCondvar};
use rustix::io::Errno;
use std::sync::atomic::{AtomicU32, Ordering};

#[test]
fn a_futex_that_changed_does_not_sleep() {
    let word = AtomicU32::new(3);
    assert!(!futex_wait(&word, 4));
}

#[test]
fn waking_nobody_succeeds() {
    let word = AtomicU32::new(0);
    assert_eq!(futex_wake(&word, 5), Some(0));
    assert!(futex_wake_one(&word));
    assert!(futex_wake_all(&word));
}

#[test]
fn results_of_system_calls() {
    assert!(succeeded::<()>(&Ok(())));
    assert!(!succeeded::<()>(&Err(Errno::AGAIN)));
    assert_eq!(woken(Ok(3)), Some(3));
    assert_eq!(woken(Err(Errno::INVAL)), None);
}

#[test]
fn a_condvar_counts_notifications() {
    let mut condvar = SharedCondvar::default();
    let ticket = condvar.value();
    assert!(condvar.wait(ticket));
    assert_eq!(condvar.notify_one(), 1);
    assert!(!condvar.wait(ticket));
    assert_eq!(condvar.notify_all(), 0x7fff_ffff);
    assert_eq!(condvar.value(), 2);
    let mut last = SharedCondvar::at(u32::MAX);
    let _ = last.notify_all();
    assert_eq!(last.value(), 0);
}

#[test]
fn a_live_condvar_does_not_sleep_on_an_old_ticket() {
    let word = AtomicU32::new(0);
    let condvar = LiveCondvar { word: &word };
    let ticket = condvar.value();
    assert!(condvar.notify_one());
    condvar.wait(ticket);
    assert_eq!(condvar.peek(), 1);
    assert!(condvar.notify_all());
    assert_eq!(word.load(Ordering::Relaxed), 2);
}

#[test]
fn a_lock_free_condvar_sleeps_on_what_it_holds() {
    let mut condvar = LockFreeCondvar::default();
    assert_eq!(condvar.wait(), 0);
    assert_eq!(condvar.notify_all(), 0x7fff_ffff);
    assert_eq!(condvar.wait(), 1);
    let word = AtomicU32::new(7);
    LiveLockFreeCondvar { word: &word }.notify_all();
    assert_eq!(word.load(Ordering::Relaxed), 8);
}

#[test]
fn a_free_lock_is_taken() {
    let mut lock = SharedFutex::default();
    assert!(!lock.is_locked());
    assert!(lock.try_lock());
    assert!(lock.is_locked());
    assert!(!lock.try_lock());
    assert!(!lock.unlock());
    assert!(!lock.is_locked());
}

#[test]
fn a_contended_lock_wakes_one() {
    let mut lock = SharedFutex::default();
    assert!(lock.lock(false));
    assert!(!lock.lock(false));
    assert!(lock.unlock());
    // Whoever slept takes it with the mark.
    assert!(lock.lock(true));
    assert!(lock.unlock());
}

#[test]
fn a_locker_spins_before_it_marks() {
    let mut op = LockOperation::Fast;
    assert_eq!(op.action(), Some(LockAction::TakeFree));
    op.resume(LOCKED);
    let mut looks = 0;
    while op.action() == Some(LockAction::Observe) {
        op.resume(LOCKED);
        looks += 1;
    }
    assert_eq!(looks, SPIN_LIMIT + 1);
    assert_eq!(op, LockOperation::Mark);
    op.resume(LOCKED);
    assert_eq!(op, LockOperation::Asleep);
    assert_eq!(op.action(), Some(LockAction::Sleep));
    op.resume(CONTENDED);
    op.resume(UNLOCKED);
    assert_eq!(op, LockOperation::Mark);
    op.resume(UNLOCKED);
    assert_eq!(op, LockOperation::Held);
    assert_eq!(op.action(), None);
}

#[test]
fn a_locker_takes_a_lock_that_comes_free() {
    let mut op = LockOperation::Fast;
    op.resume(LOCKED);
    op.resume(UNLOCKED);
    assert_eq!(op, LockOperation::Retry);
    op.resume(CONTENDED);
    assert_eq!(op, LockOperation::Asleep);
}

#[test]
fn two_lockers_share_a_word() {
    let word = AtomicU32::new(UNLOCKED);
    let lock = LiveFutex { word: &word };
    let mut first = LockOperation::Fast;
    let mut second = LockOperation::Fast;
    first.resume(lock.perform(first.action().unwrap()));
    assert_eq!(first, LockOperation::Held);
    // The other locker goes on until it would sleep.
    while second.action() != Some(LockAction::Sleep) {
        second.resume(lock.perform(second.action().unwrap()));
    }
    assert_eq!(word.load(Ordering::Relaxed), CONTENDED);
    lock.unlock();
    assert_eq!(word.load(Ordering::Relaxed), UNLOCKED);
    while let Some(action) = second.action() {
        second.resume(lock.perform(action));
    }
    assert_eq!(second, LockOperation::Held);
    lock.unlock();
}

#[test]
fn a_locked_condvar_gives_the_lock_back() {
    let condvar = LockedCondvar::default();
    let mut lock = SharedFutex::default();
    assert!(lock.lock(false));
    assert!(!lock.lock(false));
    let wait = condvar.wait(&mut lock);
    assert_eq!(wait, CondvarWait { expected: 0, wake_locker: true });
    assert!(!lock.is_locked());
    assert_eq!(condvar.notify_one(), 1);
    assert_eq!(condvar.notify_all(), u32::MAX);
}

#[test]
fn a_locked_condvar_waits_while_a_condition_holds() {
    let condvar = LockedCondvar::default();
    let mut lock = SharedFutex::default();
    assert!(lock.lock(false));
    let wait = condvar.wait_while(&mut lock, &5u32, |content: &u32| *content > 6);
    assert_eq!(wait, None);
    assert!(lock.is_locked());
    let wait = condvar.wait_while(&mut lock, &7u32, |content: &u32| *content > 6);
    assert_eq!(wait, Some(CondvarWait { expected: 0, wake_locker: false }));
    assert!(!lock.is_locked());
}
