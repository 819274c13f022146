//! Futex words and condition variables that need no lock.
pub mod condvar;
pub mod futex;
pub mod lock_free_condvar;
