//! A lock on a futex word, and a condition variable that goes with it.
pub mod condvar;
pub mod lock_laws;
pub mod shared_futex;
