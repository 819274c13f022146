//! A message that is read and written under a lock.
pub mod laws;
pub mod message;
