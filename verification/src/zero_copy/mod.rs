//! A message in shared memory with two buffers, so that the next message is
//! written while readers hold the latest.
pub mod effect_laws;
pub mod laws;
pub mod live;
pub mod message;
pub mod operation;
pub mod publication_laws;
pub mod read_guard;
pub mod region;
pub mod write_guard;
