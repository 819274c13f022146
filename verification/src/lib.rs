//! Messages in shared memory: one process writes, others read, without copies
//! through the kernel and without waiting longer than they must.
pub mod container;
pub mod counted_message;
pub mod memory_mapper;
pub mod primitives;
pub mod python;
pub mod shared_message;
pub mod sync;
pub mod tally;
pub mod zero_copy;

pub use memory_mapper::SharedMemoryMapper;
pub use shared_message::guard::{MessageReadGuard, MessageWriteGuard};
pub use shared_message::SharedMessage;
