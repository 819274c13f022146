//! Handles on messages as Python sees them.
pub mod bytes;
pub mod cursor;
pub mod guards;
pub mod handle_laws;
pub mod laws;
pub mod message;
pub mod operation_mode;
pub mod queue_data;
pub mod read_all;
pub mod read_write_guards;
pub mod reader_wait_policy;
pub mod threads;
pub mod zero_copy_laws;
pub mod zero_copy_message;
