//! What a writer of a double-buffered message holds between its calls.
use crate::shared_message::packed::sequence_after;
use crate::zero_copy::message::ZeroCopySharedMessage;
use crate::zero_copy::operation::{AcquireBuffer, AcquirePhase};
use crate::zero_copy::region::BufferIndex;
use vstd::prelude::*;

verus! {

/// Guard for writes into the shared memory itself. The writer lock is held
/// until the guard is published or abandoned.
pub struct WriteGuard {
    buffer_idx: BufferIndex,
}

impl View for WriteGuard {
    type V = BufferIndex;

    /// The buffer that may be written.
    closed spec fn view(&self) -> BufferIndex {
        self.buffer_idx
    }
}

impl WriteGuard {
    pub(crate) fn new(buffer_idx: BufferIndex) -> (guard: Self)
        ensures
            guard@ == buffer_idx,
    {
        WriteGuard { buffer_idx }
    }

    /// The guard of a writer that made the accesses of its start one by one;
    /// `None` unless they ended with a buffer to write.
    pub fn granted(op: AcquireBuffer) -> (guard: Option<Self>)
        ensures
            match op.phase {
                AcquirePhase::Finished(Some(buffer_idx)) => guard matches Some(granted) && granted@
                    == buffer_idx,
                _ => guard is None,
            },
    {
        match op.phase {
            AcquirePhase::Finished(Some(buffer_idx)) => Some(WriteGuard::new(buffer_idx)),
            _ => None,
        }
    }

    /// Get mutable access to the write buffer.
    pub fn buffer_mut<'a>(&mut self, message: &'a mut ZeroCopySharedMessage) -> (buffer:
        &'a mut [u8])
        requires
            old(message)@.wf(),
        ensures
            *final(self) == *old(self),
            buffer@ == old(message)@.buffer(old(self)@),
            final(buffer)@.len() == buffer@.len() ==> final(message)@ == old(message)@.overwritten(
                old(self)@,
                final(buffer)@,
            ),
    {
        message.buffer_mut(self.buffer_idx)
    }

    /// Get the maximum buffer size.
    pub fn capacity(&self, message: &ZeroCopySharedMessage) -> (capacity: usize)
        ensures
            capacity == message@.buffer_size,
    {
        message.buffer_size()
    }

    /// Publish the written data with the given size. Returns the new sequence
    /// number if successful, `None` if the message is stopped or the size
    /// exceeds the buffer. This consumes the guard and releases the writer
    /// lock.
    pub fn publish(self, message: &mut ZeroCopySharedMessage, size: usize) -> (sequence: Option<
        u64,
    >)
        requires
            old(message)@.wf(),
            size <= old(message)@.buffer_size ==> !old(message)@.publish_sleeps(),
        ensures
            sequence == (if size <= old(message)@.buffer_size && !old(message)@.stopped() {
                Some(sequence_after(old(message)@.sequence()))
            } else {
                None
            }),
            final(message)@ == (if size <= old(message)@.buffer_size {
                old(message)@.published(self@, size)
            } else {
                old(message)@.unlocked()
            }),
            final(message)@.wf(),
    {
        if size > self.capacity(message) {
            message.release_writer_mutex();
            return None;
        }
        message.publish_buffer(self.buffer_idx, size)
    }

    /// Gives the guard back without publishing. The buffer will be there for
    /// the next write.
    pub fn abandon(self, message: &mut ZeroCopySharedMessage)
        requires
            old(message)@.wf(),
        ensures
            final(message)@ == old(message)@.unlocked(),
            final(message)@.wf(),
    {
        message.release_writer_mutex()
    }
}

} // verus!
