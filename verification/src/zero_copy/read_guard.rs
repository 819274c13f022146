//! What a reader of a double-buffered message holds between its calls.
use crate::zero_copy::message::ZeroCopySharedMessage;
use crate::zero_copy::operation::{ReadOperation, ReadPhase};
use crate::zero_copy::region::BufferIndex;
use vstd::prelude::*;

verus! {

/// Guard for reads from the shared memory itself. Holds a buffer, ensuring it
/// won't be overwritten while being read.
pub struct MessageReadGuard {
    buffer_idx: BufferIndex,
    sequence: u64,
}

impl MessageReadGuard {
    pub closed spec fn spec_buffer(self) -> BufferIndex {
        self.buffer_idx
    }

    pub closed spec fn spec_sequence(self) -> u64 {
        self.sequence
    }

    pub(crate) fn new(buffer_idx: BufferIndex, sequence: u64) -> (guard: Self)
        ensures
            guard.spec_buffer() == buffer_idx,
            guard.spec_sequence() == sequence,
    {
        MessageReadGuard { buffer_idx, sequence }
    }

    /// The guard of a reader that made the accesses of its read one by one;
    /// `None` unless they ended with a buffer.
    pub fn granted(op: ReadOperation) -> (guard: Option<Self>)
        ensures
            match op.phase {
                ReadPhase::Holding { buffer_idx, sequence } => guard matches Some(granted)
                    && granted.spec_buffer() == buffer_idx && granted.spec_sequence() == sequence,
                _ => guard is None,
            },
    {
        match op.phase {
            ReadPhase::Holding { buffer_idx, sequence } => Some(
                MessageReadGuard::new(buffer_idx, sequence),
            ),
            _ => None,
        }
    }

    /// Which buffer is held.
    pub fn buffer_idx(&self) -> (buffer_idx: BufferIndex)
        ensures
            buffer_idx == self.spec_buffer(),
    {
        self.buffer_idx
    }

    pub fn sequence(&self) -> (sequence: u64)
        ensures
            sequence == self.spec_sequence(),
    {
        self.sequence
    }

    /// The bytes of the message.
    pub fn data<'a>(&self, message: &'a ZeroCopySharedMessage) -> (data: &'a [u8])
        requires
            message@.wf(),
        ensures
            data@ == message@.data(self.spec_buffer()),
    {
        message.buffer(self.buffer_idx)
    }

    /// Gives the buffer back.
    pub fn release(self, message: &mut ZeroCopySharedMessage)
        requires
            old(message)@.wf(),
        ensures
            final(message)@ == old(message)@.released(self.spec_buffer()),
            final(message)@.wf(),
    {
        message.release_reader(self.buffer_idx)
    }
}

} // verus!
