//! What a reader or a writer of a message holds between its calls.
use crate::counted_message::operation::{ReadOperation, ReadPhase, StartPhase, StartWrite};
use crate::counted_message::region::Region;
use crate::counted_message::SharedMessage;
use crate::shared_message::packed::sequence_after;
use vstd::prelude::*;

verus! {

/// The right to write the payload: the writer lock is held and no reader
/// holds the message.
pub struct PayloadWriteGuard {
    locked: bool,
}

impl View for PayloadWriteGuard {
    type V = bool;

    /// Whether the writer lock is held.
    closed spec fn view(&self) -> bool {
        self.locked
    }
}

impl PayloadWriteGuard {
    /// For who has just got the writer lock.
    pub(crate) fn new() -> (guard: Self)
        ensures
            guard@,
    {
        PayloadWriteGuard { locked: true }
    }
}

/// Holds the message with a certain sequence, ensuring it won't be overwritten
/// while being read.
pub struct MessageReadGuard {
    sequence: u64,
}

impl View for MessageReadGuard {
    type V = u64;

    /// The sequence of the message.
    closed spec fn view(&self) -> u64 {
        self.sequence
    }
}

impl MessageReadGuard {
    pub(crate) fn new(sequence: u64) -> (guard: Self)
        ensures
            guard@ == sequence,
    {
        MessageReadGuard { sequence }
    }

    /// The guard of a reader that made the accesses of its read one by one;
    /// `None` unless they ended with a message.
    pub fn granted(op: ReadOperation) -> (guard: Option<Self>)
        ensures
            match op.phase {
                ReadPhase::Finished(Some(sequence)) => guard matches Some(granted) && granted@
                    == sequence,
                _ => guard is None,
            },
    {
        match op.phase {
            ReadPhase::Finished(Some(sequence)) => Some(MessageReadGuard::new(sequence)),
            _ => None,
        }
    }

    pub fn sequence(&self) -> (sequence: u64)
        ensures
            sequence == self@,
    {
        self.sequence
    }

    /// The bytes of the message.
    pub fn data<'a>(&self, message: &'a SharedMessage) -> (data: &'a [u8])
        requires
            message@.wf(),
        ensures
            data@ == message@.data(),
    {
        message.payload_ref()
    }

    /// Gives the message back.
    pub fn release(self, message: &mut SharedMessage)
        requires
            old(message)@.wf(),
        ensures
            final(message)@ == old(message)@.released(),
            final(message)@.wf(),
    {
        message.release_active_reader()
    }
}

/// Guard for writes into the shared memory itself.
pub struct MessageWriteGuard {
    guard: PayloadWriteGuard,
}

impl View for MessageWriteGuard {
    type V = PayloadWriteGuard;

    /// The right that it stands for.
    closed spec fn view(&self) -> PayloadWriteGuard {
        self.guard
    }
}

impl MessageWriteGuard {
    pub(crate) fn new(guard: PayloadWriteGuard) -> (write: Self)
        ensures
            write@ == guard,
    {
        MessageWriteGuard { guard }
    }

    /// The guard of a writer that made the accesses of its start one by one;
    /// `None` unless they ended with the permission to write.
    pub fn granted(op: StartWrite) -> (write: Option<Self>)
        ensures
            write is Some <==> op.phase == StartPhase::Finished(true),
            write matches Some(guard) ==> guard@@,
    {
        match op.phase {
            StartPhase::Finished(true) => Some(MessageWriteGuard::new(PayloadWriteGuard::new())),
            _ => None,
        }
    }

    /// The payload, all of it.
    pub fn data_mut<'a>(&mut self, message: &'a mut SharedMessage) -> (data: &'a mut [u8])
        requires
            old(message)@.wf(),
        ensures
            *final(self) == *old(self),
            data@ == old(message)@.payload,
            final(message)@ == (Region { payload: final(data)@, ..old(message)@ }),
    {
        message.payload_mut(&self.guard)
    }

    pub fn capacity(&self, message: &SharedMessage) -> (capacity: usize)
        ensures
            capacity == message@.payload.len(),
    {
        message.capacity()
    }

    /// Publish the written data with the given size.
    /// Returns the new sequence number if successful, `None` if the message is
    /// stopped or the size exceeds the capacity. This consumes the guard and
    /// releases the writer lock.
    ///
    /// A write that is not published leaves the message marked as being written,
    /// until the next one is published: nobody reads what was written over the
    /// message before. On a stopped message, to which nobody will publish, the
    /// mark stays.
    pub fn publish(self, message: &mut SharedMessage, size: usize) -> (sequence: Option<u64>)
        requires
            old(message)@.wf(),
        ensures
            final(message)@.wf(),
            sequence == (if size <= old(message)@.payload.len() && !old(message)@.stopped() {
                Some(sequence_after(old(message)@.sequence()))
            } else {
                None
            }),
            final(message)@ == (if sequence is Some {
                old(message)@.published(size)
            } else {
                old(message)@.unlocked()
            }),
    {
        if size > self.capacity(message) {
            self.abandon(message);
            return None;
        }
        message.publish_guarded(self.guard, size)
    }

    /// Gives the guard back without publishing. The message stays marked as
    /// being written, until the next one is published.
    pub fn abandon(self, message: &mut SharedMessage)
        requires
            old(message)@.wf(),
        ensures
            final(message)@ == old(message)@.unlocked(),
            final(message)@.wf(),
    {
        message.release_writer(self.guard)
    }
}

} // verus!
