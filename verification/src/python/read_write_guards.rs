//! Guards on a double-buffered message.
use crate::python::bytes::RustPyBytes;
use crate::python::guards::Released;
use crate::python::zero_copy_message::{PythonZeroCopySharedMessage, ZeroCopyHandle};
use crate::shared_message::packed::sequence_after;
use crate::zero_copy::read_guard::MessageReadGuard;
use crate::zero_copy::write_guard::WriteGuard;
use vstd::prelude::*;

verus! {

/// Holds a buffer for reading, until it is released.
pub struct PythonReadGuard {
    pub guard: Option<MessageReadGuard>,
}

impl PythonReadGuard {
    pub fn new(guard: MessageReadGuard) -> (read: Self)
        ensures
            read.guard == Some(guard),
    {
        PythonReadGuard { guard: Some(guard) }
    }

    /// The length of the message; 0 once the guard is released.
    pub fn len(&self, memory: &PythonZeroCopySharedMessage) -> (len: usize)
        requires
            memory@.wf(),
        ensures
            len == (match self.guard {
                Some(guard) => memory@.region.data(guard.spec_buffer()).len(),
                None => 0,
            }),
    {
        match &self.guard {
            Some(guard) => guard.data(&memory.shared_memory).len(),
            None => 0,
        }
    }

    /// Releases the buffer, if that was not done before.
    pub fn release(&mut self, memory: &mut PythonZeroCopySharedMessage)
        requires
            old(memory)@.wf(),
        ensures
            final(memory)@.wf(),
            final(self).guard is None,
            final(memory)@ == (match old(self).guard {
                Some(guard) => ZeroCopyHandle {
                    region: old(memory)@.region.released(guard.spec_buffer()),
                    ..old(memory)@
                },
                None => old(memory)@,
            }),
    {
        if let Some(guard) = self.guard.take() {
            guard.release(&mut memory.shared_memory);
        }
    }

    /// Get the sequence number of this message.
    pub fn sequence(&self) -> (sequence: Result<u64, Released>)
        ensures
            sequence == (match self.guard {
                Some(guard) => Ok(guard.spec_sequence()),
                None => Err(Released),
            }),
    {
        match &self.guard {
            Some(guard) => Ok(guard.sequence()),
            None => Err(Released),
        }
    }

    /// A copy of the message.
    pub fn to_bytes(&self, memory: &PythonZeroCopySharedMessage) -> (bytes: Result<
        RustPyBytes,
        Released,
    >)
        requires
            memory@.wf(),
        ensures
            bytes is Err <==> self.guard is None,
            bytes matches Ok(bytes) ==> bytes@ == memory@.region.data(
                self.guard->Some_0.spec_buffer(),
            ),
    {
        match &self.guard {
            Some(guard) => Ok(RustPyBytes::new(guard.data(&memory.shared_memory))),
            None => Err(Released),
        }
    }
}

/// Holds a buffer for writing, until it is published or released.
pub struct PythonWriteGuard {
    pub guard: Option<WriteGuard>,
}

impl PythonWriteGuard {
    pub fn new(guard: WriteGuard) -> (write: Self)
        ensures
            write.guard == Some(guard),
    {
        PythonWriteGuard { guard: Some(guard) }
    }

    /// How many bytes there is room for; 0 once the guard is released.
    pub fn len(&self, memory: &PythonZeroCopySharedMessage) -> (len: usize)
        ensures
            len == (if self.guard is Some {
                memory@.region.buffer_size
            } else {
                0
            }),
    {
        match &self.guard {
            Some(guard) => guard.capacity(&memory.shared_memory),
            None => 0,
        }
    }

    /// Gives the buffer back unpublished, if the guard still has it.
    pub fn release(&mut self, memory: &mut PythonZeroCopySharedMessage)
        requires
            old(memory)@.wf(),
        ensures
            final(memory)@.wf(),
            final(self).guard is None,
            final(memory)@ == (if old(self).guard is Some {
                ZeroCopyHandle { region: old(memory)@.region.unlocked(), ..old(memory)@ }
            } else {
                old(memory)@
            }),
    {
        if let Some(guard) = self.guard.take() {
            guard.abandon(&mut memory.shared_memory);
        }
    }

    /// Publish the written data with the given size. Returns the sequence
    /// number if successful, `None` if the message is stopped or the size is
    /// too large.
    pub fn publish(&mut self, memory: &mut PythonZeroCopySharedMessage, size: usize) -> (version:
        Result<Option<u64>, Released>)
        requires
            old(memory)@.wf(),
            old(self).guard is Some && size <= old(memory)@.region.buffer_size ==> !old(
                memory,
            )@.region.publish_sleeps(),
        ensures
            final(memory)@.wf(),
            final(self).guard is None,
            version is Err <==> old(self).guard is None,
            version is Err ==> final(memory)@ == old(memory)@,
            version matches Ok(version) ==> {
                let before = old(memory)@;
                &&& version == (if size <= before.region.buffer_size && !before.region.stopped() {
                    Some(sequence_after(before.region.sequence()))
                } else {
                    None
                })
                &&& final(memory)@ == (ZeroCopyHandle {
                    region: if size <= before.region.buffer_size {
                        before.region.published(old(self).guard->Some_0@, size)
                    } else {
                        before.region.unlocked()
                    },
                    ..before
                })
            },
    {
        match self.guard.take() {
            Some(guard) => Ok(guard.publish(&mut memory.shared_memory, size)),
            None => Err(Released),
        }
    }

    /// Get the capacity of the write buffer.
    pub fn capacity(&self, memory: &PythonZeroCopySharedMessage) -> (capacity: Result<
        usize,
        Released,
    >)
        ensures
            capacity == (if self.guard is Some {
                Ok(memory@.region.buffer_size)
            } else {
                Err(Released)
            }),
    {
        match &self.guard {
            Some(guard) => Ok(guard.capacity(&memory.shared_memory)),
            None => Err(Released),
        }
    }
}

} // verus!
