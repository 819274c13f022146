//! Guards on a message that can be used like files.
use crate::python::bytes::RustPyBytes;
use crate::python::cursor::{readable, Cursor, NoRoom};
use crate::python::message::{Handle, PythonSharedMessage};
use crate::shared_message::guard::{MessageReadGuard, MessageWriteGuard};
use crate::shared_message::operation::ReaderChange;
use crate::shared_message::packed::sequence_after;
use crate::shared_message::region::Region;
use vstd::prelude::*;
use vstd::slice::slice_subrange;

verus! {

/// The use of a guard that was released or published before.
#[derive(Copy, Clone, PartialEq, Eq, Structural, Debug)]
pub struct Released;

#[derive(Copy, Clone, PartialEq, Eq, Structural, Debug)]
pub enum GuardError {
    Released(Released),
    NoRoom(NoRoom),
}

/// Holds a message for reading, until it is released.
pub struct PythonReadGuard {
    pub inner: Option<MessageReadGuard>,
    pub cursor: Cursor,
}

impl PythonReadGuard {
    pub fn new(guard: MessageReadGuard) -> (read: Self)
        ensures
            read.inner == Some(guard),
            read.cursor.position == 0,
    {
        PythonReadGuard { inner: Some(guard), cursor: Cursor::new() }
    }

    /// Releases the message, if that was not done before.
    pub fn release(&mut self, memory: &mut PythonSharedMessage)
        requires
            old(memory)@.wf(),
            old(self).inner is Some ==> old(memory)@.region.counts().changed(
                ReaderChange::Release,
            ) is Some,
        ensures
            final(memory)@.wf(),
            final(self).inner is None,
            final(self).cursor == old(self).cursor,
            final(memory)@ == (if old(self).inner is Some {
                Handle { region: old(memory)@.region.released(), ..old(memory)@ }
            } else {
                old(memory)@
            }),
    {
        if let Some(guard) = self.inner.take() {
            guard.release(&mut memory.shared_memory);
        }
    }

    /// The length of the message; 0 once the guard is released.
    pub fn len(&self, memory: &PythonSharedMessage) -> (len: usize)
        requires
            memory@.wf(),
        ensures
            len == (if self.inner is Some {
                memory@.region.data().len()
            } else {
                0
            }),
    {
        match &self.inner {
            Some(guard) => guard.data(&memory.shared_memory).len(),
            None => 0,
        }
    }

    pub fn sequence(&self) -> (sequence: Result<u64, Released>)
        ensures
            sequence == (match self.inner {
                Some(guard) => Ok(guard@),
                None => Err(Released),
            }),
    {
        match &self.inner {
            Some(guard) => Ok(guard.sequence()),
            None => Err(Released),
        }
    }

    /// The bytes from the position on: at most `size`, or all if there is none
    /// or it is negative.
    pub fn read(&mut self, memory: &PythonSharedMessage, size: Option<isize>) -> (bytes: Result<
        RustPyBytes,
        Released,
    >)
        requires
            memory@.wf(),
        ensures
            final(self).inner == old(self).inner,
            bytes is Err <==> old(self).inner is None,
            bytes is Err ==> *final(self) == *old(self),
            bytes matches Ok(bytes) ==> {
                let count = readable(old(self).cursor.position, memory@.region.data().len(), size);
                &&& final(self).cursor.position == old(self).cursor.position + count
                &&& count == 0 ==> bytes@ == Seq::<u8>::empty()
                &&& count > 0 ==> bytes@ == memory@.region.data().subrange(
                    old(self).cursor.position as int,
                    old(self).cursor.position + count,
                )
            },
    {
        match &self.inner {
            Some(guard) => {
                let data = guard.data(&memory.shared_memory);
                let (start, end) = self.cursor.take(data.len(), size);
                let bytes = RustPyBytes::new(slice_subrange(data, start, end));
                assert(start == end ==> bytes@ =~= Seq::<u8>::empty());
                Ok(bytes)
            },
            None => Err(Released),
        }
    }

    pub fn tell(&self) -> (position: usize)
        ensures
            position == self.cursor.position,
    {
        self.cursor.tell()
    }

    pub fn seek(&mut self, pos: usize) -> (position: usize)
        ensures
            position == pos,
            final(self).cursor.position == pos,
            final(self).inner == old(self).inner,
    {
        self.cursor.seek(pos)
    }

    pub fn writable(&self) -> (writable: bool)
        ensures
            !writable,
    {
        false
    }

    pub fn seekable(&self) -> (seekable: bool)
        ensures
            seekable,
    {
        true
    }

    pub fn readable(&self) -> (readable: bool)
        ensures
            readable,
    {
        true
    }

    /// A copy of the whole message.
    pub fn to_bytes(&self, memory: &PythonSharedMessage) -> (bytes: Result<RustPyBytes, Released>)
        requires
            memory@.wf(),
        ensures
            bytes is Err <==> self.inner is None,
            bytes matches Ok(bytes) ==> bytes@ == memory@.region.data(),
    {
        match &self.inner {
            Some(guard) => Ok(RustPyBytes::new(guard.data(&memory.shared_memory))),
            None => Err(Released),
        }
    }
}

/// Holds a message for writing, until it is published or released.
pub struct PythonWriteGuard {
    pub inner: Option<MessageWriteGuard>,
    pub cursor: Cursor,
}

impl PythonWriteGuard {
    pub fn new(guard: MessageWriteGuard) -> (write: Self)
        ensures
            write.inner == Some(guard),
            write.cursor.position == 0,
    {
        PythonWriteGuard { inner: Some(guard), cursor: Cursor::new() }
    }

    /// Gives the message back unpublished, if the guard still has it.
    pub fn release(&mut self, memory: &mut PythonSharedMessage)
        requires
            old(memory)@.wf(),
        ensures
            final(memory)@.wf(),
            final(self).inner is None,
            final(self).cursor == old(self).cursor,
            final(memory)@ == (if old(self).inner is Some {
                Handle { region: old(memory)@.region.unlocked(), ..old(memory)@ }
            } else {
                old(memory)@
            }),
    {
        if let Some(guard) = self.inner.take() {
            guard.abandon(&mut memory.shared_memory);
        }
    }

    /// How many bytes there is room for.
    pub fn len(&self, memory: &PythonSharedMessage) -> (len: Result<usize, Released>)
        ensures
            len == (if self.inner is Some {
                Ok(memory@.region.payload.len() as usize)
            } else {
                Err(Released)
            }),
    {
        match &self.inner {
            Some(guard) => Ok(guard.capacity(&memory.shared_memory)),
            None => Err(Released),
        }
    }

    /// Writes `data` at the position and moves behind it.
    pub fn write(&mut self, memory: &mut PythonSharedMessage, data: &[u8]) -> (written: Result<
        usize,
        GuardError,
    >)
        requires
            old(memory)@.wf(),
            old(self).cursor.position + data.len() <= usize::MAX,
        ensures
            final(memory)@.wf(),
            final(self).inner == old(self).inner,
            written == (if old(self).inner is None {
                Err(GuardError::Released(Released))
            } else if old(self).cursor.position + data.len() > old(memory)@.region.payload.len() {
                Err(
                    GuardError::NoRoom(
                        NoRoom {
                            cursor: old(self).cursor.position,
                            writing: data.len(),
                            capacity: old(memory)@.region.payload.len() as usize,
                        },
                    ),
                )
            } else {
                Ok(data.len())
            }),
            written is Err ==> final(memory)@ == old(memory)@ && final(self).cursor == old(
                self,
            ).cursor,
            written is Ok ==> {
                let start = old(self).cursor.position as int;
                let payload = old(memory)@.region.payload;
                &&& final(self).cursor.position == start + data.len()
                &&& final(memory)@ == (Handle {
                    region: Region {
                        payload: payload.take(start) + data@ + payload.skip(start + data.len()),
                        ..old(memory)@.region
                    },
                    ..old(memory)@
                })
            },
    {
        match &mut self.inner {
            Some(guard) => {
                let capacity: usize = guard.capacity(&memory.shared_memory);
                let (start, _) = match self.cursor.room(data.len(), capacity) {
                    Ok(range) => range,
                    Err(error) => return Err(GuardError::NoRoom(error)),
                };
                let buffer = guard.data_mut(&mut memory.shared_memory);
                copy_at(buffer, start, data);
                self.cursor.advance(data.len());
                Ok(data.len())
            },
            None => Err(GuardError::Released(Released)),
        }
    }

    pub fn tell(&self) -> (position: usize)
        ensures
            position == self.cursor.position,
    {
        self.cursor.tell()
    }

    pub fn seek(&mut self, pos: usize) -> (position: usize)
        ensures
            position == pos,
            final(self).cursor.position == pos,
            final(self).inner == old(self).inner,
    {
        self.cursor.seek(pos)
    }

    pub fn writable(&self) -> (writable: bool)
        ensures
            writable,
    {
        true
    }

    pub fn seekable(&self) -> (seekable: bool)
        ensures
            seekable,
    {
        true
    }

    pub fn readable(&self) -> (readable: bool)
        ensures
            !readable,
    {
        false
    }

    /// Publishes the first `size` bytes, or those up to the position. Returns
    /// the version; `None` if the message is stopped or the size is too large.
    pub fn publish(&mut self, memory: &mut PythonSharedMessage, size: Option<usize>) -> (version:
        Result<Option<u64>, Released>)
        requires
            old(memory)@.wf(),
        ensures
            final(memory)@.wf(),
            final(self).inner is None,
            final(self).cursor == old(self).cursor,
            version is Err <==> old(self).inner is None,
            version is Err ==> final(memory)@ == old(memory)@,
            version matches Ok(version) ==> {
                let before = old(memory)@;
                let final_size = match size {
                    Some(size) => size,
                    None => old(self).cursor.position,
                };
                let done = final_size <= before.region.payload.len() && !before.region.stopped();
                &&& version == (if done {
                    Some(sequence_after(before.region.sequence()))
                } else {
                    None
                })
                &&& final(memory)@ == (if done {
                    Handle {
                        region: before.region.published(final_size),
                        last_written: sequence_after(before.region.sequence()),
                        ..before
                    }
                } else {
                    Handle { region: before.region.unlocked(), ..before }
                })
            },
    {
        let guard = match self.inner.take() {
            Some(guard) => guard,
            None => return Err(Released),
        };
        let final_size: usize = match size {
            Some(size) => size,
            None => self.cursor.tell(),
        };
        let result = guard.publish(&mut memory.shared_memory, final_size);
        if let Some(sequence) = result {
            memory.last_written_sequence = sequence;
        }
        Ok(result)
    }
}

/// Copies `data` to the bytes of `buffer` from `start` on.
fn copy_at(buffer: &mut [u8], start: usize, data: &[u8])
    requires
        start + data.len() <= old(buffer).len(),
    ensures
        final(buffer)@ == old(buffer)@.take(start as int) + data@ + old(buffer)@.skip(
            start + data.len(),
        ),
{
    let mut i: usize = 0;
    while i < data.len()
        invariant
            i <= data.len(),
            start + data.len() <= buffer.len() == old(buffer).len(),
            buffer@ == old(buffer)@.take(start as int) + data@.take(i as int) + old(buffer)@.skip(
                start + i,
            ),
        decreases data.len() - i,
    {
        buffer[start + i] = data[i];
        i = i + 1;
        assert(buffer@ =~= old(buffer)@.take(start as int) + data@.take(i as int) + old(
            buffer,
        )@.skip(start + i));
    }
    assert(data@.take(i as int) =~= data@);
}

} // verus!
