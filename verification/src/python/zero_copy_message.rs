//! A handle on a double-buffered message.
use crate::primitives::shared_futex::LOCKED;
use crate::python::bytes::RustPyBytes;
use crate::python::message::{check_name, name_error, HandleError, ValueError};
use crate::python::operation_mode::{OperationMode, PermissionError};
use crate::python::read_write_guards::{PythonReadGuard, PythonWriteGuard};
use crate::python::reader_wait_policy::ReaderWaitPolicy;
use crate::shared_message::packed::sequence_after;
use crate::zero_copy::message::ZeroCopySharedMessage;
use crate::zero_copy::region::{
    decreased, increased, Action, Channel, Counter, Region, SequenceState,
};
use vstd::prelude::*;

verus! {

/// A handle as a mathematical value.
pub struct ZeroCopyHandle {
    pub region: Region,
    pub name: Seq<char>,
    pub op_mode: OperationMode,
    pub last_read: u64,
}

impl ZeroCopyHandle {
    /// A new handle: if it may read, it counts as a reader.
    pub open spec fn new(region: Region, name: Seq<char>, op_mode: OperationMode) -> Self {
        ZeroCopyHandle {
            region: if op_mode.reads() {
                Region { consumers: increased(region.consumers), ..region }
            } else {
                region
            },
            name,
            op_mode,
            last_read: 0,
        }
    }

    pub open spec fn wf(self) -> bool {
        self.region.wf()
    }

    /// Whether there is a message that was not read.
    pub open spec fn has_new(self) -> bool {
        self.region.sequence() != self.last_read
    }

    /// After a reader took the latest buffer.
    pub open spec fn taken(self) -> Self {
        ZeroCopyHandle {
            region: self.region.after(Action::Increase(Counter::Readers(self.region.latest()))),
            last_read: self.region.sequence(),
            ..self
        }
    }

    /// After it was given back, too.
    pub open spec fn read(self) -> Self {
        ZeroCopyHandle {
            region: self.taken().region.released(self.region.latest()),
            ..self.taken()
        }
    }

    pub open spec fn written(self, data: Seq<u8>) -> Self {
        if self.region.stopped() {
            self
        } else {
            ZeroCopyHandle {
                region: self.region.overwritten(!self.region.latest(), data).published(
                    !self.region.latest(),
                    data.len() as usize,
                ),
                ..self
            }
        }
    }
}

/// Why a double-buffered message is not made.
#[derive(Copy, Clone, PartialEq, Eq, Structural, Debug)]
pub enum CreateError {
    Value(ValueError),
    /// There is not room for two buffers: the memory cannot be used for a
    /// message.
    NoRoom,
}

/// A handle on a double-buffered message.
pub struct PythonZeroCopySharedMessage {
    pub shared_memory: ZeroCopySharedMessage,
    pub name: String,
    pub op_mode: OperationMode,
    pub last_read_sequence: u64,
}

impl View for PythonZeroCopySharedMessage {
    type V = ZeroCopyHandle;

    open spec fn view(&self) -> ZeroCopyHandle {
        ZeroCopyHandle {
            region: self.shared_memory@,
            name: self.name@,
            op_mode: self.op_mode,
            last_read: self.last_read_sequence,
        }
    }
}

impl PythonZeroCopySharedMessage {
    /// Makes a message with `size` bytes for both buffers, and a handle on it.
    pub fn create(
        name: String,
        size: usize,
        mode: OperationMode,
        reader_wait_policy: ReaderWaitPolicy,
    ) -> (created: Result<Self, CreateError>)
        requires
            size > 0,
        ensures
            match created {
                Ok(handle) => name_error(name@) is None && size >= 2 && handle@.wf() && handle@
                    == ZeroCopyHandle::new(
                    Region {
                        target: reader_wait_policy.target(),
                        ..Region::zeroed((size / 2) as usize, (size % 2) as nat)
                    },
                    name@,
                    mode,
                ),
                Err(CreateError::Value(error)) => name_error(name@) == Some(error),
                Err(CreateError::NoRoom) => name_error(name@) is None && size < 2,
            },
    {
        match check_name(name.as_str()) {
            Ok(()) => {},
            Err(error) => return Err(CreateError::Value(error)),
        }
        match ZeroCopySharedMessage::zeroed(size) {
            Some(message) => {
                let mut shared_memory = message;
                shared_memory.set_target_read_count(reader_wait_policy.to_target());
                Ok(Self::new(shared_memory, name, mode))
            },
            None => Err(CreateError::NoRoom),
        }
    }

    /// Makes a handle on a message that is there.
    pub fn open(shared_memory: ZeroCopySharedMessage, name: String, mode: OperationMode) -> (opened:
        Result<Self, ValueError>)
        requires
            shared_memory@.wf(),
        ensures
            match opened {
                Ok(handle) => name_error(name@) is None && handle@.wf() && handle@
                    == ZeroCopyHandle::new(shared_memory@, name@, mode),
                Err(error) => name_error(name@) == Some(error),
            },
    {
        match check_name(name.as_str()) {
            Ok(()) => Ok(Self::new(shared_memory, name, mode)),
            Err(error) => Err(error),
        }
    }

    pub fn new(
        shared_memory: ZeroCopySharedMessage,
        name: String,
        op_mode: OperationMode,
    ) -> (handle: Self)
        requires
            shared_memory@.wf(),
        ensures
            handle@ == ZeroCopyHandle::new(shared_memory@, name@, op_mode),
            handle@.wf(),
    {
        let mut shared_memory = shared_memory;
        if op_mode.can_read() {
            shared_memory.add_reader();
        }
        PythonZeroCopySharedMessage { shared_memory, name, op_mode, last_read_sequence: 0 }
    }

    /// Gives the handle back, which then does not count as a reader any more.
    pub fn close(self) -> (shared_memory: ZeroCopySharedMessage)
        requires
            self@.wf(),
        ensures
            shared_memory@ == (if self@.op_mode.reads() {
                Region { consumers: decreased(self@.region.consumers), ..self@.region }
            } else {
                self@.region
            }),
            shared_memory@.wf(),
    {
        let mut shared_memory = self.shared_memory;
        if self.op_mode.can_read() {
            shared_memory.remove_reader();
        }
        shared_memory
    }

    /// Writes `data`. Returns the version; `None` once the message is stopped.
    pub fn write(&mut self, data: &[u8]) -> (version: Result<Option<u64>, HandleError>)
        requires
            old(self)@.wf(),
            old(self)@.op_mode.writes() && data@.len() <= old(self)@.region.buffer_size
                ==> !old(self)@.region.acquire_sleeps() && !old(self)@.region.publish_sleeps(),
        ensures
            final(self)@.wf(),
            version == (if !old(self)@.op_mode.writes() {
                Err(HandleError::Permission(PermissionError::ReadOnly))
            } else if data@.len() > old(self)@.region.buffer_size {
                Err(
                    HandleError::Value(
                        ValueError::TooLarge {
                            max_size: old(self)@.region.buffer_size,
                            size: data.len(),
                        },
                    ),
                )
            } else if old(self)@.region.stopped() {
                Ok(None)
            } else {
                Ok(Some(sequence_after(old(self)@.region.sequence())))
            }),
            final(self)@ == (if version is Ok {
                old(self)@.written(data@)
            } else {
                old(self)@
            }),
    {
        match self.op_mode.write_permission() {
            Ok(()) => {},
            Err(error) => return Err(HandleError::Permission(error)),
        }
        let max_size: usize = self.payload_max_size();
        if data.len() > max_size {
            return Err(HandleError::Value(ValueError::TooLarge { max_size, size: data.len() }));
        }
        Ok(self.shared_memory.write(data))
    }

    /// A guard to write into the message itself; `None` once it is stopped.
    pub fn write_guard(&mut self) -> (guard: Result<Option<PythonWriteGuard>, PermissionError>)
        requires
            old(self)@.wf(),
            old(self)@.op_mode.writes() ==> !old(self)@.region.acquire_sleeps(),
        ensures
            final(self)@.wf(),
            guard is Err <==> !old(self)@.op_mode.writes(),
            guard matches Err(error) ==> error == PermissionError::ReadOnly && final(self)@ == old(
                self,
            )@,
            guard matches Ok(guard) ==> {
                &&& guard is None <==> old(self)@.region.stopped()
                &&& guard is None ==> final(self)@ == old(self)@
                &&& guard matches Some(guard) ==> {
                    &&& guard.guard matches Some(held)
                    &&& held@ == !old(self)@.region.latest()
                    &&& final(self)@ == (ZeroCopyHandle {
                        region: Region { writer_lock: LOCKED, ..old(self)@.region },
                        ..old(self)@
                    })
                }
            },
    {
        match self.op_mode.write_permission() {
            Ok(()) => {},
            Err(error) => return Err(error),
        }
        match self.shared_memory.acquire_write_guard() {
            Some(guard) => Ok(Some(PythonWriteGuard::new(guard))),
            None => Ok(None),
        }
    }

    /// Whether a read has to wait.
    pub fn read_would_wait(&self, block: bool) -> (waits: bool)
        ensures
            waits == self@.region.read_sleeps(self@.last_read, block),
    {
        block && self.shared_memory.read_would_wait(self.last_read_sequence)
    }

    /// A guard that holds the latest message, if it was not read before.
    pub fn read_guard(&mut self, block: bool) -> (guard: Result<
        Option<PythonReadGuard>,
        PermissionError,
    >)
        requires
            old(self)@.wf(),
            old(self)@.op_mode.reads() ==> !old(self)@.region.read_sleeps(
                old(self)@.last_read,
                block,
            ),
        ensures
            final(self)@.wf(),
            guard is Err <==> !old(self)@.op_mode.reads(),
            guard matches Err(error) ==> error == PermissionError::WriteOnly && final(self)@ == old(
                self,
            )@,
            guard matches Ok(guard) ==> {
                &&& guard is Some <==> old(self)@.has_new()
                &&& guard is None ==> final(self)@ == old(self)@
                &&& guard matches Some(guard) ==> {
                    &&& guard.guard matches Some(held)
                    &&& held.spec_sequence() == old(self)@.region.sequence()
                    &&& held.spec_buffer() == old(self)@.region.latest()
                    &&& final(self)@ == old(self)@.taken()
                }
            },
    {
        match self.op_mode.read_permission() {
            Ok(()) => {},
            Err(error) => return Err(error),
        }
        let last_seq: u64 = self.last_read_sequence;
        let guard = if block {
            self.shared_memory.read(last_seq)
        } else {
            self.shared_memory.try_read(last_seq)
        };
        match guard {
            Some(guard) => {
                self.last_read_sequence = guard.sequence();
                Ok(Some(PythonReadGuard::new(guard)))
            },
            None => Ok(None),
        }
    }

    /// A copy of the latest message, if it was not read before.
    pub fn read_copy(&mut self, block: bool) -> (bytes: Result<
        Option<RustPyBytes>,
        PermissionError,
    >)
        requires
            old(self)@.wf(),
            old(self)@.op_mode.reads() ==> !old(self)@.region.read_sleeps(
                old(self)@.last_read,
                block,
            ),
        ensures
            final(self)@.wf(),
            bytes is Err <==> !old(self)@.op_mode.reads(),
            bytes matches Err(error) ==> error == PermissionError::WriteOnly && final(self)@ == old(
                self,
            )@,
            bytes matches Ok(bytes) ==> {
                &&& bytes is Some <==> old(self)@.has_new()
                &&& bytes is None ==> final(self)@ == old(self)@
                &&& bytes matches Some(bytes) ==> bytes@ == old(self)@.region.data(
                    old(self)@.region.latest(),
                ) && final(self)@ == old(self)@.read()
            },
    {
        match self.op_mode.read_permission() {
            Ok(()) => {},
            Err(error) => return Err(error),
        }
        let last_seq: u64 = self.last_read_sequence;
        let guard = if block {
            self.shared_memory.read(last_seq)
        } else {
            self.shared_memory.try_read(last_seq)
        };
        match guard {
            Some(guard) => {
                self.last_read_sequence = guard.sequence();
                let bytes = RustPyBytes::new(guard.data(&self.shared_memory));
                guard.release(&mut self.shared_memory);
                Ok(Some(bytes))
            },
            None => Ok(None),
        }
    }

    pub fn is_new_version_available(&self) -> (available: Result<bool, PermissionError>)
        ensures
            available == (if self@.op_mode.reads() {
                Ok(self@.has_new())
            } else {
                Err(PermissionError::WriteOnly)
            }),
    {
        match self.op_mode.read_permission() {
            Ok(()) => Ok(self.shared_memory.has_new_data(self.last_read_sequence)),
            Err(error) => Err(error),
        }
    }

    pub fn last_read_version(&self) -> (version: u64)
        ensures
            version == self@.last_read,
    {
        self.last_read_sequence
    }

    pub fn name(&self) -> (name: &str)
        ensures
            name@ == self@.name,
    {
        self.name.as_str()
    }

    pub fn payload_max_size(&self) -> (size: usize)
        ensures
            size == self@.region.buffer_size,
    {
        self.shared_memory.buffer_size()
    }

    pub fn is_stopped(&self) -> (stopped: bool)
        ensures
            stopped == self@.region.stopped(),
    {
        self.shared_memory.is_stopped()
    }

    pub fn stop(&mut self)
        requires
            old(self)@.wf(),
        ensures
            final(self)@ == (ZeroCopyHandle {
                region: old(self)@.region.with_state(
                    SequenceState { stopped: true, ..old(self)@.region.state() },
                ).notify(Channel::Writer).notify(Channel::ReaderDone),
                ..old(self)@
            }),
            final(self)@.wf(),
    {
        self.shared_memory.stop();
    }
}

} // verus!
