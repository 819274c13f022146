//! A handle on a message, with the queues of its background threads.
use crate::python::bytes::RustPyBytes;
use crate::python::guards::{PythonReadGuard, PythonWriteGuard};
use crate::python::operation_mode::{OperationMode, PermissionError};
use crate::python::queue_data::{ReceiverQueueData, SenderQueueData};
use crate::python::reader_wait_policy::ReaderWaitPolicy;
use crate::python::threads::{
    ReaderEvent, ReaderPhase, ReaderThread, WriterEvent, WriterPhase, WriterThread,
};
use crate::shared_message::operation::{Channel, ReaderChange};
use crate::shared_message::packed::{law_readers_round_trip, sequence_after, SequenceState};
use crate::shared_message::region::Region;
use crate::shared_message::SharedMessage;
use std::collections::VecDeque;
use vstd::prelude::*;
use vstd::string::StrSliceExecFns;

verus! {

/// A value that a handle does not take.
#[derive(Copy, Clone, PartialEq, Eq, Structural, Debug)]
pub enum ValueError {
    EmptyName,
    /// The name has a character that ends names.
    NulInName,
    /// A message that is there cannot be opened only to create it.
    CreateMode,
    TooLarge { max_size: usize, size: usize },
    /// The writer thread has ended.
    QueueStopped,
}

/// What is wrong with the use of a handle.
#[derive(Copy, Clone, PartialEq, Eq, Structural, Debug)]
pub enum HandleError {
    Permission(PermissionError),
    Value(ValueError),
}

/// Which way a write goes.
#[derive(Copy, Clone, PartialEq, Eq, Structural, Debug)]
pub enum WritePath {
    Sync,
    Async,
}

/// What is wrong with a name.
pub open spec fn name_error(name: Seq<char>) -> Option<ValueError> {
    if name.len() == 0 {
        Some(ValueError::EmptyName)
    } else if name.contains('\0') {
        Some(ValueError::NulInName)
    } else {
        None
    }
}

pub fn check_name(name: &str) -> (checked: Result<(), ValueError>)
    ensures
        checked == (match name_error(name@) {
            Some(error) => Err(error),
            None => Ok(()),
        }),
{
    if name.is_empty() {
        return Err(ValueError::EmptyName);
    }
    let len: usize = name.unicode_len();
    let mut i: usize = 0;
    while i < len
        invariant
            i <= len == name@.len(),
            name@.len() > 0,
            forall|j: int| 0 <= j < i ==> name@[j] != '\0',
        decreases len - i,
    {
        if name.get_char(i) == '\0' {
            assert(name@[i as int] == '\0');
            return Err(ValueError::NulInName);
        }
        i = i + 1;
    }
    Ok(())
}

/// Whether a message that is there can be opened so.
pub fn check_open(name: &str, mode: OperationMode) -> (checked: Result<(), ValueError>)
    ensures
        checked == (if name@.len() == 0 {
            Err(ValueError::EmptyName)
        } else if mode is CreateOnly {
            Err(ValueError::CreateMode)
        } else if name_error(name@) is Some {
            Err(ValueError::NulInName)
        } else {
            Ok(())
        }),
{
    if name.is_empty() {
        return Err(ValueError::EmptyName);
    }
    if mode == OperationMode::CreateOnly {
        return Err(ValueError::CreateMode);
    }
    check_name(name)
}

/// Whether `size` bytes may be written, and which way.
pub open spec fn write_path(mode: OperationMode, size: nat, capacity: nat) -> Result<
    WritePath,
    HandleError,
> {
    if !mode.writes() {
        Err(HandleError::Permission(PermissionError::ReadOnly))
    } else if size > capacity {
        Err(
            HandleError::Value(
                ValueError::TooLarge { max_size: capacity as usize, size: size as usize },
            ),
        )
    } else if mode is WriteAsync {
        Ok(WritePath::Async)
    } else {
        Ok(WritePath::Sync)
    }
}

pub fn check_write(mode: OperationMode, size: usize, capacity: usize) -> (path: Result<
    WritePath,
    HandleError,
>)
    ensures
        path == write_path(mode, size as nat, capacity as nat),
{
    match mode.write_permission() {
        Ok(()) => {},
        Err(error) => return Err(HandleError::Permission(error)),
    }
    if size > capacity {
        return Err(HandleError::Value(ValueError::TooLarge { max_size: capacity, size }));
    }
    if mode == OperationMode::WriteAsync {
        Ok(WritePath::Async)
    } else {
        Ok(WritePath::Sync)
    }
}

/// The memory after a reader took the message and gave it back.
pub open spec fn read_once(region: Region) -> Region {
    region.changed(ReaderChange::Register).released()
}

/// Whether the counters have room for one more reader and one more read.
pub open spec fn has_room(region: Region) -> bool {
    region.counts().active_readers < u16::MAX && region.counts().data_consumed < u16::MAX
}

/// What is queued for the writer thread.
pub struct Outgoing {
    pub thread: WriterThread,
    pub pending: Seq<Seq<u8>>,
}

/// What the reader thread has queued.
pub struct Incoming {
    pub thread: ReaderThread,
    pub pending: Seq<(u64, Seq<u8>)>,
}

/// A handle as a mathematical value.
pub struct Handle {
    pub region: Region,
    pub name: Seq<char>,
    pub op_mode: OperationMode,
    pub last_written: u64,
    pub last_read: u64,
    pub sender: Option<Outgoing>,
    pub receiver: Option<Incoming>,
}

impl Handle {
    /// A new handle: if it may read, it counts as a reader.
    pub open spec fn new(region: Region, name: Seq<char>, op_mode: OperationMode) -> Handle {
        Handle {
            region: if op_mode.reads() {
                region.changed(ReaderChange::AddConsumer)
            } else {
                region
            },
            name,
            op_mode,
            last_written: 0,
            last_read: 0,
            sender: None,
            receiver: if op_mode is ReadAsync {
                Some(
                    Incoming {
                        thread: ReaderThread { last_version: 0, phase: ReaderPhase::Check },
                        pending: Seq::empty(),
                    },
                )
            } else {
                None
            },
        }
    }

    /// What is queued to be written fits, and who reads in the background has a
    /// queue for it.
    pub open spec fn wf(self) -> bool {
        &&& self.region.wf()
        &&& self.receiver is Some <==> self.op_mode is ReadAsync
        &&& self.sender matches Some(sender) ==> {
            &&& sender.thread.phase is Receive || sender.thread.phase is Finished
            &&& forall|i: int|
                0 <= i < sender.pending.len() ==> (#[trigger] sender.pending[i]).len()
                    <= self.region.payload.len()
        }
        &&& self.receiver matches Some(receiver) ==> {
            receiver.thread.phase is Check || receiver.thread.phase is Finished
        }
    }

    /// After a write of `data`, which does nothing once the message is stopped.
    pub open spec fn written(self, data: Seq<u8>) -> Handle {
        if self.region.stopped() {
            self
        } else {
            Handle {
                region: self.region.started().overwritten(data).published(data.len() as usize),
                last_written: sequence_after(self.region.sequence()),
                ..self
            }
        }
    }

    /// What a write of `data` returns.
    pub open spec fn write_result(self) -> Option<u64> {
        if self.region.stopped() {
            None
        } else {
            Some(sequence_after(self.region.sequence()))
        }
    }

    /// Whether the writer thread has ended.
    pub open spec fn writer_ended(self) -> bool {
        self.sender is Some && self.sender->Some_0.thread.phase is Finished
    }

    /// With `data` queued to be written.
    pub open spec fn enqueued(self, data: Seq<u8>) -> Handle {
        let sender = match self.sender {
            Some(sender) => sender,
            None => Outgoing {
                thread: WriterThread { phase: WriterPhase::Receive },
                pending: Seq::empty(),
            },
        };
        Handle {
            sender: Some(Outgoing { pending: sender.pending.push(data), ..sender }),
            ..self
        }
    }

    /// Whether the writer thread can write what comes next in its queue.
    pub open spec fn writer_ready(self) -> bool {
        &&& self.sender is Some
        &&& !(self.sender->Some_0.thread.phase is Finished)
        &&& self.sender->Some_0.pending.len() > 0
        &&& !self.region.write_sleeps()
    }

    /// After it has. If the message is stopped it ends, and the rest of the
    /// queue is lost.
    pub open spec fn writer_turn(self) -> Handle {
        let sender = self.sender->Some_0;
        Handle {
            sender: Some(
                if self.region.stopped() {
                    Outgoing {
                        thread: WriterThread { phase: WriterPhase::Finished },
                        pending: Seq::empty(),
                    }
                } else {
                    Outgoing { pending: sender.pending.skip(1), ..sender }
                },
            ),
            ..self.written(sender.pending[0])
        }
    }

    /// Whether the reader thread can go on: there is a message that it has not
    /// read, or it finds the message stopped.
    pub open spec fn reader_ready(self) -> bool {
        &&& self.receiver is Some
        &&& !(self.receiver->Some_0.thread.phase is Finished)
        &&& self.region.stopped() || !self.region.read_sleeps(
            self.receiver->Some_0.thread.last_version,
            true,
        )
    }

    /// After it has.
    pub open spec fn reader_turn(self) -> Handle {
        let receiver = self.receiver->Some_0;
        if self.region.stopped() {
            Handle {
                receiver: Some(
                    Incoming {
                        thread: ReaderThread { phase: ReaderPhase::Finished, ..receiver.thread },
                        ..receiver
                    },
                ),
                ..self
            }
        } else {
            Handle {
                region: read_once(self.region),
                receiver: Some(
                    Incoming {
                        thread: ReaderThread {
                            last_version: self.region.sequence(),
                            ..receiver.thread
                        },
                        pending: receiver.pending.push((self.region.sequence(), self.region.data())),
                    },
                ),
                ..self
            }
        }
    }

    /// Whether a read has to wait.
    pub open spec fn read_waits(self, block: bool) -> bool {
        match self.receiver {
            Some(receiver) => block && receiver.pending.len() == 0 && !(
            receiver.thread.phase is Finished),
            None => self.region.read_sleeps(self.last_read, block),
        }
    }

    /// Whether a read stays within the range of the counters.
    pub open spec fn read_fits(self) -> bool {
        self.receiver is None && self.region.sequence() != self.last_read ==> has_room(self.region)
    }

    /// What a read that does not wait gives: the next of the queue if there is
    /// one, or the message itself if it is another than the last.
    pub open spec fn read_result(self) -> Option<Seq<u8>> {
        match self.receiver {
            Some(receiver) => if receiver.pending.len() > 0 {
                Some(receiver.pending[0].1)
            } else {
                None
            },
            None => if self.region.sequence() != self.last_read {
                Some(self.region.data())
            } else {
                None
            },
        }
    }

    /// After such a read.
    pub open spec fn read(self) -> Handle {
        if self.read_result() is None {
            self
        } else {
            match self.receiver {
                Some(receiver) => Handle {
                    last_read: receiver.pending[0].0,
                    receiver: Some(Incoming { pending: receiver.pending.skip(1), ..receiver }),
                    ..self
                },
                None => Handle {
                    region: read_once(self.region),
                    last_read: self.region.sequence(),
                    ..self
                },
            }
        }
    }

    pub open spec fn stop(self) -> Handle {
        Handle {
            region: self.region.with_state(
                SequenceState { stopped: true, ..self.region.state() },
            ).notify(Channel::Writer).notify(Channel::ReaderDone),
            sender: None,
            ..self
        }
    }
}

/// The writer thread and its queue.
pub struct WriterQueue {
    pub thread: WriterThread,
    pub pending: VecDeque<SenderQueueData>,
}

impl View for WriterQueue {
    type V = Outgoing;

    open spec fn view(&self) -> Outgoing {
        Outgoing {
            thread: self.thread,
            pending: Seq::new(self.pending@.len(), |i: int| self.pending@[i]@),
        }
    }
}

/// The reader thread and its queue.
pub struct ReaderQueue {
    pub thread: ReaderThread,
    pub pending: VecDeque<ReceiverQueueData>,
}

impl View for ReaderQueue {
    type V = Incoming;

    open spec fn view(&self) -> Incoming {
        Incoming {
            thread: self.thread,
            pending: Seq::new(self.pending@.len(), |i: int| self.pending@[i]@),
        }
    }
}

/// A handle on a message.
pub struct PythonSharedMessage {
    pub shared_memory: SharedMessage,
    pub name: String,
    pub op_mode: OperationMode,
    pub last_written_sequence: u64,
    pub last_read_sequence: u64,
    pub sender: Option<WriterQueue>,
    pub receiver: Option<ReaderQueue>,
}

impl View for PythonSharedMessage {
    type V = Handle;

    open spec fn view(&self) -> Handle {
        Handle {
            region: self.shared_memory@,
            name: self.name@,
            op_mode: self.op_mode,
            last_written: self.last_written_sequence,
            last_read: self.last_read_sequence,
            sender: match self.sender {
                Some(sender) => Some(sender@),
                None => None,
            },
            receiver: match self.receiver {
                Some(receiver) => Some(receiver@),
                None => None,
            },
        }
    }
}

impl PythonSharedMessage {
    /// Makes a message with room for `size` bytes, and a handle on it.
    pub fn create(
        name: String,
        size: usize,
        mode: OperationMode,
        reader_wait_policy: ReaderWaitPolicy,
    ) -> (created: Result<Self, ValueError>)
        requires
            size > 0,
        ensures
            match created {
                Ok(handle) => name_error(name@) is None && handle@.wf() && handle@ == Handle::new(
                    Region::zeroed(size as nat).changed(
                        ReaderChange::SetTarget(reader_wait_policy.target()),
                    ),
                    name@,
                    mode,
                ),
                Err(error) => name_error(name@) == Some(error),
            },
    {
        match check_name(name.as_str()) {
            Ok(()) => {},
            Err(error) => return Err(error),
        }
        let mut shared_memory = SharedMessage::zeroed(size);
        proof {
            let counts = shared_memory@.counts();
            assert(counts.consumers == 0);
            law_readers_round_trip(
                counts.changed(ReaderChange::SetTarget(reader_wait_policy.target()))->Some_0,
            );
        }
        shared_memory.set_target_read_count(reader_wait_policy.to_target());
        Ok(Self::new(shared_memory, name, mode))
    }

    /// Makes a handle on a message that is there.
    pub fn open(shared_memory: SharedMessage, name: String, mode: OperationMode) -> (opened: Result<
        Self,
        ValueError,
    >)
        requires
            shared_memory@.wf(),
            mode.reads() ==> shared_memory@.counts().consumers < u16::MAX,
        ensures
            match opened {
                Ok(handle) => name_error(name@) is None && !(mode is CreateOnly) && handle@.wf()
                    && handle@ == Handle::new(shared_memory@, name@, mode),
                Err(ValueError::EmptyName) => name@.len() == 0,
                Err(ValueError::CreateMode) => name@.len() > 0 && mode is CreateOnly,
                Err(ValueError::NulInName) => !(mode is CreateOnly) && name_error(name@) == Some(
                    ValueError::NulInName,
                ),
                Err(_) => false,
            },
    {
        match check_open(name.as_str(), mode) {
            Ok(()) => {},
            Err(error) => return Err(error),
        }
        Ok(Self::new(shared_memory, name, mode))
    }

    pub fn new(shared_memory: SharedMessage, name: String, op_mode: OperationMode) -> (handle: Self)
        requires
            shared_memory@.wf(),
            op_mode.reads() ==> shared_memory@.counts().consumers < u16::MAX,
        ensures
            handle@ == Handle::new(shared_memory@, name@, op_mode),
            handle@.wf(),
    {
        let mut shared_memory = shared_memory;
        if op_mode.can_read() {
            shared_memory.add_reader();
        }
        let receiver = if op_mode == OperationMode::ReadAsync {
            Some(ReaderQueue { thread: ReaderThread::new(), pending: VecDeque::new() })
        } else {
            None
        };
        let handle = PythonSharedMessage {
            shared_memory,
            name,
            op_mode,
            last_written_sequence: 0,
            last_read_sequence: 0,
            sender: None,
            receiver,
        };
        proof {
            if handle@.receiver is Some {
                assert(handle@.receiver->Some_0.pending =~= Seq::empty());
            }
        }
        handle
    }

    /// Gives the handle back, which then does not count as a reader any more.
    pub fn close(self) -> (shared_memory: SharedMessage)
        requires
            self@.wf(),
            self@.op_mode.reads() ==> self@.region.counts().consumers > 0,
        ensures
            shared_memory@ == (if self@.op_mode.reads() {
                self@.region.changed(ReaderChange::RemoveConsumer)
            } else {
                self@.region
            }),
            shared_memory@.wf(),
    {
        let mut shared_memory = self.shared_memory;
        if self.op_mode.can_read() {
            shared_memory.remove_reader();
        }
        shared_memory
    }

    /// Writes `data`, or has it written in the background. The version is known
    /// only where it was written at once, and not if the message is stopped.
    pub fn write(&mut self, data: &[u8]) -> (version: Result<Option<u64>, HandleError>)
        requires
            old(self)@.wf(),
            old(self)@.op_mode is WriteSync && data@.len() <= old(self)@.region.payload.len()
                ==> !old(self)@.region.write_sleeps(),
        ensures
            final(self)@.wf(),
            match write_path(old(self)@.op_mode, data@.len(), old(self)@.region.payload.len()) {
                Ok(WritePath::Sync) => version == Ok::<Option<u64>, HandleError>(
                    old(self)@.write_result(),
                ) && final(self)@ == old(self)@.written(data@),
                Ok(WritePath::Async) => if old(self)@.writer_ended() {
                    version == Err::<Option<u64>, HandleError>(
                        HandleError::Value(ValueError::QueueStopped),
                    ) && final(self)@ == old(self)@
                } else {
                    version == Ok::<Option<u64>, HandleError>(None) && final(self)@ == old(
                        self,
                    )@.enqueued(data@)
                },
                Err(error) => version == Err::<Option<u64>, HandleError>(error) && final(self)@
                    == old(self)@,
            },
    {
        match check_write(self.op_mode, data.len(), self.capacity()) {
            Err(error) => Err(error),
            Ok(WritePath::Async) => match self.write_async(data) {
                Ok(()) => Ok(None),
                Err(error) => Err(HandleError::Value(error)),
            },
            Ok(WritePath::Sync) => Ok(self.write_sync(data)),
        }
    }

    pub fn write_sync(&mut self, data: &[u8]) -> (version: Option<u64>)
        requires
            old(self)@.wf(),
            !old(self)@.region.write_sleeps(),
            !old(self)@.region.stopped() ==> data@.len() <= old(self)@.region.payload.len(),
        ensures
            final(self)@.wf(),
            version == old(self)@.write_result(),
            final(self)@ == old(self)@.written(data@),
    {
        let sequence = self.shared_memory.write_slice(data);
        if let Some(sequence) = sequence {
            self.last_written_sequence = sequence;
        }
        sequence
    }

    /// Queues `data`, and starts the writer thread with the first.
    pub fn write_async(&mut self, data: &[u8]) -> (queued: Result<(), ValueError>)
        requires
            old(self)@.wf(),
            data@.len() <= old(self)@.region.payload.len(),
        ensures
            final(self)@.wf(),
            queued == (if old(self)@.writer_ended() {
                Err(ValueError::QueueStopped)
            } else {
                Ok(())
            }),
            final(self)@ == (if queued is Ok {
                old(self)@.enqueued(data@)
            } else {
                old(self)@
            }),
    {
        let queue_data = SenderQueueData::new(data);
        let mut sender = match self.sender.take() {
            Some(sender) => sender,
            None => WriterQueue { thread: WriterThread::new(), pending: VecDeque::new() },
        };
        if sender.thread.is_finished() {
            self.sender = Some(sender);
            return Err(ValueError::QueueStopped);
        }
        let ghost before = sender@.pending;
        sender.pending.push_back(queue_data);
        assert(sender@.pending =~= before.push(data@));
        self.sender = Some(sender);
        assert(old(self)@.sender is None ==> before =~= Seq::empty());
        Ok(())
    }

    /// One turn of the writer thread: it writes what comes next in its queue.
    /// `false` where it has nothing to do, or has to wait.
    pub fn advance_writer(&mut self) -> (advanced: bool)
        requires
            old(self)@.wf(),
        ensures
            final(self)@.wf(),
            advanced == old(self)@.writer_ready(),
            final(self)@ == (if advanced {
                old(self)@.writer_turn()
            } else {
                old(self)@
            }),
    {
        let mut sender = match self.sender.take() {
            Some(sender) => sender,
            None => return false,
        };
        if sender.thread.is_finished() || sender.pending.len() == 0
            || self.shared_memory.write_would_wait() {
            self.sender = Some(sender);
            return false;
        }
        let ghost before = sender@.pending;
        let received = sender.pending.pop_front();
        sender.thread.resume(WriterEvent::Received(received.is_some()));
        if let Some(data) = received {
            assert(data@ == before[0]);
            assert(sender@.pending =~= before.skip(1));
            let version = self.write_sync(data.bytes());
            sender.thread.resume(WriterEvent::Written(version));
            sender.thread.resume(WriterEvent::Stored);
        }
        if sender.thread.is_finished() {
            sender.pending = VecDeque::new();
            assert(sender@.pending =~= Seq::empty());
        }
        self.sender = Some(sender);
        true
    }

    /// A guard to write into the message itself; `None` once it is stopped.
    pub fn write_guard(&mut self) -> (guard: Result<Option<PythonWriteGuard>, PermissionError>)
        requires
            old(self)@.wf(),
            old(self)@.op_mode.writes() ==> !old(self)@.region.write_sleeps(),
        ensures
            final(self)@.wf(),
            guard is Err <==> !old(self)@.op_mode.writes(),
            guard matches Err(error) ==> error == PermissionError::ReadOnly && final(self)@ == old(
                self,
            )@,
            guard matches Ok(guard) ==> {
                &&& guard is None <==> old(self)@.region.stopped()
                &&& guard is None ==> final(self)@ == old(self)@
                &&& guard matches Some(guard) ==> guard.cursor.position == 0 && guard.inner is Some
                    && final(self)@ == (Handle {
                    region: old(self)@.region.started(),
                    ..old(self)@
                })
            },
    {
        match self.op_mode.write_permission() {
            Ok(()) => {},
            Err(error) => return Err(error),
        }
        match self.shared_memory.acquire_write_guard() {
            Some(guard) => Ok(Some(PythonWriteGuard::new(guard))),
            None => Ok(None),
        }
    }

    /// Whether a read has to wait.
    pub fn read_would_wait(&self, block: bool) -> (waits: bool)
        requires
            self@.wf(),
        ensures
            waits == self@.read_waits(block),
    {
        match &self.receiver {
            Some(receiver) => block && receiver.pending.len() == 0
                && !receiver.thread.is_finished(),
            None => self.shared_memory.read_would_wait(self.last_read_sequence, block),
        }
    }

    /// Reads a copy of a message that was not read before, if there is one; for
    /// handles that may read.
    pub fn read_py(&mut self, block: bool) -> (bytes: Result<Option<RustPyBytes>, PermissionError>)
        requires
            old(self)@.wf(),
            old(self)@.op_mode.reads() ==> !old(self)@.read_waits(block) && old(self)@.read_fits(),
        ensures
            final(self)@.wf(),
            bytes is Err <==> !old(self)@.op_mode.reads(),
            bytes matches Err(error) ==> error == PermissionError::WriteOnly && final(self)@ == old(
                self,
            )@,
            bytes matches Ok(bytes) ==> {
                &&& final(self)@ == old(self)@.read()
                &&& bytes is Some <==> old(self)@.read_result() is Some
                &&& bytes matches Some(bytes) ==> Some(bytes@) == old(self)@.read_result()
            },
    {
        match self.op_mode.read_permission() {
            Ok(()) => Ok(self.read(block)),
            Err(error) => Err(error),
        }
    }

    /// Reads a copy of a message that was not read before, if there is one.
    pub fn read(&mut self, block: bool) -> (bytes: Option<RustPyBytes>)
        requires
            old(self)@.wf(),
            !old(self)@.read_waits(block),
            old(self)@.read_fits(),
        ensures
            final(self)@.wf(),
            final(self)@ == old(self)@.read(),
            bytes is Some <==> old(self)@.read_result() is Some,
            bytes matches Some(bytes) ==> Some(bytes@) == old(self)@.read_result(),
    {
        if self.op_mode == OperationMode::ReadAsync {
            self.read_async(block)
        } else {
            self.read_sync(block)
        }
    }

    /// Reads from the message itself.
    pub fn read_sync(&mut self, block: bool) -> (bytes: Option<RustPyBytes>)
        requires
            old(self)@.wf(),
            old(self)@.receiver is None,
            !old(self)@.read_waits(block),
            old(self)@.read_fits(),
        ensures
            final(self)@.wf(),
            final(self)@ == old(self)@.read(),
            bytes is Some <==> old(self)@.read_result() is Some,
            bytes matches Some(bytes) ==> Some(bytes@) == old(self)@.read_result(),
    {
        let last_read_version: u64 = self.last_read_sequence;
        let guard = match self.shared_memory.read(last_read_version, block) {
            Some(guard) => guard,
            None => return None,
        };
        self.last_read_sequence = guard.sequence();
        let bytes = RustPyBytes::new(guard.data(&self.shared_memory));
        proof {
            law_readers_round_trip(
                old(self)@.region.counts().changed(ReaderChange::Register)->Some_0,
            );
        }
        guard.release(&mut self.shared_memory);
        Some(bytes)
    }

    /// Takes what comes next in the queue of the reader thread. A blocking read
    /// of an empty queue ends when the thread has.
    pub fn read_async(&mut self, block: bool) -> (bytes: Option<RustPyBytes>)
        requires
            old(self)@.wf(),
            old(self)@.receiver is Some,
            !old(self)@.read_waits(block),
        ensures
            final(self)@.wf(),
            final(self)@ == old(self)@.read(),
            bytes is Some <==> old(self)@.read_result() is Some,
            bytes matches Some(bytes) ==> Some(bytes@) == old(self)@.read_result(),
    {
        let mut receiver = match self.receiver.take() {
            Some(receiver) => receiver,
            None => return None,
        };
        let ghost before = receiver@.pending;
        let message = receiver.pending.pop_front();
        let bytes = match message {
            Some(message) => {
                assert(message@ == before[0]);
                assert(receiver@.pending =~= before.skip(1));
                self.last_read_sequence = message.sequence;
                Some(message.data)
            },
            None => None,
        };
        self.receiver = Some(receiver);
        bytes
    }

    /// One turn of the reader thread: it queues a message that it has not seen,
    /// or ends when the message is stopped. `false` where it has to wait.
    pub fn advance_reader(&mut self) -> (advanced: bool)
        requires
            old(self)@.wf(),
            old(self)@.reader_ready() && !old(self)@.region.stopped() ==> has_room(
                old(self)@.region,
            ),
        ensures
            final(self)@.wf(),
            advanced == old(self)@.reader_ready(),
            final(self)@ == (if advanced {
                old(self)@.reader_turn()
            } else {
                old(self)@
            }),
    {
        let mut receiver = match self.receiver.take() {
            Some(receiver) => receiver,
            None => return false,
        };
        let last_version: u64 = receiver.thread.last_version;
        let stopped = self.shared_memory.is_stopped();
        if receiver.thread.is_finished() || (!stopped && self.shared_memory.read_would_wait(
            last_version,
            true,
        )) {
            self.receiver = Some(receiver);
            return false;
        }
        receiver.thread.resume(ReaderEvent::Stopped(stopped));
        if !stopped {
            if let Some(guard) = self.shared_memory.read(last_version, true) {
                let queue_data = ReceiverQueueData {
                    sequence: guard.sequence(),
                    data: RustPyBytes::new(guard.data(&self.shared_memory)),
                };
                proof {
                    law_readers_round_trip(
                        old(self)@.region.counts().changed(ReaderChange::Register)->Some_0,
                    );
                }
                guard.release(&mut self.shared_memory);
                receiver.thread.resume(ReaderEvent::Message(Some(queue_data.sequence)));
                let ghost before = receiver@.pending;
                receiver.pending.push_back(queue_data);
                assert(receiver@.pending =~= before.push(
                    (old(self)@.region.sequence(), old(self)@.region.data()),
                ));
                receiver.thread.resume(ReaderEvent::Sent(true));
            }
        }
        self.receiver = Some(receiver);
        true
    }

    /// A guard that holds the message, if it is another than the last.
    pub fn read_guard(&mut self, block: bool) -> (guard: Result<
        Option<PythonReadGuard>,
        PermissionError,
    >)
        requires
            old(self)@.wf(),
            old(self)@.op_mode.reads() ==> !old(self)@.region.read_sleeps(
                old(self)@.last_read,
                block,
            ),
            old(self)@.op_mode.reads() && old(self)@.region.sequence() != old(self)@.last_read
                ==> old(self)@.region.counts().active_readers < u16::MAX,
        ensures
            final(self)@.wf(),
            guard is Err <==> !old(self)@.op_mode.reads(),
            guard matches Err(error) ==> error == PermissionError::WriteOnly && final(self)@ == old(
                self,
            )@,
            guard matches Ok(guard) ==> {
                &&& guard is Some <==> old(self)@.region.sequence() != old(self)@.last_read
                &&& guard is None ==> final(self)@ == old(self)@
                &&& guard matches Some(guard) ==> {
                    &&& guard.inner matches Some(held)
                    &&& held@ == old(self)@.region.sequence()
                    &&& guard.cursor.position == 0
                    &&& final(self)@ == (Handle {
                        region: old(self)@.region.changed(ReaderChange::Register),
                        last_read: old(self)@.region.sequence(),
                        ..old(self)@
                    })
                }
            },
    {
        match self.op_mode.read_permission() {
            Ok(()) => {},
            Err(error) => return Err(error),
        }
        let last_read: u64 = self.last_read_sequence;
        match self.shared_memory.read(last_read, block) {
            Some(guard) => {
                self.last_read_sequence = guard.sequence();
                Ok(Some(PythonReadGuard::new(guard)))
            },
            None => Ok(None),
        }
    }

    pub fn is_new_version_available(&self) -> (available: Result<bool, PermissionError>)
        ensures
            available == (if self@.op_mode.reads() {
                Ok(self@.region.sequence() != self@.last_read)
            } else {
                Err(PermissionError::WriteOnly)
            }),
    {
        match self.op_mode.read_permission() {
            Ok(()) => Ok(self.shared_memory.has_new_data(self.last_read_sequence)),
            Err(error) => Err(error),
        }
    }

    pub fn last_written_version(&self) -> (version: u64)
        ensures
            version == self@.last_written,
    {
        self.last_written_sequence
    }

    pub fn last_read_version(&self) -> (version: u64)
        ensures
            version == self@.last_read,
    {
        self.last_read_sequence
    }

    pub fn name(&self) -> (name: &str)
        ensures
            name@ == self@.name,
    {
        self.name.as_str()
    }

    pub fn capacity(&self) -> (capacity: usize)
        ensures
            capacity == self@.region.payload.len(),
    {
        self.shared_memory.capacity()
    }

    pub fn is_stopped(&self) -> (stopped: bool)
        ensures
            stopped == self@.region.stopped(),
    {
        self.shared_memory.is_stopped()
    }

    /// Stops the message, and closes the queue of the writer thread.
    pub fn stop(&mut self)
        requires
            old(self)@.wf(),
        ensures
            final(self)@ == old(self)@.stop(),
            final(self)@.wf(),
    {
        self.shared_memory.stop();
        self.sender = None;
    }
}

} // verus!
