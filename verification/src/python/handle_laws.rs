//! What each use of a handle does, and what becomes of what is queued.
use crate::python::message::{
    has_room, name_error, write_path, Handle, HandleError, PythonSharedMessage, ValueError,
    WritePath,
};
use crate::python::operation_mode::{OperationMode, PermissionError};
use crate::python::read_all::is_read;
use crate::python::bytes::RustPyBytes;
use crate::python::reader_wait_policy::ReaderWaitPolicy;
use crate::python::threads::{
    ReaderAction, ReaderEvent, ReaderPhase, ReaderThread, WriterAction, WriterEvent, WriterPhase,
    WriterThread,
};
use crate::primitives::shared_futex::UNLOCKED;
use crate::shared_message::effect_laws::{
    law_changed_counters, law_read_effect, law_stop_effect, law_write_effect,
};
use crate::shared_message::operation::ReaderChange;
use crate::shared_message::packed::law_readers_word_round_trip;
use crate::shared_message::region::Region;
use crate::shared_message::SharedMessage;
use vstd::prelude::*;

verus! {

/// Who may read may not write, and the other way round; who only creates may do
/// neither.
pub proof fn law_permissions(mode: OperationMode, can_read: bool, can_write: bool)
    requires
        call_ensures(OperationMode::can_read, (mode,), can_read),
        call_ensures(OperationMode::can_write, (mode,), can_write),
    ensures
        can_read == (mode == OperationMode::ReadSync || mode == OperationMode::ReadAsync),
        can_write == (mode == OperationMode::WriteSync || mode == OperationMode::WriteAsync),
        mode.reads() == (mode == OperationMode::ReadSync || mode == OperationMode::ReadAsync),
        mode.writes() == (mode == OperationMode::WriteSync || mode == OperationMode::WriteAsync),
{
}

/// The memory holds as target what a policy counts, as far as a counter can: all
/// readers, as many as there can be, or so many.
pub proof fn law_policy_target(policy: ReaderWaitPolicy)
    ensures
        policy == ReaderWaitPolicy::All() ==> policy.target() == 65535 && policy.count()
            == 0xffff_ffff,
        policy matches ReaderWaitPolicy::Count(count) ==> policy.count() == count,
        policy matches ReaderWaitPolicy::Count(count) ==> policy.target() == (if count > 65535 {
            65535
        } else {
            count
        }),
{
}

/// A name is taken if it is not empty and has no NUL in it.
pub proof fn law_names(name: Seq<char>)
    ensures
        name_error(name) is None <==> name.len() > 0 && forall|i: int|
            0 <= i < name.len() ==> #[trigger] name[i] != '\0',
        name.len() == 0 ==> name_error(name) == Some(ValueError::EmptyName),
        name.len() > 0 && name_error(name) is Some ==> name_error(name) == Some(
            ValueError::NulInName,
        ),
{
    if name.contains('\0') {
        let i = choose|i: int| 0 <= i < name.len() && name[i] == '\0';
        assert(name[i] == '\0');
    } else {
        assert forall|i: int| 0 <= i < name.len() implies #[trigger] name[i] != '\0' by {
            assert(name.contains(name[i]));
        }
    }
}

/// A write is refused to who may not write, and then if it does not fit; the
/// others go the way of their mode.
pub proof fn law_write_paths(mode: OperationMode, size: nat, capacity: nat)
    requires
        size <= usize::MAX,
        capacity <= usize::MAX,
    ensures
        write_path(mode, size, capacity) == Ok::<WritePath, HandleError>(WritePath::Sync) <==> mode
            == OperationMode::WriteSync && size <= capacity,
        write_path(mode, size, capacity) == Ok::<WritePath, HandleError>(WritePath::Async) <==> mode
            == OperationMode::WriteAsync && size <= capacity,
        mode != OperationMode::WriteSync && mode != OperationMode::WriteAsync ==> write_path(
            mode,
            size,
            capacity,
        ) == Err::<WritePath, HandleError>(HandleError::Permission(PermissionError::ReadOnly)),
        (mode == OperationMode::WriteSync || mode == OperationMode::WriteAsync) && size > capacity
            ==> (write_path(mode, size, capacity) matches Err(HandleError::Value(error)) && error
            == (ValueError::TooLarge { max_size: capacity as usize, size: size as usize })),
{
}

/// Opening a handle registers one more reader if its mode may read, in the
/// foreground or in the background, and none otherwise; nothing else changes. The
/// handle has read and written nothing, and has a queue if and only if it reads
/// in the background.
pub proof fn law_open_registers_reader(region: Region, name: Seq<char>, mode: OperationMode)
    requires
        region.counts().consumers < 65535,
    ensures
        ({
            let handle = Handle::new(region, name, mode);
            let reads = mode == OperationMode::ReadSync || mode == OperationMode::ReadAsync;
            &&& handle.region.counts().consumers == region.counts().consumers + (if reads {
                1int
            } else {
                0
            })
            &&& handle.region.counts().target_read == region.counts().target_read
            &&& handle.region.counts().active_readers == region.counts().active_readers
            &&& handle.region.counts().data_consumed == region.counts().data_consumed
            &&& handle.region == (Region { readers_word: handle.region.readers_word, ..region })
            &&& handle.name == name
            &&& handle.op_mode == mode
            &&& handle.last_read == 0
            &&& handle.last_written == 0
            &&& handle.sender is None
            &&& handle.receiver is Some <==> mode == OperationMode::ReadAsync
            &&& handle.receiver matches Some(receiver) ==> receiver.pending.len() == 0
                && receiver.thread.last_version == 0 && !(receiver.thread.phase is Finished)
        }),
{
    law_changed_counters(region, ReaderChange::AddConsumer);
}

/// Opening a handle on a memory and closing it gives the memory back as it was.
pub proof fn law_open_and_close(
    memory: SharedMessage,
    name: String,
    mode: OperationMode,
    handle: PythonSharedMessage,
    given_back: SharedMessage,
)
    requires
        memory@.counts().consumers < 65535,
        call_ensures(PythonSharedMessage::new, (memory, name, mode), handle),
        call_ensures(PythonSharedMessage::close, (handle,), given_back),
    ensures
        mode == OperationMode::ReadSync || mode == OperationMode::ReadAsync
            ==> handle@.region.counts().consumers == memory@.counts().consumers + 1,
        given_back@ == memory@,
{
    law_open_registers_reader(memory@, name@, mode);
    law_changed_counters(memory@, ReaderChange::AddConsumer);
    let added = memory@.counts().changed(ReaderChange::AddConsumer)->Some_0;
    assert(added.changed(ReaderChange::RemoveConsumer) == Some(memory@.counts()));
    law_readers_word_round_trip(memory@.readers_word);
}

/// Closing a handle takes one reader away if it may read, and none otherwise.
pub proof fn law_close_unregisters_reader(handle: PythonSharedMessage, memory: SharedMessage)
    requires
        handle@.region.counts().consumers > 0,
        call_ensures(PythonSharedMessage::close, (handle,), memory),
    ensures
        memory@.counts().consumers == handle@.region.counts().consumers - (if handle@.op_mode
            == OperationMode::ReadSync || handle@.op_mode == OperationMode::ReadAsync {
            1int
        } else {
            0
        }),
        memory@ == (Region { readers_word: memory@.readers_word, ..handle@.region }),
        memory@.counts().target_read == handle@.region.counts().target_read,
        memory@.counts().active_readers == handle@.region.counts().active_readers,
        memory@.counts().data_consumed == handle@.region.counts().data_consumed,
{
    law_changed_counters(handle@.region, ReaderChange::RemoveConsumer);
}

/// A message that was created has the room that was asked for, the target of its
/// policy, one reader if its handle may read, and no message yet.
pub proof fn law_created(
    name: String,
    size: usize,
    mode: OperationMode,
    policy: ReaderWaitPolicy,
    created: Result<PythonSharedMessage, ValueError>,
)
    requires
        size > 0,
        call_ensures(PythonSharedMessage::create, (name, size, mode, policy), created),
    ensures
        created is Ok <==> name_error(name@) is None,
        created matches Ok(handle) ==> {
            let region = handle@.region;
            &&& region.payload.len() == size
            &&& region.sequence() == 0
            &&& !region.stopped()
            &&& region.counts().target_read == (match policy {
                ReaderWaitPolicy::All() => 65535int,
                ReaderWaitPolicy::Count(count) => if count > 65535 {
                    65535int
                } else {
                    count as int
                },
            })
            &&& region.counts().consumers == (if mode == OperationMode::ReadSync || mode
                == OperationMode::ReadAsync {
                1int
            } else {
                0
            })
            &&& region.counts().active_readers == 0
            &&& region.counts().data_consumed == 0
            &&& !region.write_sleeps()
        },
{
    let fresh = Region::zeroed(size as nat);
    law_changed_counters(fresh, ReaderChange::SetTarget(policy.target()));
    let aimed = fresh.changed(ReaderChange::SetTarget(policy.target()));
    law_open_registers_reader(aimed, name@, mode);
}

/// A write through a handle leaves its bytes as the current message and notes the
/// version, which it returns; once the message is stopped it does nothing.
pub proof fn law_handle_write(handle: Handle, data: Seq<u8>)
    requires
        handle.wf(),
        data.len() <= handle.region.payload.len() <= usize::MAX,
    ensures
        handle.region.stopped() ==> handle.write_result() is None && handle.written(data) == handle,
        !handle.region.stopped() ==> {
            let after = handle.written(data);
            &&& after.region.data() == data
            &&& after.region.sequence() == if handle.region.sequence() == 0x3fff_ffff_ffff_ffff {
                1
            } else {
                handle.region.sequence() + 1
            }
            &&& handle.write_result() == Some(after.region.sequence())
            &&& after.last_written == after.region.sequence()
            &&& after.region.counts().data_consumed == 0
            &&& after.region.counts().consumers == handle.region.counts().consumers
            &&& after.region.counts().target_read == handle.region.counts().target_read
            &&& after == (Handle {
                region: after.region,
                last_written: after.last_written,
                ..handle
            })
        },
{
    if !handle.region.stopped() {
        law_write_effect(handle.region, data);
        assert(handle.written(data).region.data() =~= data);
    }
}

/// A read in the foreground gives the current message if it is another than the
/// last, notes its version and counts as one that consumed it; otherwise it gives
/// nothing and changes nothing.
pub proof fn law_handle_read(handle: Handle)
    requires
        handle.wf(),
        handle.receiver is None,
        has_room(handle.region),
    ensures
        handle.read_result() is Some <==> handle.region.sequence() != handle.last_read,
        handle.read_result() is None ==> handle.read() == handle,
        handle.read_result() matches Some(data) ==> {
            let after = handle.read();
            &&& data.len() == handle.region.size
            &&& forall|i: int|
                0 <= i < data.len() ==> #[trigger] data[i] == handle.region.payload[i]
            &&& after.last_read == handle.region.sequence()
            &&& after.region.counts().data_consumed == handle.region.counts().data_consumed + 1
            &&& after.region.counts().active_readers == handle.region.counts().active_readers
            &&& after.region.counts().consumers == handle.region.counts().consumers
            &&& after.region.data() == handle.region.data()
            &&& after.region.sequence() == handle.region.sequence()
            &&& after.region.reader_done_condvar != handle.region.reader_done_condvar
            &&& after == (Handle { region: after.region, last_read: after.last_read, ..handle })
            &&& after.read_result() is None
        },
{
    if handle.read_result() is Some {
        law_read_effect(handle.region);
    }
}

/// A read in the foreground waits as a read of the message does; one in the
/// background only if it is to wait, there is nothing in the queue, and the thread
/// has not ended.
pub proof fn law_handle_read_waits(handle: Handle, block: bool)
    ensures
        handle.receiver is None ==> handle.read_waits(block) == (if handle.region.sequence()
            == handle.last_read {
            block && !handle.region.stopped()
        } else {
            handle.region.writing()
        }),
        handle.receiver matches Some(receiver) ==> handle.read_waits(block) == (block
            && receiver.pending.len() == 0 && receiver.thread.phase != ReaderPhase::Finished),
        handle.read_fits() <==> (handle.receiver is None && handle.region.sequence()
            != handle.last_read ==> handle.region.counts().active_readers < 65535
            && handle.region.counts().data_consumed < 65535),
{
}

/// The reader thread can go on if and only if it has not ended and finds the
/// message stopped, or a message that it has not seen and nobody writes.
pub proof fn law_reader_ready(handle: Handle)
    ensures
        handle.reader_ready() <==> (handle.receiver matches Some(receiver)
            && receiver.thread.phase != ReaderPhase::Finished && (handle.region.stopped() || (
        handle.region.sequence() != receiver.thread.last_version && !handle.region.writing()))),
{
}

/// The writer thread can go on if and only if it has not ended, something is
/// queued, and a write would not wait.
pub proof fn law_writer_ready(handle: Handle)
    ensures
        handle.writer_ready() <==> (handle.sender matches Some(sender) && sender.thread.phase
            != WriterPhase::Finished && sender.pending.len() > 0 && (handle.region.stopped() || (
        handle.region.writer_lock == UNLOCKED && handle.region.counts().active_readers == 0 && (
        handle.region.sequence() == 0 || handle.region.counts().data_consumed
            >= handle.region.counts().target_read || handle.region.counts().data_consumed
            >= handle.region.counts().consumers)))),
        handle.writer_ended() <==> (handle.sender matches Some(sender) && sender.thread.phase
            == WriterPhase::Finished),
{
}

/// One turn of the reader thread keeps all that is queued, in its order. If the
/// message is stopped it ends the thread and does nothing else; otherwise it adds
/// the current message behind what is queued, and remembers that it has seen it.
pub proof fn law_reader_turn(handle: Handle)
    requires
        handle.wf(),
        handle.reader_ready(),
    ensures
        ({
            let before = handle.receiver->Some_0;
            let after = handle.reader_turn();
            let queue = after.receiver->Some_0;
            &&& after.receiver is Some
            &&& queue.pending.len() >= before.pending.len()
            &&& queue.pending.take(before.pending.len() as int) == before.pending
            &&& after == (Handle { region: after.region, receiver: after.receiver, ..handle })
            &&& handle.region.stopped() ==> {
                &&& queue.pending == before.pending
                &&& queue.thread.phase == ReaderPhase::Finished
                &&& after.region == handle.region
            }
            &&& !handle.region.stopped() ==> {
                &&& queue.pending.len() == before.pending.len() + 1
                &&& queue.pending.last().0 == handle.region.sequence()
                &&& queue.pending.last().1 == handle.region.data()
                &&& queue.thread.last_version == handle.region.sequence()
                &&& queue.thread.phase == before.thread.phase
                &&& !after.reader_ready()
            }
            &&& !handle.region.stopped() && has_room(handle.region) ==> {
                &&& after.region.counts().data_consumed == handle.region.counts().data_consumed + 1
                &&& after.region.counts().active_readers == handle.region.counts().active_readers
                &&& after.region.data() == handle.region.data()
                &&& after.region.sequence() == handle.region.sequence()
            }
        }),
{
    let before = handle.receiver->Some_0;
    let after = handle.reader_turn();
    assert(after.receiver->Some_0.pending.take(before.pending.len() as int) =~= before.pending);
    if !handle.region.stopped() && has_room(handle.region) {
        law_read_effect(handle.region);
    }
}

/// A read in the background gives the first of the queue and leaves the rest, or
/// gives nothing and changes nothing if the queue is empty.
pub proof fn law_background_read(handle: Handle)
    requires
        handle.receiver is Some,
    ensures
        ({
            let before = handle.receiver->Some_0;
            let after = handle.read();
            &&& before.pending.len() == 0 ==> handle.read_result() is None && after == handle
            &&& before.pending.len() > 0 ==> {
                &&& handle.read_result() == Some(before.pending[0].1)
                &&& after.last_read == before.pending[0].0
                &&& after.receiver matches Some(queue) && {
                    &&& queue.thread == before.thread
                    &&& queue.pending.len() == before.pending.len() - 1
                    &&& forall|i: int|
                        0 <= i < queue.pending.len() ==> #[trigger] queue.pending[i]
                            == before.pending[i + 1]
                }
                &&& after == (Handle {
                    last_read: after.last_read,
                    receiver: after.receiver,
                    ..handle
                })
            }
        }),
{
}

/// Something that happens to a handle.
pub enum HandleStep {
    ReaderTurn,
    Read,
    Write(Seq<u8>),
    Enqueue(Seq<u8>),
    WriterTurn,
    Stop,
}

pub open spec fn after_step(handle: Handle, step: HandleStep) -> Handle {
    match step {
        HandleStep::ReaderTurn => if handle.reader_ready() {
            handle.reader_turn()
        } else {
            handle
        },
        HandleStep::Read => handle.read(),
        HandleStep::Write(data) => handle.written(data),
        HandleStep::Enqueue(data) => handle.enqueued(data),
        HandleStep::WriterTurn => if handle.writer_ready() {
            handle.writer_turn()
        } else {
            handle
        },
        HandleStep::Stop => handle.stop(),
    }
}

pub open spec fn after_steps(handle: Handle, steps: Seq<HandleStep>) -> Handle
    decreases steps.len(),
{
    if steps.len() == 0 {
        handle
    } else {
        after_step(after_steps(handle, steps.drop_last()), steps.last())
    }
}

/// The messages that the reader thread reads in the course of the steps.
pub open spec fn received(handle: Handle, steps: Seq<HandleStep>) -> Seq<Seq<u8>>
    decreases steps.len(),
{
    if steps.len() == 0 {
        Seq::empty()
    } else {
        let before = after_steps(handle, steps.drop_last());
        let sofar = received(handle, steps.drop_last());
        if steps.last() is ReaderTurn && before.reader_ready() && !before.region.stopped() {
            sofar.push(before.region.data())
        } else {
            sofar
        }
    }
}

/// What the reads among the steps give.
pub open spec fn given(handle: Handle, steps: Seq<HandleStep>) -> Seq<Seq<u8>>
    decreases steps.len(),
{
    if steps.len() == 0 {
        Seq::empty()
    } else {
        let before = after_steps(handle, steps.drop_last());
        let sofar = given(handle, steps.drop_last());
        match (steps.last(), before.read_result()) {
            (HandleStep::Read, Some(data)) => sofar.push(data),
            _ => sofar,
        }
    }
}

/// The bytes of what is queued.
pub open spec fn queued(handle: Handle) -> Seq<Seq<u8>> {
    Seq::new(
        handle.receiver->Some_0.pending.len(),
        |i: int| handle.receiver->Some_0.pending[i].1,
    )
}

/// Whatever is done with a handle that reads in the background, stops among it:
/// what its reads give, followed by what is still queued, is what was queued at
/// first, followed by what the reader thread has read. So nothing is lost, nothing
/// comes twice, and all comes in order.
pub proof fn law_background_reads_lose_nothing(handle: Handle, steps: Seq<HandleStep>)
    requires
        handle.receiver is Some,
    ensures
        after_steps(handle, steps).receiver is Some,
        given(handle, steps) + queued(after_steps(handle, steps)) == queued(handle) + received(
            handle,
            steps,
        ),
    decreases steps.len(),
{
    if steps.len() == 0 {
        assert(given(handle, steps) + queued(handle) =~= queued(handle) + received(handle, steps));
    } else {
        law_background_reads_lose_nothing(handle, steps.drop_last());
        let before = after_steps(handle, steps.drop_last());
        let after = after_steps(handle, steps);
        let old_given = given(handle, steps.drop_last());
        let old_received = received(handle, steps.drop_last());
        match steps.last() {
            HandleStep::ReaderTurn => {
                if before.reader_ready() && !before.region.stopped() {
                    assert(queued(after) =~= queued(before).push(before.region.data()));
                    assert(old_given + queued(before).push(before.region.data()) =~= (old_given
                        + queued(before)).push(before.region.data()));
                    assert(queued(handle) + old_received.push(before.region.data()) =~= (queued(
                        handle,
                    ) + old_received).push(before.region.data()));
                } else {
                    assert(queued(after) =~= queued(before));
                }
            },
            HandleStep::Read => {
                if before.receiver->Some_0.pending.len() > 0 {
                    let first = queued(before)[0];
                    assert(queued(before) =~= seq![first] + queued(after));
                    assert(old_given.push(first) + queued(after) =~= old_given + (seq![first]
                        + queued(after)));
                } else {
                    assert(queued(after) =~= queued(before));
                }
            },
            _ => {
                assert(queued(after) =~= queued(before));
            },
        }
    }
}

/// What is handed to the writer thread comes behind what is queued, which stays
/// as it is; the thread is not ended by it, and nothing else changes.
pub proof fn law_enqueue(handle: Handle, data: Seq<u8>)
    ensures
        ({
            let after = handle.enqueued(data);
            let queue = after.sender->Some_0;
            let before = match handle.sender {
                Some(sender) => sender.pending,
                None => Seq::empty(),
            };
            &&& after.sender is Some
            &&& queue.pending.len() == before.len() + 1
            &&& queue.pending.last() == data
            &&& forall|i: int| 0 <= i < before.len() ==> #[trigger] queue.pending[i] == before[i]
            &&& handle.sender matches Some(sender) ==> queue.thread == sender.thread
            &&& handle.sender is None ==> queue.thread.phase == WriterPhase::Receive
            &&& after == (Handle { sender: after.sender, ..handle })
        }),
{
}

/// One turn of the writer thread writes the first of its queue as a write does and
/// keeps the rest in order. If the message is stopped it writes nothing, ends, and
/// what is queued is lost.
pub proof fn law_writer_turn(handle: Handle)
    requires
        handle.wf(),
        handle.writer_ready(),
        handle.region.payload.len() <= usize::MAX,
    ensures
        ({
            let before = handle.sender->Some_0;
            let after = handle.writer_turn();
            let queue = after.sender->Some_0;
            &&& after.sender is Some
            &&& after.receiver == handle.receiver
            &&& after.last_read == handle.last_read
            &&& after.name == handle.name
            &&& after.op_mode == handle.op_mode
            &&& handle.region.stopped() ==> {
                &&& queue.thread.phase == WriterPhase::Finished
                &&& queue.pending.len() == 0
                &&& after.region == handle.region
                &&& after.last_written == handle.last_written
                &&& after.writer_ended()
            }
            &&& !handle.region.stopped() ==> {
                &&& queue.thread == before.thread
                &&& queue.pending.len() == before.pending.len() - 1
                &&& forall|i: int|
                    0 <= i < queue.pending.len() ==> #[trigger] queue.pending[i]
                        == before.pending[i + 1]
                &&& after.region.data() == before.pending[0]
                &&& after.region.sequence() != handle.region.sequence()
                &&& after.last_written == after.region.sequence()
                &&& after.region.counts().data_consumed == 0
            }
        }),
{
    let data = handle.sender->Some_0.pending[0];
    law_handle_write(handle, data);
}

/// A stop ends the writer's queue and keeps what the reader thread has queued, the
/// message and the versions.
pub proof fn law_handle_stop(handle: Handle)
    ensures
        ({
            let after = handle.stop();
            &&& after.region.stopped()
            &&& after.region.sequence() == handle.region.sequence()
            &&& after.region.payload == handle.region.payload
            &&& after.region.size == handle.region.size
            &&& after.region.readers_word == handle.region.readers_word
            &&& after.region.writer_condvar != handle.region.writer_condvar
            &&& after.region.reader_done_condvar != handle.region.reader_done_condvar
            &&& after.sender is None
            &&& after == (Handle { region: after.region, sender: None, ..handle })
        }),
{
    law_stop_effect(handle.region);
}

/// What one reader gives of many is what it would give alone.
pub proof fn law_is_read(bytes: Option<RustPyBytes>, result: Option<Seq<u8>>)
    ensures
        is_read(bytes, result) <==> (bytes is None <==> result is None) && (bytes is Some
            ==> result is Some && bytes->Some_0@ == result->Some_0),
{
}

/// The reader thread looks for a stop before each read, asks for another message
/// than the last it has read, hands each on once, and ends when it finds the stop
/// or nobody to hand it to.
pub proof fn law_reader_thread(thread: ReaderThread, sequence: u64)
    ensures
        ({
            let check = ReaderThread { phase: ReaderPhase::Check, ..thread };
            let read = check.after(ReaderEvent::Stopped(false));
            let send = read.after(ReaderEvent::Message(Some(sequence)));
            &&& check.next_action() == Some(ReaderAction::IsStopped)
            &&& check.after(ReaderEvent::Stopped(true)).next_action() is None
            &&& read.next_action() == Some(
                ReaderAction::Read { last_seen: thread.last_version },
            )
            &&& read.after(ReaderEvent::Message(None)) == check
            &&& send.next_action() == Some(ReaderAction::Send)
            &&& send.after(ReaderEvent::Sent(false)).next_action() is None
            &&& send.after(ReaderEvent::Sent(true)) == (ReaderThread {
                last_version: sequence,
                phase: ReaderPhase::Check,
            })
        }),
{
}

/// The writer thread waits for something in its queue, writes it, notes the
/// version and begins anew; it ends when the queue is closed or the message
/// stopped.
pub proof fn law_writer_thread(version: u64)
    ensures
        ({
            let receive = WriterThread { phase: WriterPhase::Receive };
            let write = receive.after(WriterEvent::Received(true));
            let store = write.after(WriterEvent::Written(Some(version)));
            &&& receive.next_action() == Some(WriterAction::Receive)
            &&& receive.after(WriterEvent::Received(false)).next_action() is None
            &&& write.next_action() == Some(WriterAction::Write)
            &&& write.after(WriterEvent::Written(None)).next_action() is None
            &&& store.next_action() == Some(WriterAction::Store { version })
            &&& store.after(WriterEvent::Stored) == receive
        }),
{
}

} // verus!
