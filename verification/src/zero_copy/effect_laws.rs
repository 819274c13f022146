//! What each call leaves of a double-buffered message, field by field.
use crate::primitives::shared_futex::{LockAction, LockOperation, UNLOCKED};
use crate::shared_message::packed::law_sequence_after;
use crate::zero_copy::message::ZeroCopySharedMessage;
use crate::zero_copy::operation::{
    AcquireBuffer, AcquirePhase, Publish, PublishPhase, ReadOperation, ReadPhase,
    ReleaseOperation, ReleasePhase,
};
use crate::zero_copy::region::{
    decreased, increased, law_packing, smaller, Action, BufferIndex, Channel, Counter, Event,
    Region, SequenceState,
};
use vstd::prelude::*;

verus! {

/// The counters count up and down by one, and each undoes the other.
pub proof fn law_counters(count: u16)
    ensures
        count < 65535 ==> increased(count) == count + 1,
        count == 65535 ==> increased(count) == 0,
        count > 0 ==> decreased(count) == count - 1,
        count == 0 ==> decreased(count) == 65535,
        decreased(increased(count)) == count,
        increased(decreased(count)) == count,
{
}

/// The smaller of two counts is at most each of them, and one of them.
pub proof fn law_smaller(left: u16, right: u16)
    ensures
        smaller(left, right) <= left,
        smaller(left, right) <= right,
        smaller(left, right) == left || smaller(left, right) == right,
{
}

/// Where the sequence word has what: the sequence in the low 62 bits, then the
/// buffer with the latest data, then the flag of a stop.
pub proof fn law_sequence_layout(word: u64)
    ensures
        SequenceState::unpacked(word).sequence == word % 0x4000_0000_0000_0000,
        SequenceState::unpacked(word).stopped <==> word >= 0x8000_0000_0000_0000,
        SequenceState::unpacked(word).buffer_idx <==> word % 0x8000_0000_0000_0000
            >= 0x4000_0000_0000_0000,
{
}

/// Each buffer has its half of the memory and its own counters; the message in
/// it are its first bytes.
pub proof fn law_message_of_region(region: Region, idx: BufferIndex)
    requires
        region.wf(),
    ensures
        region.sequence() == region.sequence_word % 0x4000_0000_0000_0000,
        region.stopped() <==> region.sequence_word >= 0x8000_0000_0000_0000,
        region.latest() <==> region.sequence_word % 0x8000_0000_0000_0000
            >= 0x4000_0000_0000_0000,
        region.of(false) == region.first,
        region.of(true) == region.second,
        region.buffer(idx).len() == region.buffer_size,
        forall|i: int|
            0 <= i < region.buffer_size ==> #[trigger] region.buffer(false)[i] == region.buffers[i],
        forall|i: int|
            0 <= i < region.buffer_size ==> #[trigger] region.buffer(true)[i]
                == region.buffers[region.buffer_size + i],
        region.data(idx).len() == region.of(idx).size,
        forall|i: int|
            0 <= i < region.of(idx).size ==> #[trigger] region.data(idx)[i] == region.buffer(
                idx,
            )[i],
{
}

/// In fresh memory there is no message, nobody waits for anything and nobody is
/// waited for.
pub proof fn law_fresh_memory(buffer_size: usize, spare: nat, last_seen: u64, block: bool)
    ensures
        ({
            let fresh = Region::zeroed(buffer_size, spare);
            &&& fresh.wf()
            &&& fresh.sequence() == 0
            &&& !fresh.stopped()
            &&& fresh.target == 0
            &&& fresh.consumers == 0
            &&& forall|idx: BufferIndex|
                (#[trigger] fresh.of(idx)).size == 0 && fresh.of(idx).readers == 0 && fresh.of(
                    idx,
                ).consumed == 0
            &&& fresh.writer_lock == UNLOCKED
            &&& fresh.buffer_size == buffer_size
            &&& fresh.buffers.len() == 2 * buffer_size + spare
            &&& forall|i: int| 0 <= i < fresh.buffers.len() ==> #[trigger] fresh.buffers[i] == 0
            &&& !fresh.acquire_sleeps()
            &&& !fresh.publish_sleeps()
            &&& fresh.read_sleeps(last_seen, block) <==> last_seen == 0 && block
        }),
{
}

/// The two buffers share the memory evenly, and an odd byte is left over. Less
/// than two bytes are too few.
pub proof fn law_buffer_size(space: usize, present: usize, size: Option<usize>)
    requires
        call_ensures(ZeroCopySharedMessage::buffer_size_for, (space, present), size),
    ensures
        size is None <==> space < 2,
        size matches Some(size) ==> if present == 0 {
            0 <= space - 2 * size <= 1
        } else {
            size == present
        },
{
}

/// A publication waits if and only if the message is not stopped and a message
/// that is there was consumed by fewer readers than the policy asks for, and by
/// fewer than there are.
pub proof fn law_publish_waits(region: Region)
    ensures
        region.stopped() ==> !region.publish_sleeps(),
        region.sequence() == 0 ==> !region.publish_sleeps(),
        region.of(region.latest()).consumed >= region.target ==> !region.publish_sleeps(),
        region.of(region.latest()).consumed >= region.consumers ==> !region.publish_sleeps(),
        !region.stopped() && region.sequence() > 0 && region.of(region.latest()).consumed
            < region.target && region.of(region.latest()).consumed < region.consumers
            ==> region.publish_sleeps(),
{
}

/// A writer waits for a buffer if and only if the message is not stopped and
/// somebody has the writer lock, or somebody reads the buffer that is not the
/// latest. Readers of the latest are not waited for.
pub proof fn law_acquire_waits(region: Region)
    ensures
        region.acquire_sleeps() <==> !region.stopped() && (region.writer_lock != UNLOCKED || (
        if region.latest() {
            region.first.readers > 0
        } else {
            region.second.readers > 0
        })),
{
}

/// A read waits if and only if there is nothing that it has not seen, it is to
/// wait for more, and more may come.
pub proof fn law_read_waits(region: Region, last_seen: u64, block: bool)
    ensures
        region.sequence() != last_seen ==> !region.read_sleeps(last_seen, block),
        !block ==> !region.read_sleeps(last_seen, block),
        region.stopped() ==> !region.read_sleeps(last_seen, block),
        region.sequence() == last_seen && block && !region.stopped() ==> region.read_sleeps(
            last_seen,
            block,
        ),
{
}

/// A write goes into the buffer that is not the latest, which becomes the latest
/// under the next sequence, consumed by nobody. The message before stays in its
/// buffer with its counters, whoever waits for data is notified, and the lock is
/// free again.
pub proof fn law_write_effect(before: Region, data: Seq<u8>)
    requires
        before.wf(),
        !before.stopped(),
        data.len() <= before.buffer_size,
    ensures
        ({
            let old_idx = before.latest();
            let after = before.overwritten(!old_idx, data).published(
                !old_idx,
                data.len() as usize,
            );
            &&& after.wf()
            &&& after.latest() != old_idx
            &&& after.sequence() == if before.sequence() == 0x3fff_ffff_ffff_ffff {
                1
            } else {
                before.sequence() + 1
            }
            &&& !after.stopped()
            &&& after.data(!old_idx) == data
            &&& after.data(old_idx) == before.data(old_idx)
            &&& after.of(old_idx) == before.of(old_idx)
            &&& after.of(!old_idx).size == data.len()
            &&& after.of(!old_idx).consumed == 0
            &&& after.of(!old_idx).readers == before.of(!old_idx).readers
            &&& after.target == before.target
            &&& after.consumers == before.consumers
            &&& after.buffer_size == before.buffer_size
            &&& after.buffers.len() == before.buffers.len()
            &&& after.writer_lock == UNLOCKED
            &&& after.writer_condvar != before.writer_condvar
            &&& after.reader_done_condvar == before.reader_done_condvar
        }),
{
    let old_idx = before.latest();
    let after = before.overwritten(!old_idx, data).published(!old_idx, data.len() as usize);
    law_sequence_after(before.sequence());
    law_packing(before.next_state(!old_idx), 0);
    assert(after.data(!old_idx) =~= data);
    assert(after.data(old_idx) =~= before.data(old_idx));
}

/// A guard on a buffer gives it to one writer and changes nothing but the lock.
/// What is written into one buffer leaves the other as it is.
pub proof fn law_buffer_is_ones_own(before: Region, idx: BufferIndex, data: Seq<u8>)
    requires
        before.wf(),
        data.len() <= before.buffer_size,
    ensures
        ({
            let after = before.overwritten(idx, data);
            &&& after.buffers.len() == before.buffers.len()
            &&& after == (Region { buffers: after.buffers, ..before })
            &&& after.buffer(!idx) == before.buffer(!idx)
            &&& forall|i: int| 0 <= i < data.len() ==> #[trigger] after.buffer(idx)[i] == data[i]
            &&& forall|i: int|
                data.len() <= i < before.buffer_size ==> #[trigger] after.buffer(idx)[i]
                    == before.buffer(idx)[i]
            &&& before.unlocked() == (Region { writer_lock: UNLOCKED, ..before })
        }),
{
    assert(before.overwritten(idx, data).buffer(!idx) =~= before.buffer(!idx));
}

/// A publication on a stopped message publishes nothing: sequence, latest buffer
/// and the message in it stay, and the lock is free again.
pub proof fn law_stopped_publication(before: Region, size: usize)
    requires
        before.wf(),
        before.stopped(),
        size <= before.buffer_size,
    ensures
        ({
            let after = before.published(!before.latest(), size);
            &&& after.sequence_word == before.sequence_word
            &&& after.buffers == before.buffers
            &&& after.of(before.latest()) == before.of(before.latest())
            &&& after.data(before.latest()) == before.data(before.latest())
            &&& after.writer_lock == UNLOCKED
            &&& after.target == before.target
            &&& after.consumers == before.consumers
            &&& after.writer_condvar == before.writer_condvar
            &&& after.reader_done_condvar == before.reader_done_condvar
        }),
{
}

/// A read counts as a reader of the latest buffer while it holds it; when it is
/// given back it counts as consumed, and whoever waits for readers is notified.
/// The messages, and the other buffer with its counters, stay as they are.
pub proof fn law_read_effect(before: Region)
    requires
        before.wf(),
        before.of(before.latest()).readers < 65535,
        before.of(before.latest()).consumed < 65535,
    ensures
        ({
            let idx = before.latest();
            let held = before.after(Action::Increase(Counter::Readers(idx)));
            let after = held.released(idx);
            &&& held.of(idx).readers == before.of(idx).readers + 1
            &&& held.of(idx).consumed == before.of(idx).consumed
            &&& held.of(idx).size == before.of(idx).size
            &&& held.of(!idx) == before.of(!idx)
            &&& held == (Region { first: held.first, second: held.second, ..before })
            &&& after.of(idx).readers == before.of(idx).readers
            &&& after.of(idx).consumed == before.of(idx).consumed + 1
            &&& after.of(idx).size == before.of(idx).size
            &&& after.of(!idx) == before.of(!idx)
            &&& after.reader_done_condvar != before.reader_done_condvar
            &&& after == (Region {
                first: after.first,
                second: after.second,
                reader_done_condvar: after.reader_done_condvar,
                ..before
            })
        }),
{
}

/// A buffer that is given back is held once less and consumed once more, whether
/// or not it is the latest.
pub proof fn law_release_effect(before: Region, idx: BufferIndex)
    requires
        before.of(idx).readers > 0,
        before.of(idx).consumed < 65535,
    ensures
        before.released(idx).of(idx).readers == before.of(idx).readers - 1,
        before.released(idx).of(idx).consumed == before.of(idx).consumed + 1,
        before.released(idx).of(idx).size == before.of(idx).size,
        before.released(idx).of(!idx) == before.of(!idx),
        before.released(idx).sequence_word == before.sequence_word,
        before.released(idx).buffers == before.buffers,
        before.released(idx).reader_done_condvar != before.reader_done_condvar,
{
}

/// The memory after so many reads of the latest message that were given back.
pub open spec fn read_times(region: Region, reads: nat) -> Region
    decreases reads,
{
    if reads == 0 {
        region
    } else {
        let before = read_times(region, (reads - 1) as nat);
        before.after(Action::Increase(Counter::Readers(before.latest()))).released(before.latest())
    }
}

/// Backpressure over whole writes and reads: after a write, the next publication
/// waits until as many reads were made and given back as the policy asks for, or
/// as there are readers, and then it waits no more.
pub proof fn law_backpressure_counts_reads(before: Region, data: Seq<u8>, reads: nat)
    requires
        before.wf(),
        !before.stopped(),
        data.len() <= before.buffer_size,
        before.of(!before.latest()).readers == 0,
        reads <= 65535,
    ensures
        ({
            let idx = !before.latest();
            let written = before.overwritten(idx, data).published(idx, data.len() as usize);
            let after = read_times(written, reads);
            &&& after.data(after.latest()) == data
            &&& after.sequence() == written.sequence()
            &&& after.publish_sleeps() <==> reads < before.target && reads < before.consumers
        }),
{
    let idx = !before.latest();
    let written = before.overwritten(idx, data).published(idx, data.len() as usize);
    law_write_effect(before, data);
    lemma_read_times(written, reads);
    assert(read_times(written, reads).data(idx) =~= data);
}

proof fn lemma_read_times(region: Region, reads: nat)
    requires
        region.wf(),
        region.of(region.latest()).readers == 0,
        region.of(region.latest()).consumed == 0,
        reads <= 65535,
    ensures
        ({
            let after = read_times(region, reads);
            &&& after.wf()
            &&& after.of(region.latest()).consumed == reads
            &&& after.of(region.latest()).readers == 0
            &&& after.of(region.latest()).size == region.of(region.latest()).size
            &&& after == (Region {
                first: after.first,
                second: after.second,
                reader_done_condvar: after.reader_done_condvar,
                ..region
            })
        }),
    decreases reads,
{
    if reads > 0 {
        lemma_read_times(region, (reads - 1) as nat);
        law_read_effect(read_times(region, (reads - 1) as nat));
    }
}

/// A stop sets its flag and notifies both sides; the messages stay as they are.
pub proof fn law_stop_effect(before: Region)
    ensures
        ({
            let after = before.with_state(
                SequenceState { stopped: true, ..before.state() },
            ).notify(Channel::Writer).notify(Channel::ReaderDone);
            &&& after.stopped()
            &&& after.sequence() == before.sequence()
            &&& after.latest() == before.latest()
            &&& after.writer_condvar != before.writer_condvar
            &&& after.reader_done_condvar != before.reader_done_condvar
            &&& after == (Region {
                sequence_word: after.sequence_word,
                writer_condvar: after.writer_condvar,
                reader_done_condvar: after.reader_done_condvar,
                ..before
            })
            &&& !after.acquire_sleeps()
            &&& !after.publish_sleeps()
            &&& forall|last_seen: u64, block: bool| !#[trigger] after.read_sleeps(last_seen, block)
        }),
{
    law_packing(SequenceState { stopped: true, ..before.state() }, 0);
}

/// What each access changes, and that it changes nothing else.
pub proof fn law_access_effect(before: Region, action: Action)
    ensures
        ({
            let after = before.after(action);
            match action {
                Action::LoadSequence | Action::Load(_) | Action::LoadTicket(_) => after == before,
                Action::Sleep { .. } => after == before,
                Action::SwapSequence { expected, new } => after == (Region {
                    sequence_word: after.sequence_word,
                    ..before
                }) && after.sequence_word == (if before.sequence_word == expected {
                    new
                } else {
                    before.sequence_word
                }),
                Action::SetStopped => after == (Region {
                    sequence_word: after.sequence_word,
                    ..before
                }) && after.stopped() && after.latest() == before.latest() && after.sequence()
                    == before.sequence(),
                Action::Increase(Counter::Consumers) => after == (Region {
                    consumers: after.consumers,
                    ..before
                }) && after.consumers == (before.consumers + 1) % 0x1_0000,
                Action::Decrease(Counter::Consumers) => after == (Region {
                    consumers: after.consumers,
                    ..before
                }) && before.consumers == (after.consumers + 1) % 0x1_0000,
                Action::Store(Counter::Target, count) => after == (Region {
                    target: count,
                    ..before
                }),
                Action::Increase(Counter::Readers(idx)) => {
                    &&& after == (Region { first: after.first, second: after.second, ..before })
                    &&& after.of(!idx) == before.of(!idx)
                    &&& after.of(idx).readers == (before.of(idx).readers + 1) % 0x1_0000
                    &&& after.of(idx).consumed == before.of(idx).consumed
                    &&& after.of(idx).size == before.of(idx).size
                },
                Action::Decrease(Counter::Readers(idx)) => {
                    &&& after == (Region { first: after.first, second: after.second, ..before })
                    &&& after.of(!idx) == before.of(!idx)
                    &&& before.of(idx).readers == (after.of(idx).readers + 1) % 0x1_0000
                    &&& after.of(idx).consumed == before.of(idx).consumed
                    &&& after.of(idx).size == before.of(idx).size
                },
                Action::Increase(Counter::Consumed(idx)) => {
                    &&& after == (Region { first: after.first, second: after.second, ..before })
                    &&& after.of(!idx) == before.of(!idx)
                    &&& after.of(idx).consumed == (before.of(idx).consumed + 1) % 0x1_0000
                    &&& after.of(idx).readers == before.of(idx).readers
                    &&& after.of(idx).size == before.of(idx).size
                },
                Action::Store(Counter::Consumed(idx), count) => {
                    &&& after == (Region { first: after.first, second: after.second, ..before })
                    &&& after.of(!idx) == before.of(!idx)
                    &&& after.of(idx).consumed == count
                    &&& after.of(idx).readers == before.of(idx).readers
                    &&& after.of(idx).size == before.of(idx).size
                },
                Action::StoreSize(idx, size) => {
                    &&& after == (Region { first: after.first, second: after.second, ..before })
                    &&& after.of(!idx) == before.of(!idx)
                    &&& after.of(idx).size == size
                    &&& after.of(idx).readers == before.of(idx).readers
                    &&& after.of(idx).consumed == before.of(idx).consumed
                },
                Action::Increase(_) | Action::Decrease(_) | Action::Store(_, _) =>
                after.sequence_word == before.sequence_word && after.buffers == before.buffers
                    && after.writer_lock == before.writer_lock,
                Action::Lock(LockAction::TakeFree) => after == (Region {
                    writer_lock: if before.writer_lock == 0 {
                        1
                    } else {
                        before.writer_lock
                    },
                    ..before
                }),
                Action::Lock(LockAction::MarkContended) => after == (Region {
                    writer_lock: 2,
                    ..before
                }),
                Action::Lock(_) => after == before,
                Action::Unlock => after == (Region { writer_lock: 0, ..before }),
                Action::Notify(Channel::Writer) => after == (Region {
                    writer_condvar: after.writer_condvar,
                    ..before
                }) && after.writer_condvar == (before.writer_condvar + 1) % 0x1_0000_0000,
                Action::Notify(Channel::ReaderDone) => after == (Region {
                    reader_done_condvar: after.reader_done_condvar,
                    ..before
                }) && after.reader_done_condvar == (before.reader_done_condvar + 1)
                    % 0x1_0000_0000,
            }
        }),
{
    law_packing(SequenceState { stopped: true, ..before.state() }, 0);
}

/// What each access gives back: what was there before it. A sleep has none while
/// what it sleeps on is unchanged.
pub proof fn law_access_answer(before: Region, action: Action)
    ensures
        match action {
            Action::LoadSequence => before.answer(action) == Some(Event::Word(before.sequence_word)),
            Action::Load(Counter::Readers(idx)) | Action::Increase(Counter::Readers(idx))
            | Action::Decrease(Counter::Readers(idx)) => before.answer(action) == Some(
                Event::Count(before.of(idx).readers),
            ),
            Action::Load(Counter::Consumed(idx)) => before.answer(action) == Some(
                Event::Count(before.of(idx).consumed),
            ),
            Action::Load(Counter::Target) => before.answer(action) == Some(
                Event::Count(before.target),
            ),
            Action::Load(Counter::Consumers) => before.answer(action) == Some(
                Event::Count(before.consumers),
            ),
            Action::Increase(_) | Action::Decrease(_) => before.answer(action) matches Some(
                Event::Count(_),
            ),
            Action::LoadTicket(Channel::Writer) => before.answer(action) == Some(
                Event::Ticket(before.writer_condvar),
            ),
            Action::LoadTicket(Channel::ReaderDone) => before.answer(action) == Some(
                Event::Ticket(before.reader_done_condvar),
            ),
            Action::SwapSequence { expected, new } => before.answer(action) matches Some(
                Event::Swapped { done, found },
            ) && found == before.sequence_word && (done <==> expected == before.sequence_word),
            Action::Lock(LockAction::Sleep) => before.answer(action) is None <==> before.writer_lock
                == 2,
            Action::Lock(_) => before.answer(action) == Some(Event::Lock(before.writer_lock)),
            Action::Sleep { channel: Channel::Writer, ticket } => before.answer(action) is None
                <==> before.writer_condvar == ticket,
            Action::Sleep { channel: Channel::ReaderDone, ticket } => before.answer(action) is None
                <==> before.reader_done_condvar == ticket,
            _ => before.answer(action) == Some(Event::Done),
        },
{
}

/// What a publication makes of its looks at the counters, in memory that others
/// use, too: it waits for as many readers of the latest buffer as the target asks
/// for, but no more than there are.
pub proof fn law_publication_waits_for_policy(op: Publish, count: u16)
    ensures
        ({
            let next = op.after(Event::Count(count)).phase;
            &&& op.phase matches PublishPhase::Target { latest, sequence } ==> next == (
            PublishPhase::Consumers { latest, sequence, target: count })
            &&& op.phase matches PublishPhase::Consumers { latest, sequence, target } ==> if sequence
                == 0 || target == 0 || count == 0 {
                next == PublishPhase::StoreSize
            } else {
                &&& next matches PublishPhase::Consumed { latest: waited_in, target: waited }
                &&& waited_in == latest
                &&& waited <= target
                &&& waited <= count
                &&& waited == target || waited == count
            }
            &&& op.phase matches PublishPhase::Consumed { latest, target } ==> if count >= target {
                next == PublishPhase::StoreSize
            } else {
                next == (PublishPhase::Stopped { latest, target })
            }
        }),
{
}

/// What a publication makes of its looks at the sequence word: it remembers the
/// latest buffer, gives up on a stop, and otherwise makes its own buffer the
/// latest under the next sequence.
pub proof fn law_publication_looks(op: Publish, word: u64)
    ensures
        ({
            let state = SequenceState::unpacked(word);
            let next = op.after(Event::Word(word)).phase;
            &&& op.phase is State ==> next == (PublishPhase::Target {
                latest: state.buffer_idx,
                sequence: state.sequence,
            })
            &&& op.phase matches PublishPhase::Stopped { latest, target } ==> if state.stopped {
                next == PublishPhase::Unlock(None)
            } else {
                next == (PublishPhase::Doze { latest, target })
            }
            &&& op.phase is Sequence ==> if state.stopped {
                next == PublishPhase::Unlock(None)
            } else {
                &&& next matches PublishPhase::Swap { expected, new }
                &&& expected == word
                &&& SequenceState::unpacked(new).buffer_idx == op.buffer_idx
                &&& !SequenceState::unpacked(new).stopped
                &&& SequenceState::unpacked(new).sequence == if state.sequence
                    == 0x3fff_ffff_ffff_ffff {
                    1
                } else {
                    state.sequence + 1
                }
            }
        }),
{
    let state = SequenceState::unpacked(word);
    law_sequence_after(state.sequence);
    law_packing(
        SequenceState {
            sequence: crate::shared_message::packed::sequence_after(state.sequence),
            stopped: false,
            buffer_idx: op.buffer_idx,
        },
        0,
    );
}

/// A writer takes the buffer that is not the latest, once nobody reads it.
pub proof fn law_writer_takes_other_buffer(op: AcquireBuffer, word: u64, count: u16)
    ensures
        op.phase is State ==> op.after(Event::Word(word)).phase == (AcquirePhase::Readers {
            buffer_idx: !SequenceState::unpacked(word).buffer_idx,
        }),
        op.phase matches AcquirePhase::Readers { buffer_idx } ==> op.after(
            Event::Count(count),
        ).phase == (if count == 0 {
            AcquirePhase::Finished(Some(buffer_idx))
        } else {
            AcquirePhase::Stopped { buffer_idx }
        }),
        op.phase is CheckStopped ==> (op.after(Event::Word(word)).phase == AcquirePhase::Finished(
            None,
        )) == SequenceState::unpacked(word).stopped,
        op.phase matches AcquirePhase::Stopped { buffer_idx } ==> op.after(Event::Word(word)).phase
            == (if SequenceState::unpacked(word).stopped {
            AcquirePhase::Unlock
        } else {
            AcquirePhase::Doze { buffer_idx }
        }),
{
}

/// What a reader makes of its looks at the sequence word: it registers in the
/// latest buffer for a message that it has not seen, ends with nothing only where
/// there is no other message and none is waited for or will come, and keeps the
/// buffer only if it is still the latest.
pub proof fn law_reader_looks(op: ReadOperation, word: u64)
    ensures
        ({
            let state = SequenceState::unpacked(word);
            let next = op.after(Event::Word(word));
            &&& next.last_seen == op.last_seen
            &&& next.block == op.block
            &&& op.phase is Observe ==> if state.sequence != op.last_seen {
                next.phase == (ReadPhase::Register {
                    buffer_idx: state.buffer_idx,
                    sequence: state.sequence,
                })
            } else if state.stopped || !op.block {
                next.phase == ReadPhase::Nothing
            } else {
                next.phase == ReadPhase::Doze
            }
            &&& op.phase matches ReadPhase::Verify { buffer_idx, sequence } ==> if state.buffer_idx
                == buffer_idx {
                next.phase == (ReadPhase::Holding { buffer_idx, sequence })
            } else {
                next.phase == (ReadPhase::Withdraw { buffer_idx, release: ReleasePhase::Readers })
            }
        }),
{
}

/// A publication settles the size and the count of those who consumed its own
/// buffer before the sequence word is swapped, notifies readers after that, and
/// lets the lock go last; what it sleeps for it looks at again.
pub proof fn law_publication_in_order(op: Publish, ticket: u32, found: u64)
    ensures
        ({
            let done = op.after(Event::Done);
            let dozed = op.after(Event::Ticket(ticket));
            let won = op.after(Event::Swapped { done: true, found });
            let lost = op.after(Event::Swapped { done: false, found });
            &&& done.size == op.size && done.buffer_idx == op.buffer_idx
            &&& won.size == op.size && won.buffer_idx == op.buffer_idx
            &&& lost.size == op.size && lost.buffer_idx == op.buffer_idx
            &&& op.phase is StoreSize ==> op.next_action() == Some(
                Action::StoreSize(op.buffer_idx, op.size),
            ) && done.phase is ResetConsumed
            &&& op.phase is ResetConsumed ==> op.next_action() == Some(
                Action::Store(Counter::Consumed(op.buffer_idx), 0),
            ) && done.phase is Sequence
            &&& op.phase is Sequence ==> op.next_action() == Some(Action::LoadSequence)
            &&& op.phase matches PublishPhase::Swap { expected, new } ==> op.next_action() == Some(
                Action::SwapSequence { expected, new },
            ) && lost.phase is Sequence && won.phase == (PublishPhase::Notify {
                sequence: SequenceState::unpacked(new).sequence,
            })
            &&& op.phase matches PublishPhase::Notify { sequence } ==> op.next_action() == Some(
                Action::Notify(Channel::Writer),
            ) && done.phase == PublishPhase::Unlock(Some(sequence))
            &&& op.phase matches PublishPhase::Unlock(sequence) ==> op.next_action() == Some(
                Action::Unlock,
            ) && done.phase == PublishPhase::Finished(sequence)
            &&& op.phase matches PublishPhase::Consumed { latest, target } ==> op.next_action()
                == Some(Action::Load(Counter::Consumed(latest)))
            &&& op.phase matches PublishPhase::Doze { latest, target } ==> op.next_action() == Some(
                Action::LoadTicket(Channel::ReaderDone),
            ) && dozed.phase == (PublishPhase::Sleep { latest, target, ticket })
            &&& op.phase matches PublishPhase::Sleep { latest, target, ticket: seen }
                ==> op.next_action() == Some(
                Action::Sleep { channel: Channel::ReaderDone, ticket: seen },
            ) && done.phase == (PublishPhase::Consumed { latest, target })
        }),
{
}

/// A writer looks at the readers of the buffer that it has chosen, sleeps until
/// one is done, and looks again; one that gives up lets the lock go first.
pub proof fn law_writer_waits_for_buffer(op: AcquireBuffer, word: u64, ticket: u32)
    ensures
        ({
            let looked = op.after(Event::Word(word)).phase;
            let done = op.after(Event::Done).phase;
            let dozed = op.after(Event::Ticket(ticket)).phase;
            &&& op.phase is CheckStopped && !SequenceState::unpacked(word).stopped ==> looked
                == AcquirePhase::Locking(LockOperation::Fast)
            &&& op.phase matches AcquirePhase::Readers { buffer_idx } ==> op.next_action() == Some(
                Action::Load(Counter::Readers(buffer_idx)),
            )
            &&& op.phase matches AcquirePhase::Doze { buffer_idx } ==> op.next_action() == Some(
                Action::LoadTicket(Channel::ReaderDone),
            ) && dozed == (AcquirePhase::Sleep { buffer_idx, ticket })
            &&& op.phase matches AcquirePhase::Sleep { buffer_idx, ticket: seen }
                ==> op.next_action() == Some(
                Action::Sleep { channel: Channel::ReaderDone, ticket: seen },
            ) && done == (AcquirePhase::Readers { buffer_idx })
            &&& op.phase is Unlock ==> op.next_action() == Some(Action::Unlock) && done
                == AcquirePhase::Finished(None)
        }),
{
}

/// A reader counts itself in before it looks whether the buffer is still the
/// latest. When it is done, or the buffer is not, it leaves the readers of that
/// buffer, is counted as done, and notifies the writer last.
pub proof fn law_reader_counts_itself(op: ReadOperation, idx: BufferIndex, first: u16, second: u16)
    ensures
        op.phase matches ReadPhase::Register { buffer_idx, sequence } ==> op.next_action() == Some(
            Action::Increase(Counter::Readers(buffer_idx)),
        ) && op.after(Event::Count(first)).phase == (ReadPhase::Verify { buffer_idx, sequence }),
        ({
            let readers = ReleaseOperation { buffer_idx: idx, phase: ReleasePhase::Readers };
            let consumed = readers.after(Event::Count(first));
            let notify = consumed.after(Event::Count(second));
            &&& readers.next_action() == Some(Action::Decrease(Counter::Readers(idx)))
            &&& consumed.next_action() == Some(Action::Increase(Counter::Consumed(idx)))
            &&& notify.next_action() == Some(Action::Notify(Channel::ReaderDone))
            &&& notify.after(Event::Done).next_action() is None
        }),
        ({
            let withdraw = ReadOperation {
                phase: ReadPhase::Withdraw { buffer_idx: idx, release: ReleasePhase::Readers },
                ..op
            };
            let consumed = withdraw.after(Event::Count(first));
            let notify = consumed.after(Event::Count(second));
            &&& withdraw.next_action() == Some(Action::Decrease(Counter::Readers(idx)))
            &&& consumed.next_action() == Some(Action::Increase(Counter::Consumed(idx)))
            &&& notify.next_action() == Some(Action::Notify(Channel::ReaderDone))
            &&& notify.after(Event::Done) == (ReadOperation { phase: ReadPhase::Observe, ..op })
        }),
{
}

/// A reader that has to wait sleeps on what writers notify, for as long as it is
/// what the reader saw of it, and then looks at the message anew.
pub proof fn law_reader_sleeps(op: ReadOperation, ticket: u32)
    ensures
        op.phase is Doze ==> op.next_action() == Some(Action::LoadTicket(Channel::Writer))
            && op.after(Event::Ticket(ticket)) == (ReadOperation {
            phase: ReadPhase::Sleep { ticket },
            ..op
        }),
        op.phase matches ReadPhase::Sleep { ticket: seen } ==> op.next_action() == Some(
            Action::Sleep { channel: Channel::Writer, ticket: seen },
        ) && op.after(Event::Done) == (ReadOperation { phase: ReadPhase::Observe, ..op }),
        op.phase is Observe || op.phase is Verify ==> op.next_action() == Some(
            Action::LoadSequence,
        ),
{
}

} // verus!
