//! What each call leaves of a message, field by field.
use crate::primitives::shared_futex::{LockAction, LockOperation, UNLOCKED};
use crate::shared_message::operation::{
    Action, Channel, Event, ReadOperation, ReadPhase, ReaderChange, ReleaseOperation, ReleasePhase,
    UpdateOperation, UpdatePhase,
};
use crate::shared_message::packed::{
    law_readers_round_trip, law_readers_word_round_trip, law_sequence_after,
    law_sequence_round_trip, ReadersStateCount, SequenceState,
};
use crate::shared_message::region::Region;
use crate::shared_message::write_operation::{
    published, Publish, PublishPhase, StartPhase, StartWrite, StopOperation,
};
use vstd::prelude::*;

verus! {

/// What a region says is in its words: the current message are the first bytes
/// of the payload.
pub proof fn law_message_of_region(region: Region)
    requires
        region.wf(),
    ensures
        region.sequence() == region.sequence_word % 0x4000_0000_0000_0000,
        region.stopped() <==> region.sequence_word >= 0x8000_0000_0000_0000,
        region.writing() <==> region.sequence_word % 0x8000_0000_0000_0000
            >= 0x4000_0000_0000_0000,
        region.counts().target_read == region.readers_word % 0x1_0000,
        region.counts().consumers == (region.readers_word / 0x1_0000) % 0x1_0000,
        region.counts().active_readers == (region.readers_word / 0x1_0000_0000) % 0x1_0000,
        region.counts().data_consumed == region.readers_word / 0x1_0000_0000_0000,
        region.data().len() == region.size,
        forall|i: int| 0 <= i < region.size ==> #[trigger] region.data()[i] == region.payload[i],
{
    let word = region.readers_word;
    assert(word % 0x1_0000 < 0x1_0000 && (word / 0x1_0000) % 0x1_0000 < 0x1_0000 && (word
        / 0x1_0000_0000) % 0x1_0000 < 0x1_0000 && word / 0x1_0000_0000_0000 < 0x1_0000);
}

/// In fresh memory there is no message, nobody waits for anything and nobody is
/// waited for.
pub proof fn law_fresh_memory(capacity: nat, last_seen: u64, block: bool)
    ensures
        ({
            let fresh = Region::zeroed(capacity);
            &&& fresh.wf()
            &&& fresh.sequence() == 0
            &&& !fresh.stopped()
            &&& !fresh.writing()
            &&& fresh.counts().target_read == 0
            &&& fresh.counts().consumers == 0
            &&& fresh.counts().active_readers == 0
            &&& fresh.counts().data_consumed == 0
            &&& fresh.writer_lock == UNLOCKED
            &&& fresh.payload.len() == capacity
            &&& forall|i: int| 0 <= i < capacity ==> #[trigger] fresh.payload[i] == 0
            &&& fresh.data().len() == 0
            &&& !fresh.write_sleeps()
            &&& fresh.read_sleeps(last_seen, block) <==> last_seen == 0 && block
        }),
{
}

/// A write waits if and only if the message is not stopped and somebody else has
/// the writer lock, or somebody holds the message, or fewer readers than the
/// policy asks for, and fewer than there are, have consumed a message that is
/// there.
pub proof fn law_write_waits(region: Region)
    ensures
        region.stopped() ==> !region.write_sleeps(),
        !region.stopped() && region.writer_lock != UNLOCKED ==> region.write_sleeps(),
        !region.stopped() && region.counts().active_readers > 0 ==> region.write_sleeps(),
        !region.stopped() && region.sequence() > 0 && region.counts().data_consumed
            < region.counts().target_read && region.counts().data_consumed
            < region.counts().consumers ==> region.write_sleeps(),
        region.writer_lock == UNLOCKED && region.counts().active_readers == 0 && (
        region.sequence() == 0 || region.counts().data_consumed >= region.counts().target_read
            || region.counts().data_consumed >= region.counts().consumers)
            ==> !region.write_sleeps(),
{
}

/// A read waits if and only if there is nothing that it has not seen, it is to
/// wait for more and more may come, or if the message is just being written.
pub proof fn law_read_waits(region: Region, last_seen: u64, block: bool)
    ensures
        region.sequence() != last_seen && !region.writing() ==> !region.read_sleeps(
            last_seen,
            block,
        ),
        region.sequence() != last_seen && region.writing() ==> region.read_sleeps(last_seen, block),
        region.sequence() == last_seen && !block ==> !region.read_sleeps(last_seen, block),
        region.sequence() == last_seen && region.stopped() ==> !region.read_sleeps(
            last_seen,
            block,
        ),
        region.sequence() == last_seen && block && !region.stopped() ==> region.read_sleeps(
            last_seen,
            block,
        ),
{
}

/// Each change of the counters changes one thing, is refused only where a counter
/// would leave its range, and is undone by its counterpart.
pub proof fn law_reader_changes(counts: ReadersStateCount, target: u16)
    ensures
        counts.changed(ReaderChange::Register) is Some <==> counts.active_readers < 65535,
        counts.changed(ReaderChange::Register) matches Some(after) ==> {
            &&& after.active_readers == counts.active_readers + 1
            &&& after.data_consumed == counts.data_consumed
            &&& after.consumers == counts.consumers
            &&& after.target_read == counts.target_read
            &&& after.changed(ReaderChange::Withdraw) == Some(counts)
        },
        counts.changed(ReaderChange::Withdraw) is Some <==> counts.active_readers > 0,
        counts.changed(ReaderChange::Withdraw) matches Some(after) ==> {
            &&& after.active_readers == counts.active_readers - 1
            &&& after.data_consumed == counts.data_consumed
            &&& after.changed(ReaderChange::Register) == Some(counts)
        },
        counts.changed(ReaderChange::Release) is Some <==> counts.active_readers > 0
            && counts.data_consumed < 65535,
        counts.changed(ReaderChange::Release) matches Some(after) ==> {
            &&& after.active_readers == counts.active_readers - 1
            &&& after.data_consumed == counts.data_consumed + 1
            &&& after.consumers == counts.consumers
            &&& after.target_read == counts.target_read
        },
        counts.changed(ReaderChange::ResetConsumed) matches Some(after) && {
            &&& after.active_readers == counts.active_readers
            &&& after.data_consumed == 0
            &&& after.consumers == counts.consumers
            &&& after.target_read == counts.target_read
        },
        counts.changed(ReaderChange::SetTarget(target)) matches Some(after) && {
            &&& after.active_readers == counts.active_readers
            &&& after.data_consumed == counts.data_consumed
            &&& after.consumers == counts.consumers
            &&& after.target_read == target
        },
        counts.changed(ReaderChange::AddConsumer) is Some <==> counts.consumers < 65535,
        counts.changed(ReaderChange::AddConsumer) matches Some(after) ==> {
            &&& after.active_readers == counts.active_readers
            &&& after.data_consumed == counts.data_consumed
            &&& after.consumers == counts.consumers + 1
            &&& after.target_read == counts.target_read
            &&& after.changed(ReaderChange::RemoveConsumer) == Some(counts)
        },
        counts.changed(ReaderChange::RemoveConsumer) is Some <==> counts.consumers > 0,
        counts.changed(ReaderChange::RemoveConsumer) matches Some(after) ==> {
            &&& after.active_readers == counts.active_readers
            &&& after.data_consumed == counts.data_consumed
            &&& after.consumers == counts.consumers - 1
            &&& after.target_read == counts.target_read
            &&& after.changed(ReaderChange::AddConsumer) == Some(counts)
        },
{
}

/// A change of the counters leaves everything else alone, and the counters are
/// found as they were left.
pub proof fn law_changed_counters(region: Region, change: ReaderChange)
    requires
        region.counts().changed(change) is Some,
    ensures
        region.changed(change).counts() == region.counts().changed(change)->Some_0,
        region.changed(change) == (Region {
            readers_word: region.changed(change).readers_word,
            ..region
        }),
{
    law_readers_round_trip(region.counts().changed(change)->Some_0);
}

/// A write that does not wait leaves its bytes as the current message under the
/// next sequence, consumed by nobody; whoever waits for data is notified, the
/// lock is free again, and the rest is as it was.
pub proof fn law_write_effect(before: Region, data: Seq<u8>)
    requires
        before.wf(),
        data.len() <= before.payload.len() <= usize::MAX,
    ensures
        ({
            let after = before.started().overwritten(data).published(data.len() as usize);
            &&& after.wf()
            &&& after.sequence() == if before.sequence() == 0x3fff_ffff_ffff_ffff {
                1
            } else {
                before.sequence() + 1
            }
            &&& after.stopped() == before.stopped()
            &&& !after.writing()
            &&& after.size == data.len()
            &&& after.payload.len() == before.payload.len()
            &&& forall|i: int| 0 <= i < data.len() ==> #[trigger] after.payload[i] == data[i]
            &&& forall|i: int|
                data.len() <= i < before.payload.len() ==> #[trigger] after.payload[i]
                    == before.payload[i]
            &&& after.counts().data_consumed == 0
            &&& after.counts().active_readers == before.counts().active_readers
            &&& after.counts().consumers == before.counts().consumers
            &&& after.counts().target_read == before.counts().target_read
            &&& after.writer_lock == UNLOCKED
            &&& after.writer_condvar != before.writer_condvar
            &&& after.reader_done_condvar == before.reader_done_condvar
        }),
{
    law_sequence_after(before.sequence());
    law_sequence_round_trip(SequenceState { writing_in_progress: true, ..before.state() });
    law_sequence_round_trip(published(before.started().state()));
    law_readers_round_trip(ReadersStateCount { data_consumed: 0, ..before.counts() });
}

/// A guard gives the payload to write to one writer and changes nothing else;
/// publishing it does what a write does, and giving it back unpublished leaves
/// the mark.
pub proof fn law_write_guard_effect(before: Region, size: usize)
    requires
        before.wf(),
        size <= before.payload.len(),
    ensures
        ({
            let held = before.started();
            &&& held.writing()
            &&& held.writer_lock != UNLOCKED
            &&& held.sequence() == before.sequence()
            &&& held.stopped() == before.stopped()
            &&& held.readers_word == before.readers_word
            &&& held.writer_condvar == before.writer_condvar
            &&& held.reader_done_condvar == before.reader_done_condvar
            &&& held.size == before.size
            &&& held.payload == before.payload
            &&& !held.stopped() ==> held.write_sleeps()
            &&& held.published(size).size == size
            &&& held.published(size).payload == before.payload
            &&& held.published(size).sequence() == if before.sequence() == 0x3fff_ffff_ffff_ffff {
                1
            } else {
                before.sequence() + 1
            }
            &&& !held.published(size).writing()
            &&& held.published(size).writer_lock == UNLOCKED
            &&& held.unlocked() == (Region { writer_lock: UNLOCKED, ..held })
        }),
{
    law_sequence_after(before.sequence());
    law_sequence_round_trip(SequenceState { writing_in_progress: true, ..before.state() });
    law_sequence_round_trip(published(before.started().state()));
}

/// A read counts as active while it holds the message; when it is given back it
/// counts as consumed, and whoever waits for readers is notified. The message
/// stays as it is.
pub proof fn law_read_effect(before: Region)
    requires
        before.wf(),
        before.counts().active_readers < 65535,
        before.counts().data_consumed < 65535,
    ensures
        ({
            let held = before.changed(ReaderChange::Register);
            let after = held.released();
            &&& held.counts().active_readers == before.counts().active_readers + 1
            &&& held.counts().data_consumed == before.counts().data_consumed
            &&& held == (Region { readers_word: held.readers_word, ..before })
            &&& !before.stopped() ==> held.write_sleeps()
            &&& after.counts().active_readers == before.counts().active_readers
            &&& after.counts().data_consumed == before.counts().data_consumed + 1
            &&& after.counts().consumers == before.counts().consumers
            &&& after.counts().target_read == before.counts().target_read
            &&& after.reader_done_condvar != before.reader_done_condvar
            &&& after == (Region {
                readers_word: after.readers_word,
                reader_done_condvar: after.reader_done_condvar,
                ..before
            })
        }),
{
    let registered = before.counts().changed(ReaderChange::Register)->Some_0;
    law_readers_round_trip(registered);
    law_readers_round_trip(registered.changed(ReaderChange::Release)->Some_0);
}

/// How many readers have consumed a message after so many reads of it.
pub open spec fn read_times(region: Region, reads: nat) -> Region
    decreases reads,
{
    if reads == 0 {
        region
    } else {
        read_times(region, (reads - 1) as nat).changed(ReaderChange::Register).released()
    }
}

/// Backpressure over whole writes and reads: after a write, the next one waits
/// until as many reads were made and given back as the policy asks for, or as
/// there are readers, and then it waits no more.
pub proof fn law_backpressure_counts_reads(before: Region, data: Seq<u8>, reads: nat)
    requires
        before.wf(),
        !before.stopped(),
        data.len() <= before.payload.len() <= usize::MAX,
        before.counts().active_readers == 0,
        reads <= 65535,
    ensures
        ({
            let written = before.started().overwritten(data).published(data.len() as usize);
            let after = read_times(written, reads);
            &&& after.data() == data
            &&& after.sequence() == written.sequence()
            &&& after.write_sleeps() <==> reads < before.counts().target_read && reads
                < before.counts().consumers
        }),
{
    let written = before.started().overwritten(data).published(data.len() as usize);
    law_write_effect(before, data);
    assert(written.data() =~= data);
    lemma_read_times(written, reads);
}

proof fn lemma_read_times(region: Region, reads: nat)
    requires
        region.wf(),
        region.counts().active_readers == 0,
        region.counts().data_consumed == 0,
        reads <= 65535,
    ensures
        ({
            let after = read_times(region, reads);
            &&& after.wf()
            &&& after.counts() == (ReadersStateCount {
                data_consumed: reads as u16,
                ..region.counts()
            })
            &&& after.sequence_word == region.sequence_word
            &&& after.writer_lock == region.writer_lock
            &&& after.size == region.size
            &&& after.payload == region.payload
        }),
    decreases reads,
{
    if reads > 0 {
        lemma_read_times(region, (reads - 1) as nat);
        law_read_effect(read_times(region, (reads - 1) as nat));
    }
}

/// A stop sets its flag and notifies both sides; the message stays as it is.
pub proof fn law_stop_effect(before: Region)
    ensures
        ({
            let after = before.with_state(
                SequenceState { stopped: true, ..before.state() },
            ).notify(Channel::Writer).notify(Channel::ReaderDone);
            &&& after.stopped()
            &&& after.writing() == before.writing()
            &&& after.sequence() == before.sequence()
            &&& after.readers_word == before.readers_word
            &&& after.size == before.size
            &&& after.payload == before.payload
            &&& after.writer_lock == before.writer_lock
            &&& after.writer_condvar != before.writer_condvar
            &&& after.reader_done_condvar != before.reader_done_condvar
            &&& !after.write_sleeps()
            &&& forall|last_seen: u64, block: bool| #[trigger]
                after.read_sleeps(last_seen, block) ==> last_seen != before.sequence()
                    && before.writing()
        }),
{
    law_sequence_round_trip(SequenceState { stopped: true, ..before.state() });
}

/// What each access changes, and that it changes nothing else.
pub proof fn law_access_effect(before: Region, action: Action)
    ensures
        ({
            let after = before.after(action);
            match action {
                Action::LoadSequence | Action::LoadReaders | Action::LoadTicket(_) => after
                    == before,
                Action::Sleep { .. } => after == before,
                Action::SwapSequence { expected, new } => after == (Region {
                    sequence_word: after.sequence_word,
                    ..before
                }) && after.sequence_word == (if before.sequence_word == expected {
                    new
                } else {
                    before.sequence_word
                }),
                Action::SwapReaders { expected, new } => after == (Region {
                    readers_word: after.readers_word,
                    ..before
                }) && after.readers_word == (if before.readers_word == expected {
                    new
                } else {
                    before.readers_word
                }),
                Action::SetWriting => after == (Region {
                    sequence_word: after.sequence_word,
                    ..before
                }) && after.writing() && after.stopped() == before.stopped() && after.sequence()
                    == before.sequence(),
                Action::ClearWriting => after == (Region {
                    sequence_word: after.sequence_word,
                    ..before
                }) && !after.writing() && after.stopped() == before.stopped() && after.sequence()
                    == before.sequence(),
                Action::SetStopped => after == (Region {
                    sequence_word: after.sequence_word,
                    ..before
                }) && after.stopped() && after.writing() == before.writing() && after.sequence()
                    == before.sequence(),
                Action::StoreSize(size) => after == (Region { size, ..before }),
                Action::Lock(LockAction::TakeFree) => after == (Region {
                    writer_lock: if before.writer_lock == 0 {
                        1
                    } else {
                        before.writer_lock
                    },
                    ..before
                }),
                Action::Lock(LockAction::MarkContended) => after == (Region {
                    writer_lock: 2,
                    ..before
                }),
                Action::Lock(_) => after == before,
                Action::Unlock => after == (Region { writer_lock: 0, ..before }),
                Action::Notify(Channel::Writer) => after == (Region {
                    writer_condvar: after.writer_condvar,
                    ..before
                }) && after.writer_condvar == (before.writer_condvar + 1) % 0x1_0000_0000,
                Action::Notify(Channel::ReaderDone) => after == (Region {
                    reader_done_condvar: after.reader_done_condvar,
                    ..before
                }) && after.reader_done_condvar == (before.reader_done_condvar + 1)
                    % 0x1_0000_0000,
            }
        }),
{
    law_sequence_round_trip(SequenceState { stopped: true, ..before.state() });
    law_sequence_round_trip(SequenceState { writing_in_progress: true, ..before.state() });
    law_sequence_round_trip(SequenceState { writing_in_progress: false, ..before.state() });
}

/// What each access gives back: what was there before it. A sleep has none while
/// what it sleeps on is unchanged.
pub proof fn law_access_answer(before: Region, action: Action)
    ensures
        match action {
            Action::LoadSequence => before.answer(action) == Some(Event::Word(before.sequence_word)),
            Action::LoadReaders => before.answer(action) == Some(Event::Word(before.readers_word)),
            Action::LoadTicket(Channel::Writer) => before.answer(action) == Some(
                Event::Ticket(before.writer_condvar),
            ),
            Action::LoadTicket(Channel::ReaderDone) => before.answer(action) == Some(
                Event::Ticket(before.reader_done_condvar),
            ),
            Action::SwapSequence { expected, new } => before.answer(action) matches Some(
                Event::Swapped { done, found },
            ) && found == before.sequence_word && (done <==> expected == before.sequence_word),
            Action::SwapReaders { expected, new } => before.answer(action) matches Some(
                Event::Swapped { done, found },
            ) && found == before.readers_word && (done <==> expected == before.readers_word),
            Action::Lock(LockAction::Sleep) => before.answer(action) is None <==> before.writer_lock
                == 2,
            Action::Lock(_) => before.answer(action) == Some(Event::Lock(before.writer_lock)),
            Action::Sleep { channel: Channel::Writer, ticket } => before.answer(action) is None
                <==> before.writer_condvar == ticket,
            Action::Sleep { channel: Channel::ReaderDone, ticket } => before.answer(action) is None
                <==> before.reader_done_condvar == ticket,
            _ => before.answer(action) == Some(Event::Done),
        },
{
}

/// What a writer makes of its look at the readers, in memory that others use,
/// too: it goes on at once if nothing was published, or nobody is to be waited
/// for; else if and only if as many have consumed the message as the policy asks
/// for, or as there are.
pub proof fn law_writer_waits_for_policy(op: StartWrite, word: u64)
    ensures
        ({
            let counts = ReadersStateCount::unpacked(word);
            let next = op.after(Event::Word(word)).phase;
            let enough = counts.data_consumed >= counts.target_read || counts.data_consumed
                >= counts.consumers;
            &&& op.phase matches StartPhase::Readers { sequence } ==> if sequence == 0
                || counts.target_read == 0 || counts.consumers == 0 {
                next == StartPhase::Mark
            } else {
                next == (StartPhase::ConsumedTicket { readers: word })
            }
            &&& op.phase matches StartPhase::ConsumedReaders { ticket } ==> if enough {
                next == StartPhase::Mark
            } else {
                next == (StartPhase::ConsumedStopped { ticket })
            }
            &&& forall|ticket: u32|
                op.phase == (StartPhase::ConsumedTicket { readers: word }) ==> #[trigger] op.after(
                    Event::Ticket(ticket),
                ).phase == if enough {
                    StartPhase::Mark
                } else {
                    StartPhase::ConsumedStopped { ticket }
                }
            &&& op.phase matches StartPhase::ActiveReaders { ticket } ==> if counts.active_readers
                == 0 {
                next == StartPhase::Finished(true)
            } else {
                next == (StartPhase::ActiveStopped { ticket })
            }
        }),
{
}

/// What a reader makes of its looks at the sequence word, in memory that others
/// use, too: it registers for a message that it has not seen and nobody writes,
/// ends with nothing only where there is no other message and none is waited for
/// or will come, and sleeps otherwise; and it keeps the message only if it is
/// still the one it registered for.
pub proof fn law_reader_looks(op: ReadOperation, word: u64)
    ensures
        ({
            let state = SequenceState::unpacked(word);
            let next = op.after(Event::Word(word));
            &&& next.last_seen == op.last_seen
            &&& next.block == op.block
            &&& op.phase matches ReadPhase::Observe { ticket } ==> {
                &&& next.phase == ReadPhase::Finished(None) <==> state.sequence == op.last_seen && (
                state.stopped || !op.block)
                &&& next.phase is Register <==> state.sequence != op.last_seen
                    && !state.writing_in_progress
                &&& next.phase matches ReadPhase::Register { sequence, update } ==> sequence
                    == state.sequence && update == UpdatePhase::Load
                &&& next.phase is Register || next.phase == ReadPhase::Finished(None) || next.phase
                    == (ReadPhase::Sleep { ticket })
            }
            &&& op.phase matches ReadPhase::Verify { sequence } ==> if state.sequence == sequence
                && !state.writing_in_progress {
                next.phase == ReadPhase::Finished(Some(sequence))
            } else {
                next.phase == (ReadPhase::Withdraw { update: UpdatePhase::Load })
            }
        }),
{
}

/// A reader that is done notifies the writer after its counters are changed, and
/// not before.
pub proof fn law_release_notifies(op: ReleaseOperation, event: Event)
    ensures
        op.phase is Notify ==> op.next_action() == Some(Action::Notify(Channel::ReaderDone)),
        op.phase matches ReleasePhase::Update(update) ==> (op.after(event).phase is Notify) == (
        update.after(ReaderChange::Release, event) is Finished),
        op.after(event).phase is Finished ==> op.phase is Notify || op.phase is Finished,
{
}

/// A change of the counters, in memory that others use, too: whatever word it
/// has seen last, the word that it puts in its place differs from that one by the
/// change alone; it ends when the word was swapped or no swap is needed, and gives
/// up only where a counter would leave its range.
pub proof fn law_update_looks(op: UpdateOperation, word: u64)
    ensures
        ({
            let counts = ReadersStateCount::unpacked(word);
            let looked = op.after(Event::Word(word));
            let lost = op.after(Event::Swapped { done: false, found: word });
            let won = op.after(Event::Swapped { done: true, found: word });
            &&& op.phase is Load ==> op.phase.next_action() == Some(Action::LoadReaders)
            &&& op.phase matches UpdatePhase::Swap { expected, new } ==> op.phase.next_action()
                == Some(Action::SwapReaders { expected, new })
            &&& op.phase is Load ==> looked.phase == UpdatePhase::seen(op.change, word)
            &&& op.phase is Swap ==> lost.phase == UpdatePhase::seen(op.change, word)
                && won.phase is Finished
            &&& UpdatePhase::seen(op.change, word) !is Load
            &&& UpdatePhase::seen(op.change, word) is Fault <==> counts.changed(op.change) is None
            &&& UpdatePhase::seen(op.change, word) matches UpdatePhase::Swap { expected, new }
                ==> expected == word && Some(ReadersStateCount::unpacked(new)) == counts.changed(
                op.change,
            )
            &&& UpdatePhase::seen(op.change, word) is Finished ==> counts.changed(op.change)
                == Some(counts)
        }),
{
    law_readers_word_round_trip(word);
    if let Some(counts) = ReadersStateCount::unpacked(word).changed(op.change) {
        law_readers_round_trip(counts);
    }
}

/// What a writer makes of its looks at the sequence word: it gives up if and only
/// if the message is stopped, it goes by the sequence that it found under its
/// lock, and a writer that gives up after it has marked its write clears the mark
/// before it unlocks.
pub proof fn law_writer_looks(op: StartWrite, word: u64)
    ensures
        ({
            let state = SequenceState::unpacked(word);
            let next = op.after(Event::Word(word)).phase;
            let done = op.after(Event::Done).phase;
            &&& op.phase is CheckStopped ==> next == if state.stopped {
                StartPhase::Finished(false)
            } else {
                StartPhase::Locking(LockOperation::Fast)
            }
            &&& op.phase is Sequence ==> next == (StartPhase::Readers { sequence: state.sequence })
            &&& op.phase matches StartPhase::ConsumedStopped { ticket } ==> next
                == if state.stopped {
                StartPhase::Unlock
            } else {
                StartPhase::ConsumedKick { ticket }
            }
            &&& op.phase matches StartPhase::ActiveStopped { ticket } ==> next
                == if state.stopped {
                StartPhase::Clear
            } else {
                StartPhase::ActiveSleep { ticket }
            }
            &&& op.phase is Mark ==> op.next_action() == Some(Action::SetWriting) && done
                is ActiveTicket
            &&& op.phase is Clear ==> op.next_action() == Some(Action::ClearWriting) && done
                is Unlock
            &&& op.phase is Unlock ==> op.next_action() == Some(Action::Unlock) && done
                == StartPhase::Finished(false)
            &&& op.phase matches StartPhase::ConsumedKick { ticket } ==> op.next_action() == Some(
                Action::Notify(Channel::Writer),
            ) && done == (StartPhase::ConsumedSleep { ticket })
            &&& op.phase matches StartPhase::ConsumedSleep { ticket } ==> op.next_action() == Some(
                Action::Sleep { channel: Channel::ReaderDone, ticket },
            ) && done is ConsumedReload
            &&& op.phase matches StartPhase::ActiveSleep { ticket } ==> op.next_action() == Some(
                Action::Sleep { channel: Channel::ReaderDone, ticket },
            ) && done is ActiveTicket
        }),
{
}

/// A publication: the size and the count of those who consumed are settled before
/// the sequence word is swapped, the swapped word has the next sequence, no mark
/// and the flag of a stop as it was found, readers are notified after that, and
/// the lock is let go last. One that ends with a stop stores nothing.
pub proof fn law_publication_looks(op: Publish, word: u64)
    ensures
        ({
            let state = SequenceState::unpacked(word);
            let looked = op.after(Event::Word(word));
            let lost = op.after(Event::Swapped { done: false, found: word });
            let won = op.after(Event::Swapped { done: true, found: word });
            let done = op.after(Event::Done);
            let swap = Publish::seen(word);
            &&& looked.size == op.size && lost.size == op.size && won.size == op.size && done.size
                == op.size
            &&& op.phase is CheckStopped ==> op.next_action() == Some(Action::LoadSequence)
                && looked.phase == if state.stopped {
                PublishPhase::UnlockRefused
            } else {
                PublishPhase::StoreSize
            }
            &&& op.phase is UnlockRefused ==> op.next_action() == Some(Action::Unlock) && done.phase
                is Refused
            &&& op.phase is StoreSize ==> op.next_action() == Some(Action::StoreSize(op.size))
                && done.phase == PublishPhase::Reset(UpdatePhase::Load)
            &&& op.phase is Sequence ==> op.next_action() == Some(Action::LoadSequence)
                && looked.phase == swap
            &&& swap matches PublishPhase::Swap { expected, new } && expected == word && {
                let next = SequenceState::unpacked(new);
                &&& !next.writing_in_progress
                &&& next.stopped == state.stopped
                &&& next.sequence == if state.sequence == 0x3fff_ffff_ffff_ffff {
                    1
                } else {
                    state.sequence + 1
                }
            }
            &&& op.phase matches PublishPhase::Swap { expected, new } ==> op.next_action() == Some(
                Action::SwapSequence { expected, new },
            ) && lost.phase == swap && won.phase == (PublishPhase::Notify {
                sequence: SequenceState::unpacked(new).sequence,
            })
            &&& op.phase matches PublishPhase::Notify { sequence } ==> op.next_action() == Some(
                Action::Notify(Channel::Writer),
            ) && done.phase == (PublishPhase::Unlock { sequence })
            &&& op.phase matches PublishPhase::Unlock { sequence } ==> op.next_action() == Some(
                Action::Unlock,
            ) && done.phase == PublishPhase::Finished(sequence)
        }),
{
    law_sequence_round_trip(published(SequenceState::unpacked(word)));
}

/// A stop sets the flag first, then wakes readers and writers, each once.
pub proof fn law_stop_wakes_all()
    ensures
        ({
            let first = StopOperation::SetStopped;
            let second = first.after(Event::Done);
            let third = second.after(Event::Done);
            &&& first.next_action() == Some(Action::SetStopped)
            &&& second.next_action() == Some(Action::Notify(Channel::Writer))
            &&& third.next_action() == Some(Action::Notify(Channel::ReaderDone))
            &&& third.after(Event::Done).next_action() is None
        }),
{
}

/// A reader notes what writers notify before it looks at the message, sleeps only
/// for as long as that is what it noted, and then begins anew. One that takes its
/// registration back notifies the writer before it does.
pub proof fn law_reader_sleeps(op: ReadOperation, ticket: u32)
    ensures
        op.phase is Ticket ==> op.next_action() == Some(Action::LoadTicket(Channel::Writer))
            && op.after(Event::Ticket(ticket)) == (ReadOperation {
            phase: ReadPhase::Observe { ticket },
            ..op
        }),
        op.phase matches ReadPhase::Sleep { ticket: seen } ==> op.next_action() == Some(
            Action::Sleep { channel: Channel::Writer, ticket: seen },
        ) && op.after(Event::Done) == (ReadOperation { phase: ReadPhase::Ticket, ..op }),
        op.phase is Observe || op.phase is Verify ==> op.next_action() == Some(
            Action::LoadSequence,
        ),
        op.phase is Notify ==> op.next_action() == Some(Action::Notify(Channel::ReaderDone))
            && op.after(Event::Done) == (ReadOperation { phase: ReadPhase::Ticket, ..op }),
{
}

} // verus!
