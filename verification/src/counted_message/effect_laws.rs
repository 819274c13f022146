//! What each call leaves of a message, field by field.
use crate::counted_message::operation::{
    smaller, Publish, PublishPhase, ReadOperation, ReadPhase, ReleaseOperation, StartPhase,
    StartWrite,
};
use crate::counted_message::region::{
    decreased, increased, Action, Channel, Counter, Event, Region,
};
use crate::primitives::shared_futex::{LockAction, LockOperation, UNLOCKED};
use crate::shared_message::packed::{law_sequence_after, law_sequence_round_trip, SequenceState};
use crate::shared_message::write_operation::published;
use vstd::prelude::*;

verus! {

/// The counters count up and down by one, and each undoes the other.
pub proof fn law_counters(count: u16)
    ensures
        count < 65535 ==> increased(count) == count + 1,
        count == 65535 ==> increased(count) == 0,
        count > 0 ==> decreased(count) == count - 1,
        count == 0 ==> decreased(count) == 65535,
        decreased(increased(count)) == count,
        increased(decreased(count)) == count,
{
}

/// The number of readers to wait for is what the target asks for, or all there
/// are if they are fewer.
pub proof fn law_target_consumed(region: Region, left: u16, right: u16)
    ensures
        region.target_consumed() <= region.target,
        region.target_consumed() <= region.consumers,
        region.target_consumed() == region.target || region.target_consumed() == region.consumers,
        smaller(left, right) <= left,
        smaller(left, right) <= right,
        smaller(left, right) == left || smaller(left, right) == right,
{
}

/// What a region says is in its words: the current message are the first bytes
/// of the payload.
pub proof fn law_message_of_region(region: Region)
    requires
        region.wf(),
    ensures
        region.sequence() == region.sequence_word % 0x4000_0000_0000_0000,
        region.stopped() <==> region.sequence_word >= 0x8000_0000_0000_0000,
        region.writing() <==> region.sequence_word % 0x8000_0000_0000_0000
            >= 0x4000_0000_0000_0000,
        region.data().len() == region.size,
        forall|i: int| 0 <= i < region.size ==> #[trigger] region.data()[i] == region.payload[i],
{
}

/// In fresh memory there is no message, nobody waits for anything and nobody is
/// waited for.
pub proof fn law_fresh_memory(capacity: nat, last_seen: u64, block: bool)
    ensures
        ({
            let fresh = Region::zeroed(capacity);
            &&& fresh.wf()
            &&& fresh.sequence() == 0
            &&& !fresh.stopped()
            &&& !fresh.writing()
            &&& fresh.target == 0
            &&& fresh.consumers == 0
            &&& fresh.active == 0
            &&& fresh.consumed == 0
            &&& fresh.writer_lock == UNLOCKED
            &&& fresh.payload.len() == capacity
            &&& forall|i: int| 0 <= i < capacity ==> #[trigger] fresh.payload[i] == 0
            &&& fresh.data().len() == 0
            &&& !fresh.write_sleeps()
            &&& fresh.read_sleeps(last_seen, block) <==> last_seen == 0 && block
        }),
{
}

/// A write waits if and only if the message is not stopped and somebody else has
/// the writer lock, or somebody holds the message, or fewer readers than the
/// policy asks for, and fewer than there are, have consumed a message that is
/// there.
pub proof fn law_write_waits(region: Region)
    ensures
        region.stopped() ==> !region.write_sleeps(),
        !region.stopped() && region.writer_lock != UNLOCKED ==> region.write_sleeps(),
        !region.stopped() && region.active > 0 ==> region.write_sleeps(),
        !region.stopped() && region.sequence() > 0 && region.consumed < region.target
            && region.consumed < region.consumers ==> region.write_sleeps(),
        region.writer_lock == UNLOCKED && region.active == 0 && (region.sequence() == 0
            || region.consumed >= region.target || region.consumed >= region.consumers)
            ==> !region.write_sleeps(),
{
}

/// A read waits if and only if there is nothing that it has not seen, it is to
/// wait for more and more may come, or if the message is just being written.
pub proof fn law_read_waits(region: Region, last_seen: u64, block: bool)
    ensures
        region.sequence() != last_seen && !region.writing() ==> !region.read_sleeps(
            last_seen,
            block,
        ),
        region.sequence() != last_seen && region.writing() ==> region.read_sleeps(last_seen, block),
        region.sequence() == last_seen && !block ==> !region.read_sleeps(last_seen, block),
        region.sequence() == last_seen && region.stopped() ==> !region.read_sleeps(
            last_seen,
            block,
        ),
        region.sequence() == last_seen && block && !region.stopped() ==> region.read_sleeps(
            last_seen,
            block,
        ),
{
}

/// A write that does not wait leaves its bytes as the current message under the
/// next sequence, consumed by nobody; whoever waits for data is notified, the
/// lock is free again, and the rest is as it was.
pub proof fn law_write_effect(before: Region, data: Seq<u8>)
    requires
        before.wf(),
        data.len() <= before.payload.len() <= usize::MAX,
    ensures
        ({
            let after = before.started().overwritten(data).published(data.len() as usize);
            &&& after.wf()
            &&& after.sequence() == if before.sequence() == 0x3fff_ffff_ffff_ffff {
                1
            } else {
                before.sequence() + 1
            }
            &&& after.stopped() == before.stopped()
            &&& !after.writing()
            &&& after.size == data.len()
            &&& after.payload.len() == before.payload.len()
            &&& forall|i: int| 0 <= i < data.len() ==> #[trigger] after.payload[i] == data[i]
            &&& forall|i: int|
                data.len() <= i < before.payload.len() ==> #[trigger] after.payload[i]
                    == before.payload[i]
            &&& after.consumed == 0
            &&& after.active == before.active
            &&& after.consumers == before.consumers
            &&& after.target == before.target
            &&& after.writer_lock == UNLOCKED
            &&& after.writer_condvar != before.writer_condvar
            &&& after.reader_done_condvar == before.reader_done_condvar
        }),
{
    law_sequence_after(before.sequence());
    law_sequence_round_trip(SequenceState { writing_in_progress: true, ..before.state() });
    law_sequence_round_trip(published(before.started().state()));
}

/// A guard gives the payload to write to one writer and changes nothing else;
/// publishing it does what a write does, and giving it back unpublished leaves
/// the mark.
pub proof fn law_write_guard_effect(before: Region, size: usize)
    requires
        before.wf(),
        size <= before.payload.len(),
    ensures
        ({
            let held = before.started();
            &&& held.writing()
            &&& held.writer_lock != UNLOCKED
            &&& held.sequence() == before.sequence()
            &&& held.stopped() == before.stopped()
            &&& held == (Region {
                sequence_word: held.sequence_word,
                writer_lock: held.writer_lock,
                ..before
            })
            &&& !held.stopped() ==> held.write_sleeps()
            &&& held.published(size).size == size
            &&& held.published(size).payload == before.payload
            &&& held.published(size).sequence() == if before.sequence() == 0x3fff_ffff_ffff_ffff {
                1
            } else {
                before.sequence() + 1
            }
            &&& !held.published(size).writing()
            &&& held.published(size).writer_lock == UNLOCKED
            &&& held.unlocked() == (Region { writer_lock: UNLOCKED, ..held })
        }),
{
    law_sequence_after(before.sequence());
    law_sequence_round_trip(SequenceState { writing_in_progress: true, ..before.state() });
    law_sequence_round_trip(published(before.started().state()));
}

/// A message that is given back counts as consumed once more and is held once
/// less; whoever waits for readers is notified, and the message stays as it is.
pub proof fn law_release_effect(before: Region)
    requires
        0 < before.active,
        before.consumed < 65535,
    ensures
        ({
            let after = before.released();
            &&& after.active == before.active - 1
            &&& after.consumed == before.consumed + 1
            &&& after.reader_done_condvar != before.reader_done_condvar
            &&& after == (Region {
                active: after.active,
                consumed: after.consumed,
                reader_done_condvar: after.reader_done_condvar,
                ..before
            })
        }),
{
}

/// The memory after so many reads of a message that were given back.
pub open spec fn read_times(region: Region, reads: nat) -> Region
    decreases reads,
{
    if reads == 0 {
        region
    } else {
        let before = read_times(region, (reads - 1) as nat);
        Region { active: increased(before.active), ..before }.released()
    }
}

/// Backpressure over whole writes and reads: after a write, the next one waits
/// until as many reads were made and given back as the policy asks for, or as
/// there are readers, and then it waits no more.
pub proof fn law_backpressure_counts_reads(before: Region, data: Seq<u8>, reads: nat)
    requires
        before.wf(),
        !before.stopped(),
        data.len() <= before.payload.len() <= usize::MAX,
        before.active == 0,
        reads <= 65535,
    ensures
        ({
            let written = before.started().overwritten(data).published(data.len() as usize);
            let after = read_times(written, reads);
            &&& after.data() == data
            &&& after.sequence() == written.sequence()
            &&& after.write_sleeps() <==> reads < before.target && reads < before.consumers
        }),
{
    let written = before.started().overwritten(data).published(data.len() as usize);
    law_write_effect(before, data);
    assert(written.data() =~= data);
    lemma_read_times(written, reads);
}

proof fn lemma_read_times(region: Region, reads: nat)
    requires
        region.active == 0,
        region.consumed == 0,
        reads <= 65535,
    ensures
        ({
            let after = read_times(region, reads);
            after == (Region {
                consumed: reads as u16,
                reader_done_condvar: after.reader_done_condvar,
                ..region
            })
        }),
    decreases reads,
{
    if reads > 0 {
        lemma_read_times(region, (reads - 1) as nat);
    }
}

/// A stop sets its flag and notifies both sides; the message stays as it is.
pub proof fn law_stop_effect(before: Region)
    ensures
        ({
            let after = before.with_state(
                SequenceState { stopped: true, ..before.state() },
            ).notify(Channel::Writer).notify(Channel::ReaderDone);
            &&& after.stopped()
            &&& after.writing() == before.writing()
            &&& after.sequence() == before.sequence()
            &&& after.writer_condvar != before.writer_condvar
            &&& after.reader_done_condvar != before.reader_done_condvar
            &&& after == (Region {
                sequence_word: after.sequence_word,
                writer_condvar: after.writer_condvar,
                reader_done_condvar: after.reader_done_condvar,
                ..before
            })
            &&& !after.write_sleeps()
            &&& forall|last_seen: u64, block: bool| #[trigger]
                after.read_sleeps(last_seen, block) ==> last_seen != before.sequence()
                    && before.writing()
        }),
{
    law_sequence_round_trip(SequenceState { stopped: true, ..before.state() });
}

/// What each access changes, and that it changes nothing else.
pub proof fn law_access_effect(before: Region, action: Action)
    ensures
        ({
            let after = before.after(action);
            match action {
                Action::LoadSequence | Action::Load(_) | Action::LoadTicket(_) => after == before,
                Action::Sleep { .. } => after == before,
                Action::SwapSequence { expected, new } => after == (Region {
                    sequence_word: after.sequence_word,
                    ..before
                }) && after.sequence_word == (if before.sequence_word == expected {
                    new
                } else {
                    before.sequence_word
                }),
                Action::SetWriting => after == (Region {
                    sequence_word: after.sequence_word,
                    ..before
                }) && after.writing() && after.stopped() == before.stopped() && after.sequence()
                    == before.sequence(),
                Action::ClearWriting => after == (Region {
                    sequence_word: after.sequence_word,
                    ..before
                }) && !after.writing() && after.stopped() == before.stopped() && after.sequence()
                    == before.sequence(),
                Action::SetStopped => after == (Region {
                    sequence_word: after.sequence_word,
                    ..before
                }) && after.stopped() && after.writing() == before.writing() && after.sequence()
                    == before.sequence(),
                Action::Increase(Counter::Active) => after == (Region {
                    active: ((before.active + 1) % 0x1_0000) as u16,
                    ..before
                }),
                Action::Increase(Counter::Consumed) => after == (Region {
                    consumed: ((before.consumed + 1) % 0x1_0000) as u16,
                    ..before
                }),
                Action::Increase(Counter::Consumers) => after == (Region {
                    consumers: ((before.consumers + 1) % 0x1_0000) as u16,
                    ..before
                }),
                Action::Decrease(Counter::Active) => after == (Region {
                    active: after.active,
                    ..before
                }) && before.active == (after.active + 1) % 0x1_0000,
                Action::Decrease(Counter::Consumers) => after == (Region {
                    consumers: after.consumers,
                    ..before
                }) && before.consumers == (after.consumers + 1) % 0x1_0000,
                Action::Store(Counter::Active, count) => after == (Region {
                    active: count,
                    ..before
                }),
                Action::Store(Counter::Consumed, count) => after == (Region {
                    consumed: count,
                    ..before
                }),
                Action::Store(Counter::Target, count) => after == (Region {
                    target: count,
                    ..before
                }),
                Action::Store(Counter::Consumers, count) => after == (Region {
                    consumers: count,
                    ..before
                }),
                Action::Increase(Counter::Target) => true,
                Action::Decrease(_) => true,
                Action::StoreSize(size) => after == (Region { size, ..before }),
                Action::Lock(LockAction::TakeFree) => after == (Region {
                    writer_lock: if before.writer_lock == 0 {
                        1
                    } else {
                        before.writer_lock
                    },
                    ..before
                }),
                Action::Lock(LockAction::MarkContended) => after == (Region {
                    writer_lock: 2,
                    ..before
                }),
                Action::Lock(_) => after == before,
                Action::Unlock => after == (Region { writer_lock: 0, ..before }),
                Action::Notify(Channel::Writer) => after == (Region {
                    writer_condvar: after.writer_condvar,
                    ..before
                }) && after.writer_condvar == (before.writer_condvar + 1) % 0x1_0000_0000,
                Action::Notify(Channel::ReaderDone) => after == (Region {
                    reader_done_condvar: after.reader_done_condvar,
                    ..before
                }) && after.reader_done_condvar == (before.reader_done_condvar + 1)
                    % 0x1_0000_0000,
            }
        }),
{
    law_sequence_round_trip(SequenceState { stopped: true, ..before.state() });
    law_sequence_round_trip(SequenceState { writing_in_progress: true, ..before.state() });
    law_sequence_round_trip(SequenceState { writing_in_progress: false, ..before.state() });
}

/// What each access gives back: what was there before it. A sleep has none while
/// what it sleeps on is unchanged.
pub proof fn law_access_answer(before: Region, action: Action)
    ensures
        match action {
            Action::LoadSequence => before.answer(action) == Some(Event::Word(before.sequence_word)),
            Action::Load(Counter::Active) | Action::Increase(Counter::Active) | Action::Decrease(
                Counter::Active,
            ) => before.answer(action) == Some(Event::Count(before.active)),
            Action::Load(Counter::Consumed) => before.answer(action) == Some(
                Event::Count(before.consumed),
            ),
            Action::Load(Counter::Target) => before.answer(action) == Some(
                Event::Count(before.target),
            ),
            Action::Load(Counter::Consumers) => before.answer(action) == Some(
                Event::Count(before.consumers),
            ),
            Action::Increase(_) | Action::Decrease(_) => before.answer(action) matches Some(
                Event::Count(_),
            ),
            Action::LoadTicket(Channel::Writer) => before.answer(action) == Some(
                Event::Ticket(before.writer_condvar),
            ),
            Action::LoadTicket(Channel::ReaderDone) => before.answer(action) == Some(
                Event::Ticket(before.reader_done_condvar),
            ),
            Action::SwapSequence { expected, new } => before.answer(action) matches Some(
                Event::Swapped { done, found },
            ) && found == before.sequence_word && (done <==> expected == before.sequence_word),
            Action::Lock(LockAction::Sleep) => before.answer(action) is None <==> before.writer_lock
                == 2,
            Action::Lock(_) => before.answer(action) == Some(Event::Lock(before.writer_lock)),
            Action::Sleep { channel: Channel::Writer, ticket } => before.answer(action) is None
                <==> before.writer_condvar == ticket,
            Action::Sleep { channel: Channel::ReaderDone, ticket } => before.answer(action) is None
                <==> before.reader_done_condvar == ticket,
            _ => before.answer(action) == Some(Event::Done),
        },
{
}

/// What a writer makes of its looks at the counters, in memory that others use,
/// too: it waits for as many readers as the target asks for, but no more than
/// there are, also if some leave while it waits, and it may write once nobody
/// holds the message.
pub proof fn law_writer_waits_for_policy(op: StartWrite, count: u16)
    ensures
        ({
            let next = op.after(Event::Count(count)).phase;
            &&& op.phase matches StartPhase::Target { sequence } ==> next == (
            StartPhase::Consumers { sequence, target: count })
            &&& op.phase matches StartPhase::Consumers { sequence, target } ==> if sequence == 0
                || target == 0 || count == 0 {
                next == StartPhase::Mark
            } else {
                &&& next matches StartPhase::Consumed { target: waited }
                &&& waited <= target
                &&& waited <= count
                &&& waited == target || waited == count
            }
            &&& op.phase matches StartPhase::Consumed { target } ==> if count >= target {
                next == StartPhase::Mark
            } else {
                next == (StartPhase::ConsumedStopped { target })
            }
            &&& op.phase matches StartPhase::ConsumedAgain { target } ==> next == (
            StartPhase::ConsumersAgain { target, consumed: count })
            &&& op.phase matches StartPhase::ConsumersAgain { target, consumed } ==> if consumed
                >= target || consumed >= count {
                next == StartPhase::Mark
            } else {
                &&& next matches StartPhase::ConsumedStopped { target: waited }
                &&& waited <= target
                &&& waited <= count
                &&& waited == target || waited == count
            }
            &&& op.phase is Active ==> if count == 0 {
                next == StartPhase::Finished(true)
            } else {
                next == StartPhase::ActiveStopped
            }
        }),
{
}

/// What a reader makes of its looks at the sequence word, in memory that others
/// use, too: it registers for a message that it has not seen and nobody writes,
/// ends with nothing only where there is no other message and none is waited for
/// or will come, and sleeps otherwise; and it keeps the message only if it is
/// still the one it registered for.
pub proof fn law_reader_looks(op: ReadOperation, word: u64)
    ensures
        ({
            let state = SequenceState::unpacked(word);
            let next = op.after(Event::Word(word));
            &&& next.last_seen == op.last_seen
            &&& next.block == op.block
            &&& op.phase is Observe ==> {
                &&& next.phase == ReadPhase::Finished(None) <==> state.sequence == op.last_seen && (
                state.stopped || !op.block)
                &&& next.phase is Register <==> state.sequence != op.last_seen
                    && !state.writing_in_progress
                &&& next.phase matches ReadPhase::Register { sequence } ==> sequence
                    == state.sequence
                &&& next.phase is Register || next.phase == ReadPhase::Finished(None) || next.phase
                    is Doze
            }
            &&& op.phase matches ReadPhase::Verify { sequence } ==> if state.sequence == sequence
                && !state.writing_in_progress {
                next.phase == ReadPhase::Finished(Some(sequence))
            } else {
                next.phase == ReadPhase::Withdraw
            }
        }),
{
}

/// What a writer makes of its looks at the sequence word: it gives up if and only
/// if the message is stopped, it goes by the sequence that it found under its
/// lock, and a writer that gives up after it has marked its write clears the mark
/// before it unlocks.
pub proof fn law_writer_looks(op: StartWrite, word: u64, ticket: u32)
    ensures
        ({
            let state = SequenceState::unpacked(word);
            let next = op.after(Event::Word(word)).phase;
            let dozed = op.after(Event::Ticket(ticket)).phase;
            let done = op.after(Event::Done).phase;
            &&& op.phase is CheckStopped ==> next == if state.stopped {
                StartPhase::Finished(false)
            } else {
                StartPhase::Locking(LockOperation::Fast)
            }
            &&& op.phase is Sequence ==> next == (StartPhase::Target { sequence: state.sequence })
            &&& op.phase matches StartPhase::ConsumedStopped { target } ==> next
                == if state.stopped {
                StartPhase::Unlock
            } else {
                StartPhase::ConsumedDoze { target }
            }
            &&& op.phase is ActiveStopped ==> next == if state.stopped {
                StartPhase::Clear
            } else {
                StartPhase::ActiveDoze
            }
            &&& op.phase is Mark ==> op.next_action() == Some(Action::SetWriting) && done is Active
            &&& op.phase is Clear ==> op.next_action() == Some(Action::ClearWriting) && done
                is Unlock
            &&& op.phase is Unlock ==> op.next_action() == Some(Action::Unlock) && done
                == StartPhase::Finished(false)
            &&& op.phase matches StartPhase::ConsumedDoze { target } ==> op.next_action() == Some(
                Action::LoadTicket(Channel::ReaderDone),
            ) && dozed == (StartPhase::ConsumedSleep { target, ticket })
            &&& op.phase is ActiveDoze ==> op.next_action() == Some(
                Action::LoadTicket(Channel::ReaderDone),
            ) && dozed == (StartPhase::ActiveSleep { ticket })
            &&& op.phase matches StartPhase::ConsumedSleep { target, ticket: seen }
                ==> op.next_action() == Some(
                Action::Sleep { channel: Channel::ReaderDone, ticket: seen },
            ) && done == (StartPhase::ConsumedAgain { target })
            &&& op.phase matches StartPhase::ActiveSleep { ticket: seen } ==> op.next_action()
                == Some(Action::Sleep { channel: Channel::ReaderDone, ticket: seen }) && done
                is Active
        }),
{
}

/// A publication: the size and the count of those who consumed are settled before
/// the sequence word is swapped, the swapped word has the next sequence, no mark
/// and the flag of a stop as it was found, readers are notified after that, and
/// the lock is let go last. One that ends with a stop stores nothing.
pub proof fn law_publication_looks(op: Publish, word: u64)
    ensures
        ({
            let state = SequenceState::unpacked(word);
            let looked = op.after(Event::Word(word));
            let lost = op.after(Event::Swapped { done: false, found: word });
            let won = op.after(Event::Swapped { done: true, found: word });
            let done = op.after(Event::Done);
            &&& looked.size == op.size && lost.size == op.size && won.size == op.size && done.size
                == op.size
            &&& op.phase is CheckStopped ==> op.next_action() == Some(Action::LoadSequence)
                && looked.phase == if state.stopped {
                PublishPhase::UnlockRefused
            } else {
                PublishPhase::StoreSize
            }
            &&& op.phase is UnlockRefused ==> op.next_action() == Some(Action::Unlock) && done.phase
                is Refused
            &&& op.phase is StoreSize ==> op.next_action() == Some(Action::StoreSize(op.size))
                && done.phase is ResetConsumed
            &&& op.phase is ResetConsumed ==> op.next_action() == Some(
                Action::Store(Counter::Consumed, 0),
            ) && done.phase is Sequence
            &&& op.phase is Sequence ==> op.next_action() == Some(Action::LoadSequence) && (
            looked.phase matches PublishPhase::Swap { expected, new } && expected == word && {
                let next = SequenceState::unpacked(new);
                &&& !next.writing_in_progress
                &&& next.stopped == state.stopped
                &&& next.sequence == if state.sequence == 0x3fff_ffff_ffff_ffff {
                    1
                } else {
                    state.sequence + 1
                }
            })
            &&& op.phase matches PublishPhase::Swap { expected, new } ==> op.next_action() == Some(
                Action::SwapSequence { expected, new },
            ) && lost.phase is Sequence && won.phase == (PublishPhase::Notify {
                sequence: SequenceState::unpacked(new).sequence,
            })
            &&& op.phase matches PublishPhase::Notify { sequence } ==> op.next_action() == Some(
                Action::Notify(Channel::Writer),
            ) && done.phase == (PublishPhase::Unlock { sequence })
            &&& op.phase matches PublishPhase::Unlock { sequence } ==> op.next_action() == Some(
                Action::Unlock,
            ) && done.phase == PublishPhase::Finished(sequence)
        }),
{
    law_sequence_round_trip(published(SequenceState::unpacked(word)));
}

/// A reader counts itself in among the active before it looks at the message
/// again, and takes that back, and no more, if the message has changed.
pub proof fn law_reader_counts_itself(op: ReadOperation, count: u16)
    ensures
        op.phase matches ReadPhase::Register { sequence } ==> op.next_action() == Some(
            Action::Increase(Counter::Active),
        ) && op.after(Event::Count(count)).phase == (ReadPhase::Verify { sequence }),
        op.phase is Withdraw ==> op.next_action() == Some(Action::Decrease(Counter::Active))
            && op.after(Event::Count(count)).phase is Observe,
{
}

/// A reader that is done leaves the active, is counted as done, and notifies the
/// writer last.
pub proof fn law_release_in_order(first: u16, second: u16)
    ensures
        ({
            let active = ReleaseOperation::Active;
            let consumed = active.after(Event::Count(first));
            let notify = consumed.after(Event::Count(second));
            &&& active.next_action() == Some(Action::Decrease(Counter::Active))
            &&& consumed.next_action() == Some(Action::Increase(Counter::Consumed))
            &&& notify.next_action() == Some(Action::Notify(Channel::ReaderDone))
            &&& notify.after(Event::Done).next_action() is None
        }),
{
}

/// A reader that has to wait sleeps on what writers notify, for as long as it is
/// what the reader saw of it, and then looks at the message anew.
pub proof fn law_reader_sleeps(op: ReadOperation, ticket: u32)
    ensures
        op.phase is Doze ==> op.next_action() == Some(Action::LoadTicket(Channel::Writer))
            && op.after(Event::Ticket(ticket)) == (ReadOperation {
            phase: ReadPhase::Sleep { ticket },
            ..op
        }),
        op.phase matches ReadPhase::Sleep { ticket: seen } ==> op.next_action() == Some(
            Action::Sleep { channel: Channel::Writer, ticket: seen },
        ) && op.after(Event::Done) == (ReadOperation { phase: ReadPhase::Observe, ..op }),
        op.phase is Observe || op.phase is Verify ==> op.next_action() == Some(
            Action::LoadSequence,
        ),
{
}

} // verus!
