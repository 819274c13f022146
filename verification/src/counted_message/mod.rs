//! A message in shared memory whose reader counters are words of their own.
//!
//! The counters wrap around; nobody reports one that leaves its range.
use crate::counted_message::guard::{MessageReadGuard, MessageWriteGuard, PayloadWriteGuard};
use crate::counted_message::operation::{
    Publish, PublishPhase, ReadOperation, ReadPhase, ReleaseOperation, StartPhase, StartWrite,
};
use crate::counted_message::region::{
    decreased, increased, Action, Channel, Counter, Event, Region,
};
use crate::primitives::shared_futex::{LockOperation, SharedFutex, LOCKED};
use crate::shared_message::packed::{
    law_flag_masks, law_sequence_round_trip, law_sequence_word_round_trip, sequence_after,
    SequenceState,
};
use crate::shared_message::write_operation::published;
use crate::sync::condvar::SharedCondvar;
use vstd::prelude::*;

pub mod effect_laws;
pub mod guard;
pub mod laws;
pub mod live;
pub mod operation;
pub mod publication_laws;
pub mod read_laws;
pub mod region;

verus! {

/// The shared memory of a message: header and payload.
pub struct SharedMessage {
    sequence_and_flags: u64,
    active_readers_count: u16,
    consumed_counts: u16,
    target_read_count: u16,
    consumer_count: u16,
    /// Readers wait here for new data.
    writer_futex: SharedCondvar,
    /// The writer waits here for readers to finish.
    reader_done_futex: SharedCondvar,
    /// Serializes multiple writers.
    writer_mutex: SharedFutex,
    data_size: usize,
    data: Vec<u8>,
}

impl View for SharedMessage {
    type V = Region;

    closed spec fn view(&self) -> Region {
        Region {
            sequence_word: self.sequence_and_flags,
            active: self.active_readers_count,
            consumed: self.consumed_counts,
            target: self.target_read_count,
            consumers: self.consumer_count,
            writer_condvar: self.writer_futex@,
            reader_done_condvar: self.reader_done_futex@,
            writer_lock: self.writer_mutex@,
            size: self.data_size,
            payload: self.data@,
        }
    }
}

impl SharedMessage {
    /// Zeroed memory with room for `capacity` bytes of payload.
    pub fn zeroed(capacity: usize) -> (message: Self)
        ensures
            message@ == Region::zeroed(capacity as nat),
            message@.wf(),
    {
        let data: Vec<u8> = vec![0u8; capacity];
        let message = SharedMessage {
            sequence_and_flags: 0,
            active_readers_count: 0,
            consumed_counts: 0,
            target_read_count: 0,
            consumer_count: 0,
            writer_futex: SharedCondvar::default(),
            reader_done_futex: SharedCondvar::default(),
            writer_mutex: SharedFutex::default(),
            data_size: 0,
            data,
        };
        assert(message@.payload =~= Region::zeroed(capacity as nat).payload);
        message
    }

    fn load(&self, counter: Counter) -> (count: u16)
        ensures
            count == self@.counter(counter),
    {
        match counter {
            Counter::Active => self.active_readers_count,
            Counter::Consumed => self.consumed_counts,
            Counter::Target => self.target_read_count,
            Counter::Consumers => self.consumer_count,
        }
    }

    fn store(&mut self, counter: Counter, count: u16)
        ensures
            final(self)@ == old(self)@.with_counter(counter, count),
    {
        match counter {
            Counter::Active => {
                self.active_readers_count = count;
            },
            Counter::Consumed => {
                self.consumed_counts = count;
            },
            Counter::Target => {
                self.target_read_count = count;
            },
            Counter::Consumers => {
                self.consumer_count = count;
            },
        }
    }

    /// Makes one access of an operation. `None` where the one that makes it
    /// sleeps: it makes the access again when it wakes.
    pub fn perform(&mut self, action: Action) -> (event: Option<Event>)
        requires
            old(self)@.wf(),
            action matches Action::StoreSize(size) ==> size <= old(self)@.payload.len(),
        ensures
            final(self)@ == old(self)@.after(action),
            final(self)@.wf(),
            event == old(self)@.answer(action),
    {
        proof {
            law_flag_masks(self.sequence_and_flags);
            law_sequence_word_round_trip(
                self.sequence_and_flags | SequenceState::WRITING_IN_PROGRESS_MASK,
            );
            law_sequence_word_round_trip(
                self.sequence_and_flags & !SequenceState::WRITING_IN_PROGRESS_MASK,
            );
            law_sequence_word_round_trip(self.sequence_and_flags | SequenceState::STOPPED_MASK);
        }
        match action {
            Action::LoadSequence => Some(Event::Word(self.sequence_and_flags)),
            Action::LoadTicket(Channel::Writer) => Some(Event::Ticket(self.writer_futex.value())),
            Action::LoadTicket(Channel::ReaderDone) => Some(
                Event::Ticket(self.reader_done_futex.value()),
            ),
            Action::SwapSequence { expected, new } => {
                let found: u64 = self.sequence_and_flags;
                if found == expected {
                    self.sequence_and_flags = new;
                }
                Some(Event::Swapped { done: found == expected, found })
            },
            Action::SetWriting => {
                self.sequence_and_flags = self.sequence_and_flags
                    | SequenceState::WRITING_IN_PROGRESS_MASK;
                Some(Event::Done)
            },
            Action::ClearWriting => {
                self.sequence_and_flags = self.sequence_and_flags
                    & !SequenceState::WRITING_IN_PROGRESS_MASK;
                Some(Event::Done)
            },
            Action::SetStopped => {
                self.sequence_and_flags = self.sequence_and_flags | SequenceState::STOPPED_MASK;
                Some(Event::Done)
            },
            Action::Load(counter) => Some(Event::Count(self.load(counter))),
            Action::Increase(counter) => {
                let count: u16 = self.load(counter);
                self.store(counter, count.wrapping_add(1));
                Some(Event::Count(count))
            },
            Action::Decrease(counter) => {
                let count: u16 = self.load(counter);
                self.store(counter, count.wrapping_sub(1));
                Some(Event::Count(count))
            },
            Action::Store(counter, count) => {
                self.store(counter, count);
                Some(Event::Done)
            },
            Action::StoreSize(size) => {
                self.data_size = size;
                Some(Event::Done)
            },
            Action::Lock(action) => {
                match self.writer_mutex.perform(action) {
                    Some(found) => Some(Event::Lock(found)),
                    None => None,
                }
            },
            Action::Unlock => {
                let _ = self.writer_mutex.unlock();
                Some(Event::Done)
            },
            Action::Notify(Channel::Writer) => {
                let _ = self.writer_futex.notify_all();
                Some(Event::Done)
            },
            Action::Notify(Channel::ReaderDone) => {
                let _ = self.reader_done_futex.notify_all();
                Some(Event::Done)
            },
            Action::Sleep { channel: Channel::Writer, ticket } => {
                if self.writer_futex.wait(ticket) {
                    None
                } else {
                    Some(Event::Done)
                }
            },
            Action::Sleep { channel: Channel::ReaderDone, ticket } => {
                if self.reader_done_futex.wait(ticket) {
                    None
                } else {
                    Some(Event::Done)
                }
            },
        }
    }

    #[inline]
    pub fn get_state(&self) -> (state: SequenceState)
        ensures
            state == self@.state(),
    {
        SequenceState::from(self.sequence_and_flags)
    }

    /// Whether a reader would have to wait. It would wait for somebody else to
    /// write, to publish or to stop the message.
    pub fn read_would_wait(&self, last_seen: u64, block: bool) -> (waits: bool)
        ensures
            waits == self@.read_sleeps(last_seen, block),
    {
        let state = self.get_state();
        if state.sequence == last_seen {
            block && !state.stopped
        } else {
            state.writing_in_progress
        }
    }

    /// Whether a writer would have to wait. It would wait for readers, or for
    /// another writer.
    pub fn write_would_wait(&self) -> (waits: bool)
        ensures
            waits == self@.write_sleeps(),
    {
        let state = self.get_state();
        let target: u16 = if self.target_read_count <= self.consumer_count {
            self.target_read_count
        } else {
            self.consumer_count
        };
        !state.stopped && (self.writer_mutex.is_locked() || (state.sequence > 0
            && self.consumed_counts < target) || self.active_readers_count > 0)
    }

    /// Gets the right to write the payload; `None` if stopped.
    pub fn acquire_write_buffer(&mut self) -> (guard: Option<PayloadWriteGuard>)
        requires
            old(self)@.wf(),
            !old(self)@.write_sleeps(),
        ensures
            guard is None <==> old(self)@.stopped(),
            guard matches Some(held) ==> held@,
            final(self)@ == (if guard is Some {
                old(self)@.started()
            } else {
                old(self)@
            }),
            final(self)@.wf(),
    {
        let ghost start = self@;
        let mut op = StartWrite::new();
        loop
            invariant
                self@.wf(),
                !start.write_sleeps(),
                start_reached(start, self@, op.phase),
            ensures
                op.next_action() is None,
            decreases start_distance(op.phase),
        {
            let action = match op.action() {
                Some(action) => action,
                None => break,
            };
            match self.perform(action) {
                Some(event) => op.resume(event),
                None => return None,
            }
        }
        if let StartPhase::Finished(true) = op.phase {
            Some(PayloadWriteGuard::new())
        } else {
            None
        }
    }

    /// A reader is done with the message it holds.
    pub(crate) fn release_active_reader(&mut self)
        requires
            old(self)@.wf(),
        ensures
            final(self)@ == old(self)@.released(),
            final(self)@.wf(),
    {
        let mut op = ReleaseOperation::Active;
        let ghost start = self@;
        loop
            invariant
                self@.wf(),
                release_reached(start, self@, op),
            ensures
                op.next_action() is None,
            decreases release_distance(op),
        {
            let action = match op.action() {
                Some(action) => action,
                None => break,
            };
            match self.perform(action) {
                Some(event) => op.resume(event),
                None => return,
            }
        }
    }

    /// How many bytes the payload has room for.
    pub fn capacity(&self) -> (capacity: usize)
        ensures
            capacity == self@.payload.len(),
    {
        self.data.len()
    }

    /// The bytes of the current message.
    pub(crate) fn payload_ref(&self) -> (data: &[u8])
        requires
            self@.wf(),
        ensures
            data@ == self@.data(),
    {
        vstd::slice::slice_subrange(self.data.as_slice(), 0, self.data_size)
    }

    /// The payload, for the one that may write it.
    pub(crate) fn payload_mut(&mut self, _write_guard: &PayloadWriteGuard) -> (data: &mut [u8])
        ensures
            data@ == old(self)@.payload,
            final(self)@ == (Region { payload: final(data)@, ..old(self)@ }),
    {
        self.data.as_mut_slice()
    }

    /// Gives the right to write back without publishing.
    pub(crate) fn release_writer(&mut self, _write_guard: PayloadWriteGuard)
        requires
            old(self)@.wf(),
        ensures
            final(self)@ == old(self)@.unlocked(),
            final(self)@.wf(),
    {
        let _ = self.perform(Action::Unlock);
    }

    /// Makes the first `size` bytes of the payload the current message and
    /// gives the right to write back. The stopped flag is kept.
    pub(crate) fn publish_write(
        &mut self,
        _write_guard: PayloadWriteGuard,
        size: usize,
    ) -> (sequence: Option<u64>)
        requires
            old(self)@.wf(),
            size <= old(self)@.payload.len(),
        ensures
            sequence == Some(sequence_after(old(self)@.sequence())),
            final(self)@ == old(self)@.published(size),
            final(self)@.wf(),
    {
        self.run_publish(Publish::new(size))
    }

    /// The same for a guard: if the message was stopped, nothing is published,
    /// and the mark of the write stays.
    pub(crate) fn publish_guarded(
        &mut self,
        _write_guard: PayloadWriteGuard,
        size: usize,
    ) -> (sequence: Option<u64>)
        requires
            old(self)@.wf(),
            size <= old(self)@.payload.len(),
        ensures
            sequence == (if old(self)@.stopped() {
                None
            } else {
                Some(sequence_after(old(self)@.sequence()))
            }),
            final(self)@ == (if old(self)@.stopped() {
                old(self)@.unlocked()
            } else {
                old(self)@.published(size)
            }),
            final(self)@.wf(),
    {
        self.run_publish(Publish::guarded(size))
    }

    /// Runs a publication to its end.
    fn run_publish(&mut self, publish: Publish) -> (sequence: Option<u64>)
        requires
            old(self)@.wf(),
            publish.size <= old(self)@.payload.len(),
            publish.phase is StoreSize || publish.phase is CheckStopped,
        ensures
            sequence == (if publish.phase is CheckStopped && old(self)@.stopped() {
                None
            } else {
                Some(sequence_after(old(self)@.sequence()))
            }),
            final(self)@ == (if publish.phase is CheckStopped && old(self)@.stopped() {
                old(self)@.unlocked()
            } else {
                old(self)@.published(publish.size)
            }),
            final(self)@.wf(),
    {
        let ghost start = self@;
        let mut op = publish;
        proof {
            law_sequence_round_trip(published(start.state()));
        }
        loop
            invariant
                self@.wf(),
                op.size == publish.size,
                publish.size <= start.payload.len(),
                publish_reached(start, publish.phase is CheckStopped, self@, op),
                SequenceState::unpacked(published(start.state()).packed()) == published(
                    start.state(),
                ),
            ensures
                op.next_action() is None,
            decreases publish_distance(op.phase),
        {
            let action = match op.action() {
                Some(action) => action,
                None => break,
            };
            match self.perform(action) {
                Some(event) => op.resume(event),
                None => return None,
            }
        }
        if let PublishPhase::Finished(sequence) = op.phase {
            Some(sequence)
        } else {
            None
        }
    }

    /// Returns the new sequence number if successful, `None` if stopped.
    pub fn write(&mut self, new_data: &[u8]) -> (sequence: Option<u64>)
        requires
            old(self)@.wf(),
            !old(self)@.write_sleeps(),
            !old(self)@.stopped() ==> new_data@.len() <= old(self)@.payload.len(),
        ensures
            sequence == (if old(self)@.stopped() {
                None
            } else {
                Some(sequence_after(old(self)@.sequence()))
            }),
            final(self)@ == (if sequence is Some {
                old(self)@.started().overwritten(new_data@).published(new_data.len())
            } else {
                old(self)@
            }),
            final(self)@.wf(),
            sequence is Some ==> final(self)@.data() == new_data@,
    {
        let ghost start = self@;
        let guard = match self.acquire_write_buffer() {
            Some(guard) => guard,
            None => return None,
        };
        let length: usize = new_data.len();
        let mut i: usize = 0;
        while i < length
            invariant
                i <= length,
                length == new_data@.len(),
                length <= start.payload.len(),
                self@ == start.started().overwritten(new_data@.take(i as int)),
            decreases length - i,
        {
            self.data.set(i, new_data[i]);
            i = i + 1;
            assert(self@.payload =~= start.started().overwritten(new_data@.take(i as int)).payload);
        }
        assert(new_data@.take(length as int) =~= new_data@);
        let sequence = self.publish_write(guard, length);
        assert(self@.data() =~= new_data@);
        sequence
    }

    /// Returns a guard that gives access to the payload. The data will be
    /// published when the guard's `publish()` is called. The writer lock is
    /// held until the guard is published or abandoned.
    pub fn acquire_write_guard(&mut self) -> (guard: Option<MessageWriteGuard>)
        requires
            old(self)@.wf(),
            !old(self)@.write_sleeps(),
        ensures
            guard is None <==> old(self)@.stopped(),
            guard matches Some(held) ==> held@@,
            final(self)@ == (if guard is Some {
                old(self)@.started()
            } else {
                old(self)@
            }),
            final(self)@.wf(),
    {
        match self.acquire_write_buffer() {
            Some(guard) => Some(MessageWriteGuard::new(guard)),
            None => None,
        }
    }

    /// Returns a guard if there is a message other than the one with sequence
    /// `last_seen`, `None` otherwise.
    pub fn read(&mut self, last_seen: u64, block: bool) -> (guard: Option<MessageReadGuard>)
        requires
            old(self)@.wf(),
            !old(self)@.read_sleeps(last_seen, block),
        ensures
            guard is Some <==> old(self)@.sequence() != last_seen,
            guard matches Some(held) ==> held@ == old(self)@.sequence(),
            final(self)@ == (if guard is Some {
                (Region { active: increased(old(self)@.active), ..old(self)@ })
            } else {
                old(self)@
            }),
            final(self)@.wf(),
    {
        let ghost start = self@;
        let mut op = ReadOperation::new(last_seen, block);
        loop
            invariant
                self@.wf(),
                op.last_seen == last_seen,
                op.block == block,
                !start.read_sleeps(last_seen, block),
                read_reached(start, self@, op),
            ensures
                op.next_action() is None,
            decreases read_distance(op.phase),
        {
            let action = match op.action() {
                Some(action) => action,
                None => break,
            };
            match self.perform(action) {
                Some(event) => op.resume(event),
                None => return None,
            }
        }
        if let ReadPhase::Finished(Some(sequence)) = op.phase {
            Some(MessageReadGuard::new(sequence))
        } else {
            None
        }
    }

    /// Get the current sequence number.
    pub fn current_sequence(&self) -> (sequence: u64)
        ensures
            sequence == self@.sequence(),
    {
        self.get_state().sequence
    }

    /// Check if there's new data compared to the given sequence.
    pub fn has_new_data(&self, last_seen: u64) -> (result: bool)
        ensures
            result == (self@.sequence() != last_seen),
    {
        self.get_state().sequence != last_seen
    }

    /// Check if the message has been stopped.
    pub fn is_stopped(&self) -> (stopped: bool)
        ensures
            stopped == self@.stopped(),
    {
        self.get_state().stopped
    }

    /// Signal that no more writes will occur, and wake all who wait.
    pub fn stop(&mut self)
        requires
            old(self)@.wf(),
        ensures
            final(self)@ == old(self)@.with_state(
                SequenceState { stopped: true, ..old(self)@.state() },
            ).notify(Channel::Writer).notify(Channel::ReaderDone),
            final(self)@.wf(),
    {
        let _ = self.perform(Action::SetStopped);
        let _ = self.perform(Action::Notify(Channel::Writer));
        let _ = self.perform(Action::Notify(Channel::ReaderDone));
    }

    /// Set the target read count for the writer's wait policy.
    pub fn set_target_read_count(&mut self, count: u16)
        requires
            old(self)@.wf(),
        ensures
            final(self)@ == (Region { target: count, ..old(self)@ }),
            final(self)@.wf(),
    {
        let _ = self.perform(Action::Store(Counter::Target, count));
    }

    /// Register a new reader.
    pub fn add_reader(&mut self)
        requires
            old(self)@.wf(),
        ensures
            final(self)@ == (Region { consumers: increased(old(self)@.consumers), ..old(self)@ }),
            final(self)@.wf(),
    {
        let _ = self.perform(Action::Increase(Counter::Consumers));
    }

    /// Unregister a reader.
    pub fn remove_reader(&mut self)
        requires
            old(self)@.wf(),
        ensures
            final(self)@ == (Region { consumers: decreased(old(self)@.consumers), ..old(self)@ }),
            final(self)@.wf(),
    {
        let _ = self.perform(Action::Decrease(Counter::Consumers));
    }
}

/// What a start of a write has made of the memory when it comes to a phase,
/// where nobody else uses the memory.
spec fn start_reached(start: Region, now: Region, phase: StartPhase) -> bool {
    let locked = Region { writer_lock: LOCKED, ..start };
    match phase {
        StartPhase::CheckStopped => now == start,
        StartPhase::Locking(lock) => now == start && !start.stopped() && lock
            == LockOperation::Fast,
        StartPhase::Sequence => now == locked && !start.stopped(),
        StartPhase::Target { sequence } => now == locked && !start.stopped() && sequence
            == start.sequence(),
        StartPhase::Consumers { sequence, target } => now == locked && !start.stopped() && sequence
            == start.sequence() && target == start.target,
        StartPhase::Consumed { target } => now == locked && !start.stopped() && target
            == start.target_consumed() && start.sequence() > 0,
        StartPhase::Mark => now == locked && !start.stopped(),
        StartPhase::Active => now == start.started() && !start.stopped(),
        StartPhase::Finished(granted) => granted == !start.stopped() && now == if granted {
            start.started()
        } else {
            start
        },
        _ => false,
    }
}

/// How many accesses a start of a write has before it from a phase on.
spec fn start_distance(phase: StartPhase) -> nat {
    match phase {
        StartPhase::CheckStopped => 8,
        StartPhase::Locking(_) => 7,
        StartPhase::Sequence => 6,
        StartPhase::Target { .. } => 5,
        StartPhase::Consumers { .. } => 4,
        StartPhase::Consumed { .. } => 3,
        StartPhase::Mark => 2,
        StartPhase::Active => 1,
        _ => 0,
    }
}

/// The same of the end of a read.
spec fn release_reached(start: Region, now: Region, op: ReleaseOperation) -> bool {
    let left = Region { active: decreased(start.active), ..start };
    match op {
        ReleaseOperation::Active => now == start,
        ReleaseOperation::Consumed => now == left,
        ReleaseOperation::Notify => now == (Region {
            consumed: increased(start.consumed),
            ..left
        }),
        ReleaseOperation::Finished => now == start.released(),
    }
}

spec fn release_distance(op: ReleaseOperation) -> nat {
    match op {
        ReleaseOperation::Active => 3,
        ReleaseOperation::Consumed => 2,
        ReleaseOperation::Notify => 1,
        ReleaseOperation::Finished => 0,
    }
}

/// The same of a publication.
spec fn publish_reached(start: Region, guarded: bool, now: Region, op: Publish) -> bool {
    let sized = Region { size: op.size, ..start };
    let reset = Region { consumed: 0, ..sized };
    let swapped = reset.with_state(published(start.state()));
    let sequence = sequence_after(start.sequence());
    let refused = guarded && start.stopped();
    match op.phase {
        PublishPhase::CheckStopped => guarded && now == start,
        PublishPhase::UnlockRefused => refused && now == start,
        PublishPhase::Refused => refused && now == start.unlocked(),
        _ if refused => false,
        PublishPhase::StoreSize => now == start,
        PublishPhase::ResetConsumed => now == sized,
        PublishPhase::Sequence => now == reset,
        PublishPhase::Swap { expected, new } => now == reset && expected == start.sequence_word
            && new == swapped.sequence_word,
        PublishPhase::Notify { sequence: next } => now == swapped && next == sequence,
        PublishPhase::Unlock { sequence: next } => now == swapped.notify(Channel::Writer) && next
            == sequence,
        PublishPhase::Finished(next) => now == start.published(op.size) && next == sequence,
    }
}

spec fn publish_distance(phase: PublishPhase) -> nat {
    match phase {
        PublishPhase::CheckStopped => 8,
        PublishPhase::UnlockRefused => 1,
        PublishPhase::Refused => 0,
        PublishPhase::StoreSize => 6,
        PublishPhase::ResetConsumed => 5,
        PublishPhase::Sequence => 4,
        PublishPhase::Swap { .. } => 3,
        PublishPhase::Notify { .. } => 2,
        PublishPhase::Unlock { .. } => 1,
        PublishPhase::Finished(_) => 0,
    }
}

/// The same of a read.
spec fn read_reached(start: Region, now: Region, op: ReadOperation) -> bool {
    let ready = start.sequence() != op.last_seen;
    let registered = Region { active: increased(start.active), ..start };
    match op.phase {
        ReadPhase::Observe => now == start,
        ReadPhase::Register { sequence } => ready && sequence == start.sequence() && now == start,
        ReadPhase::Verify { sequence } => ready && sequence == start.sequence() && now
            == registered,
        ReadPhase::Finished(Some(sequence)) => ready && sequence == start.sequence() && now
            == registered,
        ReadPhase::Finished(None) => !ready && now == start,
        _ => false,
    }
}

spec fn read_distance(phase: ReadPhase) -> nat {
    match phase {
        ReadPhase::Observe => 3,
        ReadPhase::Register { .. } => 2,
        ReadPhase::Verify { .. } => 1,
        _ => 0,
    }
}

} // verus!
