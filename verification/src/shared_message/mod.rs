//! A message in shared memory: one payload, any number of readers and writers.
use crate::primitives::shared_futex::{LockOperation, SharedFutex, LOCKED, UNLOCKED};
use crate::shared_message::guard::{MessageReadGuard, MessageWriteGuard, PayloadWriteGuard};
use crate::shared_message::operation::{
    Action, Channel, Event, ReadOperation, ReadPhase, ReaderChange, UpdateOperation, UpdatePhase,
};
use crate::shared_message::packed::{
    law_flag_masks, law_readers_word_round_trip, law_sequence_round_trip,
    law_sequence_word_round_trip, sequence_after, ReadersStateCount, SequenceState,
};
use crate::shared_message::region::Region;
use crate::shared_message::write_operation::{
    published, Publish, PublishPhase, StartPhase, StartWrite,
};
use crate::sync::condvar::SharedCondvar;
use vstd::prelude::*;

pub mod effect_laws;
pub mod guard;
pub mod laws;
pub mod live;
pub mod operation;
pub mod packed;
pub mod publication_laws;
pub mod read_laws;
pub mod region;
pub mod wake_laws;
pub mod write_operation;

verus! {

/// The shared memory of a message: header and payload.
pub struct SharedMessage {
    sequence_and_flags: u64,
    readers_state: u64,
    /// Readers wait here for new data.
    writer_condvar: SharedCondvar,
    /// The writer waits here for readers to finish.
    reader_done_condvar: SharedCondvar,
    /// Serializes multiple writers.
    writer_mutex: SharedFutex,
    data_size: usize,
    data: Vec<u8>,
}

impl View for SharedMessage {
    type V = Region;

    closed spec fn view(&self) -> Region {
        Region {
            sequence_word: self.sequence_and_flags,
            readers_word: self.readers_state,
            writer_condvar: self.writer_condvar@,
            reader_done_condvar: self.reader_done_condvar@,
            writer_lock: self.writer_mutex@,
            size: self.data_size,
            payload: self.data@,
        }
    }
}

impl SharedMessage {
    /// Zeroed memory with room for `capacity` bytes of payload.
    pub fn zeroed(capacity: usize) -> (message: Self)
        ensures
            message@ == Region::zeroed(capacity as nat),
            message@.wf(),
    {
        let data: Vec<u8> = vec![0u8; capacity];
        let message = SharedMessage {
            sequence_and_flags: 0,
            readers_state: 0,
            writer_condvar: SharedCondvar::default(),
            reader_done_condvar: SharedCondvar::default(),
            writer_mutex: SharedFutex::default(),
            data_size: 0,
            data,
        };
        assert(message@.payload =~= Region::zeroed(capacity as nat).payload);
        message
    }

    /// Makes one access of an operation. `None` where the one that makes it
    /// sleeps: it makes the access again when it wakes.
    pub fn perform(&mut self, action: Action) -> (event: Option<Event>)
        requires
            old(self)@.wf(),
            action matches Action::StoreSize(size) ==> size <= old(self)@.payload.len(),
        ensures
            final(self)@ == old(self)@.after(action),
            final(self)@.wf(),
            event == old(self)@.answer(action),
    {
        proof {
            law_flag_masks(self.sequence_and_flags);
            law_sequence_word_round_trip(
                self.sequence_and_flags | SequenceState::WRITING_IN_PROGRESS_MASK,
            );
            law_sequence_word_round_trip(
                self.sequence_and_flags & !SequenceState::WRITING_IN_PROGRESS_MASK,
            );
            law_sequence_word_round_trip(self.sequence_and_flags | SequenceState::STOPPED_MASK);
        }
        match action {
            Action::LoadSequence => Some(Event::Word(self.sequence_and_flags)),
            Action::LoadReaders => Some(Event::Word(self.readers_state)),
            Action::LoadTicket(Channel::Writer) => Some(Event::Ticket(self.writer_condvar.value())),
            Action::LoadTicket(Channel::ReaderDone) => Some(
                Event::Ticket(self.reader_done_condvar.value()),
            ),
            Action::SwapSequence { expected, new } => {
                let found: u64 = self.sequence_and_flags;
                if found == expected {
                    self.sequence_and_flags = new;
                }
                Some(Event::Swapped { done: found == expected, found })
            },
            Action::SwapReaders { expected, new } => {
                let found: u64 = self.readers_state;
                if found == expected {
                    self.readers_state = new;
                }
                Some(Event::Swapped { done: found == expected, found })
            },
            Action::SetWriting => {
                self.sequence_and_flags = self.sequence_and_flags
                    | SequenceState::WRITING_IN_PROGRESS_MASK;
                Some(Event::Done)
            },
            Action::ClearWriting => {
                self.sequence_and_flags = self.sequence_and_flags
                    & !SequenceState::WRITING_IN_PROGRESS_MASK;
                Some(Event::Done)
            },
            Action::SetStopped => {
                self.sequence_and_flags = self.sequence_and_flags | SequenceState::STOPPED_MASK;
                Some(Event::Done)
            },
            Action::StoreSize(size) => {
                self.data_size = size;
                Some(Event::Done)
            },
            Action::Lock(action) => {
                match self.writer_mutex.perform(action) {
                    Some(found) => Some(Event::Lock(found)),
                    None => None,
                }
            },
            Action::Unlock => {
                let _ = self.writer_mutex.unlock();
                Some(Event::Done)
            },
            Action::Notify(Channel::Writer) => {
                let _ = self.writer_condvar.notify_all();
                Some(Event::Done)
            },
            Action::Notify(Channel::ReaderDone) => {
                let _ = self.reader_done_condvar.notify_all();
                Some(Event::Done)
            },
            Action::Sleep { channel: Channel::Writer, ticket } => {
                if self.writer_condvar.wait(ticket) {
                    None
                } else {
                    Some(Event::Done)
                }
            },
            Action::Sleep { channel: Channel::ReaderDone, ticket } => {
                if self.reader_done_condvar.wait(ticket) {
                    None
                } else {
                    Some(Event::Done)
                }
            },
        }
    }

    #[inline]
    pub fn get_sequence_state(&self) -> (state: SequenceState)
        ensures
            state == self@.state(),
    {
        SequenceState::from(self.sequence_and_flags)
    }

    #[inline]
    pub fn get_reader_state(&self) -> (state: ReadersStateCount)
        ensures
            state == self@.counts(),
    {
        ReadersStateCount::from(self.readers_state)
    }

    /// Whether a reader would have to wait. It would wait for somebody else to
    /// write, to publish or to stop the message.
    pub fn read_would_wait(&self, last_seen: u64, block: bool) -> (waits: bool)
        ensures
            waits == self@.read_sleeps(last_seen, block),
    {
        let state = self.get_sequence_state();
        if state.sequence == last_seen {
            block && !state.stopped
        } else {
            state.writing_in_progress
        }
    }

    /// Whether a writer would have to wait. It would wait for readers, or for
    /// another writer.
    pub fn write_would_wait(&self) -> (waits: bool)
        ensures
            waits == self@.write_sleeps(),
    {
        let state = self.get_sequence_state();
        let counts = self.get_reader_state();
        !state.stopped && (self.writer_mutex.is_locked() || (state.sequence > 0
            && counts.data_consumed < counts.get_target_consumed()) || counts.active_readers > 0)
    }

    /// Runs the start of a write to its end.
    pub fn start_write(&mut self) -> (guard: Option<PayloadWriteGuard>)
        requires
            old(self)@.wf(),
            !old(self)@.write_sleeps(),
        ensures
            guard is None <==> old(self)@.stopped(),
            guard matches Some(held) ==> held@,
            final(self)@ == (if guard is Some {
                old(self)@.started()
            } else {
                old(self)@
            }),
            final(self)@.wf(),
    {
        let ghost start = self@;
        let mut op = StartWrite::new();
        loop
            invariant
                self@.wf(),
                !start.write_sleeps(),
                start_reached(start, self@, op.phase),
            ensures
                op.next_action() is None,
            decreases start_distance(op.phase),
        {
            let action = match op.action() {
                Some(action) => action,
                None => break,
            };
            match self.perform(action) {
                Some(event) => op.resume(event),
                None => return None,
            }
        }
        if let StartPhase::Finished(true) = op.phase {
            Some(PayloadWriteGuard::new())
        } else {
            None
        }
    }

    /// A reader is done with the message it holds.
    pub(crate) fn release_active_reader(&mut self)
        requires
            old(self)@.wf(),
            old(self)@.counts().changed(ReaderChange::Release) is Some,
        ensures
            final(self)@ == old(self)@.released(),
            final(self)@.wf(),
    {
        self.update_reader_state(ReaderChange::Release);
        let _ = self.perform(Action::Notify(Channel::ReaderDone));
    }

    /// How many bytes the payload has room for.
    pub fn capacity(&self) -> (capacity: usize)
        ensures
            capacity == self@.payload.len(),
    {
        self.data.len()
    }

    /// The bytes of the current message.
    pub(crate) fn data_ref(&self) -> (data: &[u8])
        requires
            self@.wf(),
        ensures
            data@ == self@.data(),
    {
        vstd::slice::slice_subrange(self.data.as_slice(), 0, self.data_size)
    }

    /// The payload, for the one that may write it.
    pub(crate) fn data_mut(&mut self, _write_guard: &PayloadWriteGuard) -> (data: &mut [u8])
        ensures
            data@ == old(self)@.payload,
            final(self)@ == (Region { payload: final(data)@, ..old(self)@ }),
    {
        self.data.as_mut_slice()
    }

    /// Gives the right to write back without publishing.
    pub(crate) fn release_writer(&mut self, _write_guard: PayloadWriteGuard)
        requires
            old(self)@.wf(),
        ensures
            final(self)@ == old(self)@.unlocked(),
            final(self)@.wf(),
    {
        let _ = self.perform(Action::Unlock);
    }

    /// Makes the first `size` bytes of the payload the current message and
    /// gives the right to write back. The stopped flag is kept.
    pub(crate) fn publish_write(
        &mut self,
        _write_guard: PayloadWriteGuard,
        size: usize,
    ) -> (sequence: Option<u64>)
        requires
            old(self)@.wf(),
            size <= old(self)@.payload.len(),
        ensures
            sequence == Some(sequence_after(old(self)@.sequence())),
            final(self)@ == old(self)@.published(size),
            final(self)@.wf(),
    {
        self.run_publish(Publish::new(size))
    }

    /// The same for a guard: if the message was stopped, nothing is published,
    /// and the mark of the write stays.
    pub(crate) fn publish_guarded(
        &mut self,
        _write_guard: PayloadWriteGuard,
        size: usize,
    ) -> (sequence: Option<u64>)
        requires
            old(self)@.wf(),
            size <= old(self)@.payload.len(),
        ensures
            sequence == (if old(self)@.stopped() {
                None
            } else {
                Some(sequence_after(old(self)@.sequence()))
            }),
            final(self)@ == (if old(self)@.stopped() {
                old(self)@.unlocked()
            } else {
                old(self)@.published(size)
            }),
            final(self)@.wf(),
    {
        self.run_publish(Publish::guarded(size))
    }

    /// Runs a publication to its end.
    fn run_publish(&mut self, publish: Publish) -> (sequence: Option<u64>)
        requires
            old(self)@.wf(),
            publish.size <= old(self)@.payload.len(),
            publish.phase is StoreSize || publish.phase is CheckStopped,
        ensures
            sequence == (if publish.phase is CheckStopped && old(self)@.stopped() {
                None
            } else {
                Some(sequence_after(old(self)@.sequence()))
            }),
            final(self)@ == (if publish.phase is CheckStopped && old(self)@.stopped() {
                old(self)@.unlocked()
            } else {
                old(self)@.published(publish.size)
            }),
            final(self)@.wf(),
    {
        let ghost start = self@;
        let mut op = publish;
        proof {
            law_readers_word_round_trip(start.readers_word);
            law_sequence_round_trip(published(start.state()));
        }
        loop
            invariant
                self@.wf(),
                op.size == publish.size,
                publish.size <= start.payload.len(),
                publish_reached(start, publish.phase is CheckStopped, self@, op),
                ReadersStateCount::unpacked(start.readers_word).packed() == start.readers_word,
                SequenceState::unpacked(published(start.state()).packed()) == published(
                    start.state(),
                ),
            ensures
                op.next_action() is None,
            decreases publish_distance(op.phase),
        {
            let action = match op.action() {
                Some(action) => action,
                None => break,
            };
            match self.perform(action) {
                Some(event) => op.resume(event),
                None => return None,
            }
        }
        if let PublishPhase::Finished(sequence) = op.phase {
            Some(sequence)
        } else {
            None
        }
    }

    /// Changes the reader counters. They must stay in range.
    pub fn update_reader_state(&mut self, change: ReaderChange)
        requires
            old(self)@.wf(),
            old(self)@.counts().changed(change) is Some,
        ensures
            final(self)@ == old(self)@.changed(change),
            final(self)@.wf(),
    {
        let ghost start = self@;
        let mut op = UpdateOperation::new(change);
        loop
            invariant
                self@.wf(),
                op.change == change,
                start.counts().changed(change) is Some,
                update_reached(start, self@, op),
            ensures
                op.phase.next_action() is None,
            decreases update_distance(op.phase),
        {
            let action = match op.action() {
                Some(action) => action,
                None => break,
            };
            match self.perform(action) {
                Some(event) => op.resume(event),
                None => return,
            }
        }
    }

    /// Returns the new sequence number if successful, `None` if stopped.
    pub fn write(&mut self, new_data: &[u8]) -> (sequence: Option<u64>)
        requires
            old(self)@.wf(),
            !old(self)@.write_sleeps(),
            !old(self)@.stopped() ==> new_data@.len() <= old(self)@.payload.len(),
        ensures
            sequence == (if old(self)@.stopped() {
                None
            } else {
                Some(sequence_after(old(self)@.sequence()))
            }),
            final(self)@ == (if sequence is Some {
                old(self)@.started().overwritten(new_data@).published(new_data.len())
            } else {
                old(self)@
            }),
            final(self)@.wf(),
            sequence is Some ==> final(self)@.data() == new_data@,
    {
        let ghost start = self@;
        let guard = match self.start_write() {
            Some(guard) => guard,
            None => return None,
        };
        let length: usize = new_data.len();
        let mut i: usize = 0;
        while i < length
            invariant
                i <= length,
                length == new_data@.len(),
                length <= start.payload.len(),
                self@ == start.started().overwritten(new_data@.take(i as int)),
            decreases length - i,
        {
            self.data.set(i, new_data[i]);
            i = i + 1;
            assert(self@.payload =~= start.started().overwritten(new_data@.take(i as int)).payload);
        }
        assert(new_data@.take(length as int) =~= new_data@);
        let sequence = self.publish_write(guard, length);
        assert(self@.data() =~= new_data@);
        sequence
    }

    /// Copies `new_data` into the message; the same as [`SharedMessage::write`].
    pub fn write_slice(&mut self, new_data: &[u8]) -> (sequence: Option<u64>)
        requires
            old(self)@.wf(),
            !old(self)@.write_sleeps(),
            !old(self)@.stopped() ==> new_data@.len() <= old(self)@.payload.len(),
        ensures
            sequence == (if old(self)@.stopped() {
                None
            } else {
                Some(sequence_after(old(self)@.sequence()))
            }),
            final(self)@ == (if sequence is Some {
                old(self)@.started().overwritten(new_data@).published(new_data.len())
            } else {
                old(self)@
            }),
            final(self)@.wf(),
            sequence is Some ==> final(self)@.data() == new_data@,
    {
        self.write(new_data)
    }

    /// Returns a guard that gives access to the payload. The data will be
    /// published when the guard's `publish()` is called. The writer lock is
    /// held until the guard is published or abandoned.
    pub fn acquire_write_guard(&mut self) -> (guard: Option<MessageWriteGuard>)
        requires
            old(self)@.wf(),
            !old(self)@.write_sleeps(),
        ensures
            guard is None <==> old(self)@.stopped(),
            guard matches Some(held) ==> held@@,
            final(self)@ == (if guard is Some {
                old(self)@.started()
            } else {
                old(self)@
            }),
            final(self)@.wf(),
    {
        match self.start_write() {
            Some(guard) => Some(MessageWriteGuard::new(guard)),
            None => None,
        }
    }

    /// Returns a guard if there is a message other than the one with sequence
    /// `last_seen`, `None` otherwise.
    pub fn read(&mut self, last_seen: u64, block: bool) -> (guard: Option<MessageReadGuard>)
        requires
            old(self)@.wf(),
            !old(self)@.read_sleeps(last_seen, block),
            old(self)@.sequence() != last_seen ==> old(self)@.counts().active_readers < u16::MAX,
        ensures
            guard is Some <==> old(self)@.sequence() != last_seen,
            guard matches Some(held) ==> held@ == old(self)@.sequence(),
            final(self)@ == (if guard is Some {
                old(self)@.changed(ReaderChange::Register)
            } else {
                old(self)@
            }),
            final(self)@.wf(),
    {
        let ghost start = self@;
        let mut op = ReadOperation::new(last_seen, block);
        loop
            invariant
                self@.wf(),
                op.last_seen == last_seen,
                op.block == block,
                !start.read_sleeps(last_seen, block),
                start.sequence() != last_seen ==> start.counts().active_readers < u16::MAX,
                read_reached(start, self@, op),
            ensures
                op.next_action() is None,
            decreases read_distance(op.phase),
        {
            let action = match op.action() {
                Some(action) => action,
                None => break,
            };
            match self.perform(action) {
                Some(event) => op.resume(event),
                None => return None,
            }
        }
        if let ReadPhase::Finished(Some(sequence)) = op.phase {
            Some(MessageReadGuard::new(sequence))
        } else {
            None
        }
    }

    /// Get the current sequence number.
    pub fn current_sequence(&self) -> (sequence: u64)
        ensures
            sequence == self@.sequence(),
    {
        self.get_sequence_state().sequence
    }

    /// Check if there's new data compared to the given sequence.
    pub fn has_new_data(&self, last_seen: u64) -> (result: bool)
        ensures
            result == (self@.sequence() != last_seen),
    {
        self.get_sequence_state().sequence != last_seen
    }

    /// Check if the message has been stopped.
    pub fn is_stopped(&self) -> (stopped: bool)
        ensures
            stopped == self@.stopped(),
    {
        self.get_sequence_state().stopped
    }

    /// Signal that no more writes will occur, and wake all who wait.
    pub fn stop(&mut self)
        requires
            old(self)@.wf(),
        ensures
            final(self)@ == old(self)@.with_state(
                SequenceState { stopped: true, ..old(self)@.state() },
            ).notify(Channel::Writer).notify(Channel::ReaderDone),
            final(self)@.wf(),
    {
        let _ = self.perform(Action::SetStopped);
        let _ = self.perform(Action::Notify(Channel::Writer));
        let _ = self.perform(Action::Notify(Channel::ReaderDone));
    }

    /// Whether somebody has the writer lock, so that a change of the target read
    /// count has to wait. On a stopped message too, where no write waits.
    pub fn set_target_would_wait(&self) -> (waits: bool)
        ensures
            waits == (self@.writer_lock != UNLOCKED),
    {
        self.writer_mutex.is_locked()
    }

    /// Set the target read count for the writer's wait policy. Nobody may be
    /// writing.
    pub fn set_target_read_count(&mut self, count: u16)
        requires
            old(self)@.wf(),
            old(self)@.writer_lock == UNLOCKED,
        ensures
            final(self)@ == old(self)@.changed(ReaderChange::SetTarget(count)),
            final(self)@.wf(),
    {
        let _ = self.writer_mutex.try_lock();
        self.update_reader_state(ReaderChange::SetTarget(count));
        let _ = self.writer_mutex.unlock();
    }

    /// Register a new reader.
    pub fn add_reader(&mut self)
        requires
            old(self)@.wf(),
            old(self)@.counts().consumers < u16::MAX,
        ensures
            final(self)@ == old(self)@.changed(ReaderChange::AddConsumer),
            final(self)@.wf(),
    {
        self.update_reader_state(ReaderChange::AddConsumer)
    }

    /// Unregister a reader.
    pub fn remove_reader(&mut self)
        requires
            old(self)@.wf(),
            old(self)@.counts().consumers > 0,
        ensures
            final(self)@ == old(self)@.changed(ReaderChange::RemoveConsumer),
            final(self)@.wf(),
    {
        self.update_reader_state(ReaderChange::RemoveConsumer)
    }
}

/// What a start of a write has made of the memory when it comes to a phase,
/// where nobody else uses the memory.
spec fn start_reached(start: Region, now: Region, phase: StartPhase) -> bool {
    let locked = Region { writer_lock: LOCKED, ..start };
    match phase {
        StartPhase::CheckStopped => now == start,
        StartPhase::Locking(lock) => now == start && !start.stopped() && lock
            == LockOperation::Fast,
        StartPhase::Sequence => now == locked && !start.stopped(),
        StartPhase::Readers { sequence } => now == locked && !start.stopped() && sequence
            == start.sequence(),
        StartPhase::ConsumedTicket { readers } => now == locked && !start.stopped() && readers
            == start.readers_word && start.sequence() > 0,
        StartPhase::Mark => now == locked && !start.stopped(),
        StartPhase::ActiveTicket | StartPhase::ActiveReaders { .. } => now == start.started()
            && !start.stopped(),
        StartPhase::Finished(granted) => granted == !start.stopped() && now == if granted {
            start.started()
        } else {
            start
        },
        _ => false,
    }
}

/// How many accesses a start of a write has before it from a phase on.
spec fn start_distance(phase: StartPhase) -> nat {
    match phase {
        StartPhase::CheckStopped => 8,
        StartPhase::Locking(_) => 7,
        StartPhase::Sequence => 6,
        StartPhase::Readers { .. } => 5,
        StartPhase::ConsumedTicket { .. } => 4,
        StartPhase::Mark => 3,
        StartPhase::ActiveTicket => 2,
        StartPhase::ActiveReaders { .. } => 1,
        _ => 0,
    }
}

/// The same of a change of the reader counters.
spec fn update_reached(start: Region, now: Region, op: UpdateOperation) -> bool {
    match op.phase {
        UpdatePhase::Load => now == start,
        UpdatePhase::Swap { expected, new } => now == start && expected == start.readers_word
            && new == start.changed(op.change).readers_word,
        UpdatePhase::Finished => now == start.changed(op.change),
        UpdatePhase::Fault => false,
    }
}

spec fn update_distance(phase: UpdatePhase) -> nat {
    match phase {
        UpdatePhase::Load => 2,
        UpdatePhase::Swap { .. } => 1,
        _ => 0,
    }
}

/// The same of a publication.
spec fn publish_reached(start: Region, guarded: bool, now: Region, op: Publish) -> bool {
    let sized = Region { size: op.size, ..start };
    let reset = sized.changed(ReaderChange::ResetConsumed);
    let swapped = reset.with_state(published(start.state()));
    let sequence = sequence_after(start.sequence());
    let refused = guarded && start.stopped();
    match op.phase {
        PublishPhase::CheckStopped => guarded && now == start,
        PublishPhase::UnlockRefused => refused && now == start,
        PublishPhase::Refused => refused && now == start.unlocked(),
        _ if refused => false,
        PublishPhase::StoreSize => now == start,
        PublishPhase::Reset(update) => update_reached(
            sized,
            now,
            UpdateOperation { change: ReaderChange::ResetConsumed, phase: update },
        ) && !(update is Finished),
        PublishPhase::Sequence => now == reset,
        PublishPhase::Swap { expected, new } => now == reset && expected == start.sequence_word
            && new == swapped.sequence_word,
        PublishPhase::Notify { sequence: next } => now == swapped && next == sequence,
        PublishPhase::Unlock { sequence: next } => now == swapped.notify(Channel::Writer) && next
            == sequence,
        PublishPhase::Finished(next) => now == start.published(op.size) && next == sequence,
    }
}

spec fn publish_distance(phase: PublishPhase) -> nat {
    match phase {
        PublishPhase::CheckStopped => 8,
        PublishPhase::UnlockRefused => 1,
        PublishPhase::Refused => 0,
        PublishPhase::StoreSize => 7,
        PublishPhase::Reset(update) => 4 + update_distance(update),
        PublishPhase::Sequence => 4,
        PublishPhase::Swap { .. } => 3,
        PublishPhase::Notify { .. } => 2,
        PublishPhase::Unlock { .. } => 1,
        PublishPhase::Finished(_) => 0,
    }
}

/// The same of a read.
spec fn read_reached(start: Region, now: Region, op: ReadOperation) -> bool {
    let ready = start.sequence() != op.last_seen;
    match op.phase {
        ReadPhase::Ticket | ReadPhase::Observe { .. } => now == start,
        ReadPhase::Register { sequence, update } => ready && sequence == start.sequence()
            && update_reached(
            start,
            now,
            UpdateOperation { change: ReaderChange::Register, phase: update },
        ) && !(update is Finished),
        ReadPhase::Verify { sequence } => ready && sequence == start.sequence() && now
            == start.changed(ReaderChange::Register),
        ReadPhase::Finished(Some(sequence)) => ready && sequence == start.sequence() && now
            == start.changed(ReaderChange::Register),
        ReadPhase::Finished(None) => !ready && now == start,
        _ => false,
    }
}

spec fn read_distance(phase: ReadPhase) -> nat {
    match phase {
        ReadPhase::Ticket => 6,
        ReadPhase::Observe { .. } => 5,
        ReadPhase::Register { update, .. } => 1 + update_distance(update),
        ReadPhase::Verify { .. } => 1,
        _ => 0,
    }
}

} // verus!
