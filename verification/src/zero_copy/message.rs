//! The double-buffered message.
use crate::primitives::shared_futex::{LockOperation, SharedFutex, LOCKED};
use crate::shared_message::packed;
use crate::shared_message::packed::{law_flag_masks, law_sequence_after, sequence_after};
use crate::sync::lock_free_condvar::LockFreeCondvar;
use crate::zero_copy::operation::{
    AcquireBuffer, AcquirePhase, Publish, PublishPhase, ReadOperation, ReadPhase, ReleaseOperation,
    ReleasePhase,
};
use crate::zero_copy::read_guard::MessageReadGuard;
use crate::zero_copy::region::{
    decreased, increased, law_packing, smaller, Action, BufferIndex, BufferState, Channel, Counter,
    Event, Region, SequenceState,
};
use crate::zero_copy::write_guard::WriteGuard;
use vstd::prelude::*;

verus! {

/// Zero-copy shared message with double buffering: header and two buffers.
///
/// Multiple writers are serialized by a lock, which is acquired when getting a
/// `WriteGuard` and released when the guard is published or abandoned. Multiple
/// readers are counted per buffer.
pub struct ZeroCopySharedMessage {
    sequence_and_flags: u64,
    first: BufferState,
    second: BufferState,
    target_read_count: u16,
    consumer_count: u16,
    /// Readers wait here for new data.
    writer_futex: LockFreeCondvar,
    /// The writer waits here for readers to finish.
    reader_done_futex: LockFreeCondvar,
    /// Serializes multiple writers.
    writer_mutex: SharedFutex,
    /// Each buffer is half of the space after the header.
    buffer_size: usize,
    buffers: Vec<u8>,
}

impl View for ZeroCopySharedMessage {
    type V = Region;

    closed spec fn view(&self) -> Region {
        Region {
            sequence_word: self.sequence_and_flags,
            first: self.first,
            second: self.second,
            target: self.target_read_count,
            consumers: self.consumer_count,
            writer_condvar: self.writer_futex@,
            reader_done_condvar: self.reader_done_futex@,
            writer_lock: self.writer_mutex@,
            buffer_size: self.buffer_size,
            buffers: self.buffers@,
        }
    }
}

impl ZeroCopySharedMessage {
    /// Zeroed memory with `space` bytes after the header, of which each buffer
    /// gets half; `None` where there is no room for two buffers.
    pub fn zeroed(space: usize) -> (message: Option<Self>)
        ensures
            message is Some <==> space >= 2,
            message matches Some(zeroed) ==> zeroed@ == Region::zeroed(
                (space / 2) as usize,
                (space % 2) as nat,
            ) && zeroed@.wf(),
    {
        let buffer_size: usize = match Self::buffer_size_for(space, 0) {
            Some(buffer_size) => buffer_size,
            None => return None,
        };
        let empty = BufferState { size: 0, readers: 0, consumed: 0 };
        let message = ZeroCopySharedMessage {
            sequence_and_flags: 0,
            first: empty,
            second: empty,
            target_read_count: 0,
            consumer_count: 0,
            writer_futex: LockFreeCondvar::default(),
            reader_done_futex: LockFreeCondvar::default(),
            writer_mutex: SharedFutex::default(),
            buffer_size,
            buffers: vec![0u8; space],
        };
        assert(message@.buffers =~= Region::zeroed(
            (space / 2) as usize,
            (space % 2) as nat,
        ).buffers);
        Some(message)
    }

    /// The size of each buffer where `space` bytes come after the header, whose
    /// own field says `present`; `None` where there is no room for two buffers.
    /// A field that was set before is kept.
    pub fn buffer_size_for(space: usize, present: usize) -> (buffer_size: Option<usize>)
        ensures
            buffer_size == (if space < 2 {
                None
            } else if present == 0 {
                Some((space / 2) as usize)
            } else {
                Some(present)
            }),
    {
        // There must be room for at least two buffers.
        if space < 2 {
            return None;
        }
        if present == 0 {
            Some(space / 2)
        } else {
            Some(present)
        }
    }

    fn load(&self, counter: Counter) -> (count: u16)
        ensures
            count == self@.counter(counter),
    {
        match counter {
            Counter::Readers(true) => self.second.readers,
            Counter::Readers(false) => self.first.readers,
            Counter::Consumed(true) => self.second.consumed,
            Counter::Consumed(false) => self.first.consumed,
            Counter::Target => self.target_read_count,
            Counter::Consumers => self.consumer_count,
        }
    }

    fn store(&mut self, counter: Counter, count: u16)
        ensures
            final(self)@ == old(self)@.with_counter(counter, count),
    {
        match counter {
            Counter::Readers(true) => {
                self.second.readers = count;
            },
            Counter::Readers(false) => {
                self.first.readers = count;
            },
            Counter::Consumed(true) => {
                self.second.consumed = count;
            },
            Counter::Consumed(false) => {
                self.first.consumed = count;
            },
            Counter::Target => {
                self.target_read_count = count;
            },
            Counter::Consumers => {
                self.consumer_count = count;
            },
        }
    }

    /// Makes one access of an operation. `None` where the one that makes it
    /// sleeps: it makes the access again when it wakes.
    pub fn perform(&mut self, action: Action) -> (event: Option<Event>)
        requires
            old(self)@.wf(),
            action matches Action::StoreSize(_, size) ==> size <= old(self)@.buffer_size,
        ensures
            final(self)@ == old(self)@.after(action),
            final(self)@.wf(),
            event == old(self)@.answer(action),
    {
        match action {
            Action::LoadSequence => Some(Event::Word(self.sequence_and_flags)),
            Action::SwapSequence { expected, new } => {
                let found: u64 = self.sequence_and_flags;
                if found == expected {
                    self.sequence_and_flags = new;
                }
                Some(Event::Swapped { done: found == expected, found })
            },
            Action::SetStopped => {
                proof {
                    law_flag_masks(self.sequence_and_flags);
                    law_packing(
                        self@.state(),
                        self.sequence_and_flags | packed::SequenceState::STOPPED_MASK,
                    );
                }
                self.sequence_and_flags = self.sequence_and_flags
                    | packed::SequenceState::STOPPED_MASK;
                Some(Event::Done)
            },
            Action::Load(counter) => Some(Event::Count(self.load(counter))),
            Action::Increase(counter) => {
                let count: u16 = self.load(counter);
                self.store(counter, count.wrapping_add(1));
                Some(Event::Count(count))
            },
            Action::Decrease(counter) => {
                let count: u16 = self.load(counter);
                self.store(counter, count.wrapping_sub(1));
                Some(Event::Count(count))
            },
            Action::Store(counter, count) => {
                self.store(counter, count);
                Some(Event::Done)
            },
            Action::StoreSize(true, size) => {
                self.second.size = size;
                Some(Event::Done)
            },
            Action::StoreSize(false, size) => {
                self.first.size = size;
                Some(Event::Done)
            },
            Action::Lock(action) => {
                match self.writer_mutex.perform(action) {
                    Some(found) => Some(Event::Lock(found)),
                    None => None,
                }
            },
            Action::Unlock => {
                let _ = self.writer_mutex.unlock();
                Some(Event::Done)
            },
            Action::Notify(Channel::Writer) => {
                let _ = self.writer_futex.notify_all();
                Some(Event::Done)
            },
            Action::Notify(Channel::ReaderDone) => {
                let _ = self.reader_done_futex.notify_all();
                Some(Event::Done)
            },
            Action::LoadTicket(Channel::Writer) => Some(Event::Ticket(self.writer_futex.wait())),
            Action::LoadTicket(Channel::ReaderDone) => Some(
                Event::Ticket(self.reader_done_futex.wait()),
            ),
            Action::Sleep { channel: Channel::Writer, ticket } => {
                if self.writer_futex.wait() == ticket {
                    None
                } else {
                    Some(Event::Done)
                }
            },
            Action::Sleep { channel: Channel::ReaderDone, ticket } => {
                if self.reader_done_futex.wait() == ticket {
                    None
                } else {
                    Some(Event::Done)
                }
            },
        }
    }

    /// Unpack the sequence, the stopped flag and the latest buffer.
    #[inline]
    pub fn get_state(&self) -> (state: SequenceState)
        ensures
            state == self@.state(),
    {
        SequenceState::from(self.sequence_and_flags)
    }

    /// Whether a reader would have to wait for somebody else to write or to
    /// stop the message.
    pub fn read_would_wait(&self, last_seen: u64) -> (waits: bool)
        ensures
            waits == self@.read_sleeps(last_seen, true),
    {
        let state = self.get_state();
        state.sequence == last_seen && !state.stopped
    }

    /// Whether a writer would have to wait for a buffer.
    pub fn acquire_would_wait(&self) -> (waits: bool)
        ensures
            waits == self@.acquire_sleeps(),
    {
        let state = self.get_state();
        !state.stopped && (self.writer_mutex.is_locked() || self.load(
            Counter::Readers(!state.buffer_idx),
        ) > 0)
    }

    /// Whether a writer with a buffer would have to wait before it is
    /// published.
    pub fn publish_would_wait(&self) -> (waits: bool)
        ensures
            waits == self@.publish_sleeps(),
    {
        let state = self.get_state();
        let target: u16 = if self.target_read_count <= self.consumer_count {
            self.target_read_count
        } else {
            self.consumer_count
        };
        !state.stopped && state.sequence > 0 && self.load(Counter::Consumed(state.buffer_idx))
            < target
    }

    /// Acquire a write buffer: the one without the latest data. Returns `None`
    /// if stopped.
    pub fn acquire_write_buffer(&mut self) -> (buffer_idx: Option<BufferIndex>)
        requires
            old(self)@.wf(),
            !old(self)@.acquire_sleeps(),
        ensures
            buffer_idx == (if old(self)@.stopped() {
                None
            } else {
                Some(!old(self)@.latest())
            }),
            final(self)@ == (if buffer_idx is Some {
                Region { writer_lock: LOCKED, ..old(self)@ }
            } else {
                old(self)@
            }),
            final(self)@.wf(),
    {
        let ghost start = self@;
        let mut op = AcquireBuffer::new();
        loop
            invariant
                self@.wf(),
                !start.acquire_sleeps(),
                acquire_reached(start, self@, op.phase),
            ensures
                op.next_action() is None,
            decreases acquire_distance(op.phase),
        {
            let action = match op.action() {
                Some(action) => action,
                None => break,
            };
            match self.perform(action) {
                Some(event) => op.resume(event),
                None => return None,
            }
        }
        if let AcquirePhase::Finished(buffer_idx) = op.phase {
            buffer_idx
        } else {
            None
        }
    }

    fn read_internal(&mut self, last_seen: u64, block: bool) -> (guard: Option<MessageReadGuard>)
        requires
            old(self)@.wf(),
            !old(self)@.read_sleeps(last_seen, block),
        ensures
            guard is Some <==> old(self)@.sequence() != last_seen,
            guard matches Some(held) ==> held.spec_sequence() == old(self)@.sequence()
                && held.spec_buffer() == old(self)@.latest(),
            final(self)@ == (if guard is Some {
                old(self)@.after(Action::Increase(Counter::Readers(old(self)@.latest())))
            } else {
                old(self)@
            }),
            final(self)@.wf(),
    {
        let ghost start = self@;
        let mut op = ReadOperation::new(last_seen, block);
        loop
            invariant
                self@.wf(),
                op.last_seen == last_seen,
                op.block == block,
                !start.read_sleeps(last_seen, block),
                read_reached(start, self@, op),
            ensures
                op.next_action() is None,
            decreases read_distance(op.phase),
        {
            let action = match op.action() {
                Some(action) => action,
                None => break,
            };
            match self.perform(action) {
                Some(event) => op.resume(event),
                None => return None,
            }
        }
        if let ReadPhase::Holding { buffer_idx, sequence } = op.phase {
            Some(MessageReadGuard::new(buffer_idx, sequence))
        } else {
            None
        }
    }

    /// A reader is done with a buffer.
    pub(crate) fn release_reader(&mut self, buffer_idx: BufferIndex)
        requires
            old(self)@.wf(),
        ensures
            final(self)@ == old(self)@.released(buffer_idx),
            final(self)@.wf(),
    {
        let ghost start = self@;
        let mut op = ReleaseOperation::new(buffer_idx);
        loop
            invariant
                self@.wf(),
                op.buffer_idx == buffer_idx,
                release_reached(start, self@, op),
            ensures
                op.next_action() is None,
            decreases release_distance(op.phase),
        {
            let action = match op.action() {
                Some(action) => action,
                None => break,
            };
            match self.perform(action) {
                Some(event) => op.resume(event),
                None => return,
            }
        }
    }

    /// The bytes of the message in a buffer.
    pub(crate) fn buffer(&self, buffer_idx: BufferIndex) -> (data: &[u8])
        requires
            self@.wf(),
        ensures
            data@ == self@.data(buffer_idx),
    {
        let offset: usize = if buffer_idx { self.buffer_size } else { 0 };
        let size: usize = if buffer_idx { self.second.size } else { self.first.size };
        assert(offset + size <= self.buffers.len());
        let data = vstd::slice::slice_subrange(self.buffers.as_slice(), offset, offset + size);
        assert(data@ =~= self@.data(buffer_idx));
        data
    }

    /// All bytes of a buffer, for the one that may write it.
    pub(crate) fn buffer_mut(&mut self, buffer_idx: BufferIndex) -> (buffer: &mut [u8])
        requires
            old(self)@.wf(),
        ensures
            buffer@ == old(self)@.buffer(buffer_idx),
            final(buffer)@.len() == buffer@.len() ==> final(self)@ == old(self)@.overwritten(
                buffer_idx,
                final(buffer)@,
            ),
    {
        let buffer_size: usize = self.buffer_size;
        let (first, rest) = self.buffers.as_mut_slice().split_at_mut(buffer_size);
        if buffer_idx {
            let (second, _) = rest.split_at_mut(buffer_size);
            second
        } else {
            first
        }
    }

    /// Gives the right to write back without publishing.
    pub(crate) fn release_writer_mutex(&mut self)
        requires
            old(self)@.wf(),
        ensures
            final(self)@ == old(self)@.unlocked(),
            final(self)@.wf(),
    {
        let _ = self.perform(Action::Unlock);
    }

    /// Makes the first `size` bytes of a buffer the latest message and gives
    /// the right to write back. Returns `None` if stopped.
    pub(crate) fn publish_buffer(
        &mut self,
        buffer_idx: BufferIndex,
        size: usize,
    ) -> (sequence: Option<u64>)
        requires
            old(self)@.wf(),
            size <= old(self)@.buffer_size,
            !old(self)@.publish_sleeps(),
        ensures
            sequence == (if old(self)@.stopped() {
                None
            } else {
                Some(sequence_after(old(self)@.sequence()))
            }),
            final(self)@ == old(self)@.published(buffer_idx, size),
            final(self)@.wf(),
    {
        let ghost start = self@;
        let mut op = Publish::new(buffer_idx, size);
        proof {
            law_sequence_after(start.sequence());
            law_packing(start.next_state(buffer_idx), 0);
        }
        loop
            invariant
                self@.wf(),
                op.size == size,
                op.buffer_idx == buffer_idx,
                size <= start.buffer_size,
                !start.publish_sleeps(),
                publish_reached(start, self@, op),
                SequenceState::unpacked(start.next_state(buffer_idx).packed()) == start.next_state(
                    buffer_idx,
                ),
            ensures
                op.next_action() is None,
            decreases publish_distance(op.phase),
        {
            let action = match op.action() {
                Some(action) => action,
                None => break,
            };
            match self.perform(action) {
                Some(event) => op.resume(event),
                None => return None,
            }
        }
        if let PublishPhase::Finished(sequence) = op.phase {
            sequence
        } else {
            None
        }
    }

    /// Returns the new sequence number if successful, `None` if stopped.
    pub fn write(&mut self, data: &[u8]) -> (sequence: Option<u64>)
        requires
            old(self)@.wf(),
            !old(self)@.acquire_sleeps(),
            !old(self)@.publish_sleeps(),
            !old(self)@.stopped() ==> data@.len() <= old(self)@.buffer_size,
        ensures
            sequence == (if old(self)@.stopped() {
                None
            } else {
                Some(sequence_after(old(self)@.sequence()))
            }),
            final(self)@ == (if sequence is Some {
                old(self)@.overwritten(!old(self)@.latest(), data@).published(
                    !old(self)@.latest(),
                    data.len(),
                )
            } else {
                old(self)@
            }),
            final(self)@.wf(),
            sequence is Some ==> final(self)@.latest() != old(self)@.latest()
                && final(self)@.data(final(self)@.latest()) == data@
                && final(self)@.data(old(self)@.latest()) == old(self)@.data(old(self)@.latest()),
    {
        let ghost start = self@;
        let write_idx: BufferIndex = match self.acquire_write_buffer() {
            Some(write_idx) => write_idx,
            None => return None,
        };
        let ghost locked = Region { writer_lock: LOCKED, ..start };
        let offset: usize = if write_idx { self.buffer_size } else { 0 };
        let length: usize = data.len();
        let mut i: usize = 0;
        while i < length
            invariant
                i <= length,
                length == data@.len(),
                length <= start.buffer_size,
                start.wf(),
                offset == start.offset(write_idx),
                locked == (Region { writer_lock: LOCKED, ..start }),
                self@ == locked.overwritten(write_idx, data@.take(i as int)),
            decreases length - i,
        {
            assert(offset + i < self.buffers.len());
            self.buffers.set(offset + i, data[i]);
            i = i + 1;
            assert(self@.buffers =~= locked.overwritten(write_idx, data@.take(i as int)).buffers);
        }
        assert(data@.take(length as int) =~= data@);
        let sequence = self.publish_buffer(write_idx, length);
        proof {
            law_sequence_after(start.sequence());
            law_packing(start.next_state(write_idx), 0);
            assert(self@ == start.overwritten(write_idx, data@).published(write_idx, length));
            assert(self@.data(write_idx) =~= data@);
            assert(self@.data(!write_idx) =~= start.data(!write_idx));
        }
        sequence
    }

    /// Returns a guard that provides mutable access to a buffer. The buffer
    /// will be published when the guard's `publish()` method is called. The
    /// writer lock is held until the guard is published or abandoned.
    pub fn acquire_write_guard(&mut self) -> (guard: Option<WriteGuard>)
        requires
            old(self)@.wf(),
            !old(self)@.acquire_sleeps(),
        ensures
            guard is None <==> old(self)@.stopped(),
            guard matches Some(held) ==> held@ == !old(self)@.latest(),
            final(self)@ == (if guard is Some {
                Region { writer_lock: LOCKED, ..old(self)@ }
            } else {
                old(self)@
            }),
            final(self)@.wf(),
    {
        match self.acquire_write_buffer() {
            Some(write_idx) => Some(WriteGuard::new(write_idx)),
            None => None,
        }
    }

    /// Try to read the next message without blocking. Returns a guard if new
    /// data is available, `None` otherwise.
    pub fn try_read(&mut self, last_seen: u64) -> (guard: Option<MessageReadGuard>)
        requires
            old(self)@.wf(),
        ensures
            guard is Some <==> old(self)@.sequence() != last_seen,
            guard matches Some(held) ==> held.spec_sequence() == old(self)@.sequence()
                && held.spec_buffer() == old(self)@.latest(),
            final(self)@ == (if guard is Some {
                old(self)@.after(Action::Increase(Counter::Readers(old(self)@.latest())))
            } else {
                old(self)@
            }),
            final(self)@.wf(),
    {
        self.read_internal(last_seen, false)
    }

    /// Read the next message. Returns a guard if there is one, `None` if
    /// stopped with no new data.
    pub fn read(&mut self, last_seen: u64) -> (guard: Option<MessageReadGuard>)
        requires
            old(self)@.wf(),
            !old(self)@.read_sleeps(last_seen, true),
        ensures
            guard is Some <==> old(self)@.sequence() != last_seen,
            guard matches Some(held) ==> held.spec_sequence() == old(self)@.sequence()
                && held.spec_buffer() == old(self)@.latest(),
            final(self)@ == (if guard is Some {
                old(self)@.after(Action::Increase(Counter::Readers(old(self)@.latest())))
            } else {
                old(self)@
            }),
            final(self)@.wf(),
    {
        self.read_internal(last_seen, true)
    }

    /// Get the current sequence number.
    pub fn current_sequence(&self) -> (sequence: u64)
        ensures
            sequence == self@.sequence(),
    {
        self.get_state().sequence
    }

    /// Check if there's new data compared to the given sequence.
    pub fn has_new_data(&self, last_seen: u64) -> (result: bool)
        ensures
            result == (self@.sequence() != last_seen),
    {
        self.get_state().sequence != last_seen
    }

    /// Check if the shared memory has been stopped.
    pub fn is_stopped(&self) -> (stopped: bool)
        ensures
            stopped == self@.stopped(),
    {
        self.get_state().stopped
    }

    /// Signal that no more writes will occur, and wake all who wait.
    pub fn stop(&mut self)
        requires
            old(self)@.wf(),
        ensures
            final(self)@ == old(self)@.with_state(
                SequenceState { stopped: true, ..old(self)@.state() },
            ).notify(Channel::Writer).notify(Channel::ReaderDone),
            final(self)@.wf(),
    {
        let _ = self.perform(Action::SetStopped);
        let _ = self.perform(Action::Notify(Channel::Writer));
        let _ = self.perform(Action::Notify(Channel::ReaderDone));
    }

    /// Set the target read count for the writer's wait policy.
    pub fn set_target_read_count(&mut self, count: u16)
        requires
            old(self)@.wf(),
        ensures
            final(self)@ == (Region { target: count, ..old(self)@ }),
            final(self)@.wf(),
    {
        let _ = self.perform(Action::Store(Counter::Target, count));
    }

    /// Get the current target read count.
    pub fn get_target_read_count(&self) -> (count: u16)
        ensures
            count == self@.target,
    {
        self.target_read_count
    }

    /// Register a new reader (increment consumer count).
    pub fn add_reader(&mut self)
        requires
            old(self)@.wf(),
        ensures
            final(self)@ == (Region { consumers: increased(old(self)@.consumers), ..old(self)@ }),
            final(self)@.wf(),
    {
        let _ = self.perform(Action::Increase(Counter::Consumers));
    }

    /// Unregister a reader (decrement consumer count).
    pub fn remove_reader(&mut self)
        requires
            old(self)@.wf(),
        ensures
            final(self)@ == (Region { consumers: decreased(old(self)@.consumers), ..old(self)@ }),
            final(self)@.wf(),
    {
        let _ = self.perform(Action::Decrease(Counter::Consumers));
    }

    /// Get the size of a specific buffer.
    pub fn buffer_size(&self) -> (buffer_size: usize)
        ensures
            buffer_size == self@.buffer_size,
    {
        self.buffer_size
    }
}

/// What the acquisition of a buffer has made of the memory when it comes to a
/// phase, where nobody else uses the memory.
spec fn acquire_reached(start: Region, now: Region, phase: AcquirePhase) -> bool {
    let locked = Region { writer_lock: LOCKED, ..start };
    match phase {
        AcquirePhase::CheckStopped => now == start,
        AcquirePhase::Locking(lock) => now == start && !start.stopped() && lock
            == LockOperation::Fast,
        AcquirePhase::State => now == locked && !start.stopped(),
        AcquirePhase::Readers { buffer_idx } => now == locked && !start.stopped() && buffer_idx
            == !start.latest(),
        AcquirePhase::Finished(Some(buffer_idx)) => now == locked && !start.stopped() && buffer_idx
            == !start.latest(),
        AcquirePhase::Finished(None) => now == start && start.stopped(),
        _ => false,
    }
}

/// How many accesses an acquisition has before it from a phase on.
spec fn acquire_distance(phase: AcquirePhase) -> nat {
    match phase {
        AcquirePhase::CheckStopped => 4,
        AcquirePhase::Locking(_) => 3,
        AcquirePhase::State => 2,
        AcquirePhase::Readers { .. } => 1,
        _ => 0,
    }
}

/// The same of a read.
spec fn read_reached(start: Region, now: Region, op: ReadOperation) -> bool {
    let ready = start.sequence() != op.last_seen;
    let registered = start.after(Action::Increase(Counter::Readers(start.latest())));
    match op.phase {
        ReadPhase::Observe => now == start,
        ReadPhase::Register { buffer_idx, sequence } => ready && sequence == start.sequence()
            && buffer_idx == start.latest() && now == start,
        ReadPhase::Verify { buffer_idx, sequence } => ready && sequence == start.sequence()
            && buffer_idx == start.latest() && now == registered,
        ReadPhase::Holding { buffer_idx, sequence } => ready && sequence == start.sequence()
            && buffer_idx == start.latest() && now == registered,
        ReadPhase::Nothing => !ready && now == start,
        _ => false,
    }
}

spec fn read_distance(phase: ReadPhase) -> nat {
    match phase {
        ReadPhase::Observe => 3,
        ReadPhase::Register { .. } => 2,
        ReadPhase::Verify { .. } => 1,
        _ => 0,
    }
}

/// The same of the end of a read.
spec fn release_reached(start: Region, now: Region, op: ReleaseOperation) -> bool {
    let left = start.after(Action::Decrease(Counter::Readers(op.buffer_idx)));
    match op.phase {
        ReleasePhase::Readers => now == start,
        ReleasePhase::Consumed => now == left,
        ReleasePhase::Notify => now == left.after(
            Action::Increase(Counter::Consumed(op.buffer_idx)),
        ),
        ReleasePhase::Finished => now == start.released(op.buffer_idx),
    }
}

spec fn release_distance(phase: ReleasePhase) -> nat {
    match phase {
        ReleasePhase::Readers => 3,
        ReleasePhase::Consumed => 2,
        ReleasePhase::Notify => 1,
        ReleasePhase::Finished => 0,
    }
}

/// The same of a publication.
spec fn publish_reached(start: Region, now: Region, op: Publish) -> bool {
    let idx = op.buffer_idx;
    let target_count = smaller(start.target, start.consumers);
    let sized = start.with(idx, BufferState { size: op.size, ..start.of(idx) });
    let ready = start.prepared(idx, op.size);
    let swapped = ready.with_state(start.next_state(idx));
    let sequence = sequence_after(start.sequence());
    match op.phase {
        PublishPhase::State => now == start,
        PublishPhase::Target { latest, sequence: seen } => now == start && latest == start.latest()
            && seen == start.sequence(),
        PublishPhase::Consumers { latest, sequence: seen, target } => now == start && latest
            == start.latest() && seen == start.sequence() && target == start.target,
        PublishPhase::Consumed { latest, target } => now == start && latest == start.latest()
            && target == target_count && start.sequence() > 0,
        PublishPhase::Stopped { .. } => now == start && start.unconsumed(),
        PublishPhase::StoreSize => now == start && !start.unconsumed(),
        PublishPhase::ResetConsumed => now == sized && !start.unconsumed(),
        PublishPhase::Sequence => now == ready && !start.unconsumed(),
        PublishPhase::Swap { expected, new } => now == ready && !start.stopped() && expected
            == start.sequence_word && new == swapped.sequence_word,
        PublishPhase::Notify { sequence: next } => now == swapped && !start.stopped() && next
            == sequence,
        PublishPhase::Unlock(Some(next)) => now == swapped.notify(Channel::Writer)
            && !start.stopped() && next == sequence,
        PublishPhase::Unlock(None) => start.stopped() && now == (if start.unconsumed() {
            start
        } else {
            ready
        }),
        PublishPhase::Finished(Some(next)) => now == start.published(idx, op.size)
            && !start.stopped() && next == sequence,
        PublishPhase::Finished(None) => now == start.published(idx, op.size) && start.stopped(),
        _ => false,
    }
}

spec fn publish_distance(phase: PublishPhase) -> nat {
    match phase {
        PublishPhase::State => 10,
        PublishPhase::Target { .. } => 9,
        PublishPhase::Consumers { .. } => 8,
        PublishPhase::Consumed { .. } => 7,
        PublishPhase::Stopped { .. } => 6,
        PublishPhase::StoreSize => 6,
        PublishPhase::ResetConsumed => 5,
        PublishPhase::Sequence => 4,
        PublishPhase::Swap { .. } => 3,
        PublishPhase::Notify { .. } => 2,
        PublishPhase::Unlock(_) => 1,
        _ => 0,
    }
}

} // verus!
