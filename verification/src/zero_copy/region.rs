//! The shared memory of a double-buffered message as a mathematical value, and
//! the accesses to it.
use crate::primitives::shared_futex::{word_after, LockAction, CONTENDED, UNLOCKED};
use crate::shared_message::packed;
use crate::shared_message::packed::{
    law_sequence_round_trip, law_sequence_word_round_trip, sequence_after,
};
use crate::sync::condvar::notified;
use vstd::prelude::*;

verus! {

/// Which of the two buffers.
pub type BufferIndex = bool;

/// The unpacked sequence word: the message sequence in the low 62 bits, the
/// buffer with the latest data in bit 62 and the stopped flag in bit 63.
#[derive(Default, Clone, Copy, PartialEq, Eq, Structural, Debug)]
pub struct SequenceState {
    pub sequence: u64,
    pub stopped: bool,
    pub buffer_idx: BufferIndex,
}

impl SequenceState {
    /// The same bits, with the buffer index in the place of the writing flag.
    pub open spec fn bits(self) -> packed::SequenceState {
        packed::SequenceState {
            sequence: self.sequence,
            stopped: self.stopped,
            writing_in_progress: self.buffer_idx,
        }
    }

    pub open spec fn unpacked(word: u64) -> SequenceState {
        let bits = packed::SequenceState::unpacked(word);
        SequenceState {
            sequence: bits.sequence,
            stopped: bits.stopped,
            buffer_idx: bits.writing_in_progress,
        }
    }

    pub open spec fn packed(self) -> u64 {
        self.bits().packed()
    }

    #[inline]
    pub fn from(word: u64) -> (state: SequenceState)
        ensures
            state == SequenceState::unpacked(word),
            state.sequence < packed::SEQUENCE_LIMIT,
    {
        let bits = packed::SequenceState::from(word);
        SequenceState {
            sequence: bits.sequence,
            stopped: bits.stopped,
            buffer_idx: bits.writing_in_progress,
        }
    }

    #[inline]
    pub fn to_packed(&self) -> (word: u64)
        ensures
            word == self.packed(),
    {
        packed::SequenceState {
            sequence: self.sequence,
            stopped: self.stopped,
            writing_in_progress: self.buffer_idx,
        }.to_packed()
    }
}

/// Packing and unpacking undo each other.
pub proof fn law_packing(state: SequenceState, word: u64)
    requires
        state.sequence < packed::SEQUENCE_LIMIT,
    ensures
        SequenceState::unpacked(state.packed()) == state,
        SequenceState::unpacked(word).packed() == word,
{
    law_sequence_round_trip(state.bits());
    law_sequence_word_round_trip(word);
}

/// The two condition variables of a message.
#[derive(Clone, Copy, PartialEq, Eq, Structural, Debug)]
pub enum Channel {
    /// Readers wait here for new data.
    Writer,
    /// The writer waits here for readers to finish.
    ReaderDone,
}

/// The counters of a message.
#[derive(Clone, Copy, PartialEq, Eq, Structural, Debug)]
pub enum Counter {
    /// How many readers hold the buffer.
    Readers(BufferIndex),
    /// How many readers are done with the buffer.
    Consumed(BufferIndex),
    /// How many readers the writer waits for.
    Target,
    /// How many readers are registered.
    Consumers,
}

/// One access to the shared memory of a message.
#[derive(Clone, Copy, PartialEq, Eq, Structural, Debug)]
pub enum Action {
    LoadSequence,
    /// Change the sequence word if it holds `expected`.
    SwapSequence { expected: u64, new: u64 },
    SetStopped,
    Load(Counter),
    Increase(Counter),
    Decrease(Counter),
    Store(Counter, u16),
    StoreSize(BufferIndex, usize),
    /// An access to the writer lock.
    Lock(LockAction),
    Unlock,
    /// Count a notification and wake all sleepers.
    Notify(Channel),
    LoadTicket(Channel),
    /// Sleep while the condition variable holds the ticket.
    Sleep { channel: Channel, ticket: u32 },
}

/// The result of an access.
#[derive(Clone, Copy, PartialEq, Eq, Structural, Debug)]
pub enum Event {
    Word(u64),
    /// What the counter held before the access.
    Count(u16),
    Ticket(u32),
    /// Whether the word was changed, and what it held.
    Swapped { done: bool, found: u64 },
    /// What the lock word held.
    Lock(u32),
    Done,
}

/// A counter that wraps around.
pub open spec fn increased(count: u16) -> u16 {
    ((count + 1) % 0x1_0000) as u16
}

pub open spec fn decreased(count: u16) -> u16 {
    ((count + 0xffff) % 0x1_0000) as u16
}

pub open spec fn smaller(left: u16, right: u16) -> u16 {
    if left <= right {
        left
    } else {
        right
    }
}

/// What the header says of one buffer.
#[derive(Default, Clone, Copy, PartialEq, Eq, Structural, Debug)]
pub struct BufferState {
    /// How many bytes the message in it has.
    pub size: usize,
    /// Active readers.
    pub readers: u16,
    /// Readers that have finished reading.
    pub consumed: u16,
}

/// What the shared memory of a message holds.
#[verifier::ext_equal]
pub struct Region {
    pub sequence_word: u64,
    pub first: BufferState,
    pub second: BufferState,
    pub target: u16,
    pub consumers: u16,
    pub writer_condvar: u32,
    pub reader_done_condvar: u32,
    pub writer_lock: u32,
    pub buffer_size: usize,
    pub buffers: Seq<u8>,
}

impl Region {
    /// Zeroed memory with room for two buffers of `buffer_size` bytes, and
    /// `spare` more bytes.
    pub open spec fn zeroed(buffer_size: usize, spare: nat) -> Region {
        let empty = BufferState { size: 0, readers: 0, consumed: 0 };
        Region {
            sequence_word: 0,
            first: empty,
            second: empty,
            target: 0,
            consumers: 0,
            writer_condvar: 0,
            reader_done_condvar: 0,
            writer_lock: UNLOCKED,
            buffer_size,
            buffers: Seq::new((2 * buffer_size + spare) as nat, |i: int| 0u8),
        }
    }

    pub open spec fn wf(self) -> bool {
        &&& 2 * self.buffer_size <= self.buffers.len()
        &&& self.first.size <= self.buffer_size
        &&& self.second.size <= self.buffer_size
    }

    pub open spec fn state(self) -> SequenceState {
        SequenceState::unpacked(self.sequence_word)
    }

    pub open spec fn sequence(self) -> u64 {
        self.state().sequence
    }

    pub open spec fn stopped(self) -> bool {
        self.state().stopped
    }

    /// The buffer with the latest data.
    pub open spec fn latest(self) -> BufferIndex {
        self.state().buffer_idx
    }

    pub open spec fn of(self, idx: BufferIndex) -> BufferState {
        if idx {
            self.second
        } else {
            self.first
        }
    }

    pub open spec fn with(self, idx: BufferIndex, state: BufferState) -> Region {
        if idx {
            Region { second: state, ..self }
        } else {
            Region { first: state, ..self }
        }
    }

    /// Where a buffer starts.
    pub open spec fn offset(self, idx: BufferIndex) -> int {
        if idx {
            self.buffer_size as int
        } else {
            0
        }
    }

    /// All bytes of a buffer.
    pub open spec fn buffer(self, idx: BufferIndex) -> Seq<u8> {
        self.buffers.subrange(self.offset(idx), self.offset(idx) + self.buffer_size)
    }

    /// The bytes of the message in a buffer.
    pub open spec fn data(self, idx: BufferIndex) -> Seq<u8> {
        self.buffer(idx).take(self.of(idx).size as int)
    }

    pub open spec fn condvar(self, channel: Channel) -> u32 {
        match channel {
            Channel::Writer => self.writer_condvar,
            Channel::ReaderDone => self.reader_done_condvar,
        }
    }

    pub open spec fn counter(self, counter: Counter) -> u16 {
        match counter {
            Counter::Readers(idx) => self.of(idx).readers,
            Counter::Consumed(idx) => self.of(idx).consumed,
            Counter::Target => self.target,
            Counter::Consumers => self.consumers,
        }
    }

    pub open spec fn with_counter(self, counter: Counter, count: u16) -> Region {
        match counter {
            Counter::Readers(idx) => self.with(
                idx,
                BufferState { readers: count, ..self.of(idx) },
            ),
            Counter::Consumed(idx) => self.with(
                idx,
                BufferState { consumed: count, ..self.of(idx) },
            ),
            Counter::Target => Region { target: count, ..self },
            Counter::Consumers => Region { consumers: count, ..self },
        }
    }

    pub open spec fn with_state(self, state: SequenceState) -> Region {
        Region { sequence_word: state.packed(), ..self }
    }

    pub open spec fn notify(self, channel: Channel) -> Region {
        match channel {
            Channel::Writer => Region { writer_condvar: notified(self.writer_condvar, 1), ..self },
            Channel::ReaderDone => Region {
                reader_done_condvar: notified(self.reader_done_condvar, 1),
                ..self
            },
        }
    }

    pub open spec fn unlocked(self) -> Region {
        Region { writer_lock: UNLOCKED, ..self }
    }

    /// What an access leaves in the memory.
    pub open spec fn after(self, action: Action) -> Region {
        match action {
            Action::LoadSequence | Action::Load(_) | Action::LoadTicket(_) => self,
            Action::Sleep { .. } => self,
            Action::SwapSequence { expected, new } => if self.sequence_word == expected {
                Region { sequence_word: new, ..self }
            } else {
                self
            },
            Action::SetStopped => self.with_state(
                SequenceState { stopped: true, ..self.state() },
            ),
            Action::Increase(counter) => self.with_counter(
                counter,
                increased(self.counter(counter)),
            ),
            Action::Decrease(counter) => self.with_counter(
                counter,
                decreased(self.counter(counter)),
            ),
            Action::Store(counter, count) => self.with_counter(counter, count),
            Action::StoreSize(idx, size) => self.with(idx, BufferState { size, ..self.of(idx) }),
            Action::Lock(action) => Region {
                writer_lock: word_after(self.writer_lock, action),
                ..self
            },
            Action::Unlock => self.unlocked(),
            Action::Notify(channel) => self.notify(channel),
        }
    }

    /// The result of an access; `None` while the one that makes it sleeps.
    pub open spec fn answer(self, action: Action) -> Option<Event> {
        match action {
            Action::LoadSequence => Some(Event::Word(self.sequence_word)),
            Action::Load(counter) | Action::Increase(counter) | Action::Decrease(counter) => Some(
                Event::Count(self.counter(counter)),
            ),
            Action::LoadTicket(channel) => Some(Event::Ticket(self.condvar(channel))),
            Action::SwapSequence { expected, .. } => Some(
                Event::Swapped {
                    done: self.sequence_word == expected,
                    found: self.sequence_word,
                },
            ),
            Action::Lock(action) => if action == LockAction::Sleep && self.writer_lock
                == CONTENDED {
                None
            } else {
                Some(Event::Lock(self.writer_lock))
            },
            Action::Sleep { channel, ticket } => if self.condvar(channel) == ticket {
                None
            } else {
                Some(Event::Done)
            },
            Action::SetStopped | Action::StoreSize(_, _) | Action::Store(_, _) => Some(Event::Done),
            Action::Unlock | Action::Notify(_) => Some(Event::Done),
        }
    }

    /// Whether a reader has to wait: there is no message but the one it has
    /// seen and more may come.
    pub open spec fn read_sleeps(self, last_seen: u64, block: bool) -> bool {
        self.sequence() == last_seen && block && !self.stopped()
    }

    /// Whether a writer has to wait for a buffer: for another writer, or for
    /// readers that still hold the buffer without the latest data.
    pub open spec fn acquire_sleeps(self) -> bool {
        &&& !self.stopped()
        &&& self.writer_lock != UNLOCKED || self.of(!self.latest()).readers > 0
    }

    /// Whether fewer readers have consumed the latest message than a writer
    /// waits for before it publishes the next.
    pub open spec fn unconsumed(self) -> bool {
        self.sequence() > 0 && self.of(self.latest()).consumed < smaller(
            self.target,
            self.consumers,
        )
    }

    /// Whether a writer that publishes has to wait.
    pub open spec fn publish_sleeps(self) -> bool {
        !self.stopped() && self.unconsumed()
    }

    /// The memory after a reader gave a buffer back.
    pub open spec fn released(self, idx: BufferIndex) -> Region {
        self.with(
            idx,
            BufferState {
                readers: decreased(self.of(idx).readers),
                consumed: increased(self.of(idx).consumed),
                ..self.of(idx)
            },
        ).notify(Channel::ReaderDone)
    }

    /// The memory when `size` bytes in a buffer are ready to be published: no
    /// reader has consumed them. A reader that has registered in the buffer but
    /// not yet found out whether it holds the latest message stays counted.
    pub open spec fn prepared(self, idx: BufferIndex, size: usize) -> Region {
        self.with(idx, BufferState { size, consumed: 0, ..self.of(idx) })
    }

    /// The sequence state that publication of a buffer makes of the present
    /// one.
    pub open spec fn next_state(self, idx: BufferIndex) -> SequenceState {
        SequenceState {
            sequence: sequence_after(self.sequence()),
            stopped: false,
            buffer_idx: idx,
        }
    }

    /// The memory after an attempt to publish `size` bytes in a buffer. A
    /// stopped message takes no more data.
    pub open spec fn published(self, idx: BufferIndex, size: usize) -> Region {
        if !self.stopped() {
            self.prepared(idx, size).with_state(self.next_state(idx)).notify(
                Channel::Writer,
            ).unlocked()
        } else if self.unconsumed() {
            self.unlocked()
        } else {
            self.prepared(idx, size).unlocked()
        }
    }

    /// The memory with `data` at the start of a buffer.
    pub open spec fn overwritten(self, idx: BufferIndex, data: Seq<u8>) -> Region {
        let offset = self.offset(idx);
        Region {
            buffers: self.buffers.take(offset) + data + self.buffers.skip(offset + data.len()),
            ..self
        }
    }
}

} // verus!
