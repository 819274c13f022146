//! The shared memory of a message as a mathematical value, and the accesses
//! to it.
use crate::primitives::shared_futex::{word_after, LockAction, CONTENDED, LOCKED, UNLOCKED};
use crate::shared_message::packed::SequenceState;
use crate::shared_message::write_operation::published;
use crate::sync::condvar::notified;
use vstd::prelude::*;

verus! {

/// The two condition variables of a message.
#[derive(Clone, Copy, PartialEq, Eq, Structural, Debug)]
pub enum Channel {
    /// Readers wait here for new data.
    Writer,
    /// The writer waits here for readers to finish.
    ReaderDone,
}

/// The reader counters of a message.
#[derive(Clone, Copy, PartialEq, Eq, Structural, Debug)]
pub enum Counter {
    /// How many readers hold the current message.
    Active,
    /// How many readers are done with the current message.
    Consumed,
    /// How many readers the writer waits for.
    Target,
    /// How many readers are registered.
    Consumers,
}

/// One access to the shared memory of a message.
#[derive(Clone, Copy, PartialEq, Eq, Structural, Debug)]
pub enum Action {
    LoadSequence,
    /// Change the sequence word if it holds `expected`.
    SwapSequence { expected: u64, new: u64 },
    SetWriting,
    ClearWriting,
    SetStopped,
    Load(Counter),
    Increase(Counter),
    Decrease(Counter),
    Store(Counter, u16),
    StoreSize(usize),
    /// An access to the writer lock.
    Lock(LockAction),
    Unlock,
    /// Count a notification and wake all sleepers.
    Notify(Channel),
    LoadTicket(Channel),
    /// Sleep while the condition variable holds the ticket.
    Sleep { channel: Channel, ticket: u32 },
}

/// The result of an access.
#[derive(Clone, Copy, PartialEq, Eq, Structural, Debug)]
pub enum Event {
    Word(u64),
    /// What the counter held before the access.
    Count(u16),
    Ticket(u32),
    /// Whether the word was changed, and what it held.
    Swapped { done: bool, found: u64 },
    /// What the lock word held.
    Lock(u32),
    Done,
}

/// A counter that wraps around.
pub open spec fn increased(count: u16) -> u16 {
    ((count + 1) % 0x1_0000) as u16
}

pub open spec fn decreased(count: u16) -> u16 {
    ((count + 0xffff) % 0x1_0000) as u16
}

/// What the shared memory of a message holds.
#[verifier::ext_equal]
pub struct Region {
    pub sequence_word: u64,
    pub active: u16,
    pub consumed: u16,
    pub target: u16,
    pub consumers: u16,
    pub writer_condvar: u32,
    pub reader_done_condvar: u32,
    pub writer_lock: u32,
    pub size: usize,
    pub payload: Seq<u8>,
}

impl Region {
    /// Zeroed memory with room for `capacity` bytes of payload.
    pub open spec fn zeroed(capacity: nat) -> Region {
        Region {
            sequence_word: 0,
            active: 0,
            consumed: 0,
            target: 0,
            consumers: 0,
            writer_condvar: 0,
            reader_done_condvar: 0,
            writer_lock: UNLOCKED,
            size: 0,
            payload: Seq::new(capacity, |i: int| 0u8),
        }
    }

    pub open spec fn wf(self) -> bool {
        self.size <= self.payload.len()
    }

    pub open spec fn state(self) -> SequenceState {
        SequenceState::unpacked(self.sequence_word)
    }

    pub open spec fn sequence(self) -> u64 {
        self.state().sequence
    }

    pub open spec fn stopped(self) -> bool {
        self.state().stopped
    }

    pub open spec fn writing(self) -> bool {
        self.state().writing_in_progress
    }

    /// The bytes of the current message.
    pub open spec fn data(self) -> Seq<u8> {
        self.payload.take(self.size as int)
    }

    pub open spec fn condvar(self, channel: Channel) -> u32 {
        match channel {
            Channel::Writer => self.writer_condvar,
            Channel::ReaderDone => self.reader_done_condvar,
        }
    }

    pub open spec fn counter(self, counter: Counter) -> u16 {
        match counter {
            Counter::Active => self.active,
            Counter::Consumed => self.consumed,
            Counter::Target => self.target,
            Counter::Consumers => self.consumers,
        }
    }

    pub open spec fn with_counter(self, counter: Counter, count: u16) -> Region {
        match counter {
            Counter::Active => Region { active: count, ..self },
            Counter::Consumed => Region { consumed: count, ..self },
            Counter::Target => Region { target: count, ..self },
            Counter::Consumers => Region { consumers: count, ..self },
        }
    }

    pub open spec fn with_state(self, state: SequenceState) -> Region {
        Region { sequence_word: state.packed(), ..self }
    }

    pub open spec fn notify(self, channel: Channel) -> Region {
        match channel {
            Channel::Writer => Region { writer_condvar: notified(self.writer_condvar, 1), ..self },
            Channel::ReaderDone => Region {
                reader_done_condvar: notified(self.reader_done_condvar, 1),
                ..self
            },
        }
    }

    /// What an access leaves in the memory.
    pub open spec fn after(self, action: Action) -> Region {
        match action {
            Action::LoadSequence | Action::Load(_) | Action::LoadTicket(_) => self,
            Action::Sleep { .. } => self,
            Action::SwapSequence { expected, new } => if self.sequence_word == expected {
                Region { sequence_word: new, ..self }
            } else {
                self
            },
            Action::SetWriting => self.with_state(
                SequenceState { writing_in_progress: true, ..self.state() },
            ),
            Action::ClearWriting => self.with_state(
                SequenceState { writing_in_progress: false, ..self.state() },
            ),
            Action::SetStopped => self.with_state(
                SequenceState { stopped: true, ..self.state() },
            ),
            Action::Increase(counter) => self.with_counter(
                counter,
                increased(self.counter(counter)),
            ),
            Action::Decrease(counter) => self.with_counter(
                counter,
                decreased(self.counter(counter)),
            ),
            Action::Store(counter, count) => self.with_counter(counter, count),
            Action::StoreSize(size) => Region { size, ..self },
            Action::Lock(action) => Region {
                writer_lock: word_after(self.writer_lock, action),
                ..self
            },
            Action::Unlock => self.unlocked(),
            Action::Notify(channel) => self.notify(channel),
        }
    }

    /// The result of an access; `None` while the one that makes it sleeps.
    pub open spec fn answer(self, action: Action) -> Option<Event> {
        match action {
            Action::LoadSequence => Some(Event::Word(self.sequence_word)),
            Action::Load(counter) | Action::Increase(counter) | Action::Decrease(counter) => Some(
                Event::Count(self.counter(counter)),
            ),
            Action::LoadTicket(channel) => Some(Event::Ticket(self.condvar(channel))),
            Action::SwapSequence { expected, .. } => Some(
                Event::Swapped {
                    done: self.sequence_word == expected,
                    found: self.sequence_word,
                },
            ),
            Action::Lock(action) => if action == LockAction::Sleep && self.writer_lock
                == CONTENDED {
                None
            } else {
                Some(Event::Lock(self.writer_lock))
            },
            Action::Sleep { channel, ticket } => if self.condvar(channel) == ticket {
                None
            } else {
                Some(Event::Done)
            },
            Action::SetWriting | Action::ClearWriting | Action::SetStopped => Some(Event::Done),
            Action::StoreSize(_) | Action::Store(_, _) => Some(Event::Done),
            Action::Unlock | Action::Notify(_) => Some(Event::Done),
        }
    }

    /// How many readers must be done with a message before the next may be
    /// written: the target, but no more than there are.
    pub open spec fn target_consumed(self) -> u16 {
        if self.target <= self.consumers {
            self.target
        } else {
            self.consumers
        }
    }

    /// Whether a reader finds nothing but has to wait: there is no message but
    /// the one it has seen and more may come, or a write is in progress.
    pub open spec fn read_sleeps(self, last_seen: u64, block: bool) -> bool {
        if self.sequence() == last_seen {
            block && !self.stopped()
        } else {
            self.writing()
        }
    }

    /// Whether a writer has to wait: for another writer, for readers that
    /// should consume the current message, or for readers that hold it.
    pub open spec fn write_sleeps(self) -> bool {
        &&& !self.stopped()
        &&& {
            ||| self.writer_lock != UNLOCKED
            ||| self.sequence() > 0 && self.consumed < self.target_consumed()
            ||| self.active > 0
        }
    }

    /// The memory after a reader gave the message back.
    pub open spec fn released(self) -> Region {
        Region {
            active: decreased(self.active),
            consumed: increased(self.consumed),
            ..self
        }.notify(Channel::ReaderDone)
    }

    /// The memory after a writer got the right to write the payload.
    pub open spec fn started(self) -> Region {
        Region {
            writer_lock: LOCKED,
            ..self.with_state(SequenceState { writing_in_progress: true, ..self.state() })
        }
    }

    pub open spec fn unlocked(self) -> Region {
        Region { writer_lock: UNLOCKED, ..self }
    }

    /// The memory after the first `size` bytes of the payload were published.
    pub open spec fn published(self, size: usize) -> Region {
        Region { size, consumed: 0, ..self }.with_state(published(self.state())).notify(
            Channel::Writer,
        ).unlocked()
    }

    /// The memory with `data` at the start of the payload.
    pub open spec fn overwritten(self, data: Seq<u8>) -> Region {
        Region { payload: data + self.payload.skip(data.len() as int), ..self }
    }
}

} // verus!
