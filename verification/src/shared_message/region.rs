//! The shared memory of a message as a mathematical value.
use crate::primitives::shared_futex::{word_after, LockAction, CONTENDED, LOCKED, UNLOCKED};
use crate::shared_message::operation::{Action, Channel, Event, ReaderChange};
use crate::shared_message::packed::{ReadersStateCount, SequenceState};
use crate::shared_message::write_operation::published;
use crate::sync::condvar::notified;
use vstd::prelude::*;

verus! {

/// What the shared memory of a message holds.
#[verifier::ext_equal]
pub struct Region {
    pub sequence_word: u64,
    pub readers_word: u64,
    pub writer_condvar: u32,
    pub reader_done_condvar: u32,
    pub writer_lock: u32,
    pub size: usize,
    pub payload: Seq<u8>,
}

impl Region {
    /// Zeroed memory with room for `capacity` bytes of payload: no message was
    /// published, and nobody uses it.
    pub open spec fn zeroed(capacity: nat) -> Region {
        Region {
            sequence_word: 0,
            readers_word: 0,
            writer_condvar: 0,
            reader_done_condvar: 0,
            writer_lock: UNLOCKED,
            size: 0,
            payload: Seq::new(capacity, |i: int| 0u8),
        }
    }

    pub open spec fn wf(self) -> bool {
        self.size <= self.payload.len()
    }

    pub open spec fn state(self) -> SequenceState {
        SequenceState::unpacked(self.sequence_word)
    }

    pub open spec fn sequence(self) -> u64 {
        self.state().sequence
    }

    pub open spec fn stopped(self) -> bool {
        self.state().stopped
    }

    pub open spec fn writing(self) -> bool {
        self.state().writing_in_progress
    }

    pub open spec fn counts(self) -> ReadersStateCount {
        ReadersStateCount::unpacked(self.readers_word)
    }

    /// The bytes of the current message.
    pub open spec fn data(self) -> Seq<u8> {
        self.payload.take(self.size as int)
    }

    pub open spec fn condvar(self, channel: Channel) -> u32 {
        match channel {
            Channel::Writer => self.writer_condvar,
            Channel::ReaderDone => self.reader_done_condvar,
        }
    }

    pub open spec fn with_state(self, state: SequenceState) -> Region {
        Region { sequence_word: state.packed(), ..self }
    }

    pub open spec fn with_counts(self, counts: ReadersStateCount) -> Region {
        Region { readers_word: counts.packed(), ..self }
    }

    pub open spec fn notify(self, channel: Channel) -> Region {
        match channel {
            Channel::Writer => Region { writer_condvar: notified(self.writer_condvar, 1), ..self },
            Channel::ReaderDone => Region {
                reader_done_condvar: notified(self.reader_done_condvar, 1),
                ..self
            },
        }
    }

    /// What an access leaves in the memory.
    pub open spec fn after(self, action: Action) -> Region {
        match action {
            Action::LoadSequence | Action::LoadReaders | Action::LoadTicket(_) => self,
            Action::Sleep { .. } => self,
            Action::SwapSequence { expected, new } => if self.sequence_word == expected {
                Region { sequence_word: new, ..self }
            } else {
                self
            },
            Action::SwapReaders { expected, new } => if self.readers_word == expected {
                Region { readers_word: new, ..self }
            } else {
                self
            },
            Action::SetWriting => self.with_state(
                SequenceState { writing_in_progress: true, ..self.state() },
            ),
            Action::ClearWriting => self.with_state(
                SequenceState { writing_in_progress: false, ..self.state() },
            ),
            Action::SetStopped => self.with_state(
                SequenceState { stopped: true, ..self.state() },
            ),
            Action::StoreSize(size) => Region { size, ..self },
            Action::Lock(action) => Region {
                writer_lock: word_after(self.writer_lock, action),
                ..self
            },
            Action::Unlock => Region { writer_lock: UNLOCKED, ..self },
            Action::Notify(channel) => self.notify(channel),
        }
    }

    /// The result of an access; `None` while the one that makes it sleeps.
    pub open spec fn answer(self, action: Action) -> Option<Event> {
        match action {
            Action::LoadSequence => Some(Event::Word(self.sequence_word)),
            Action::LoadReaders => Some(Event::Word(self.readers_word)),
            Action::LoadTicket(channel) => Some(Event::Ticket(self.condvar(channel))),
            Action::SwapSequence { expected, .. } => Some(
                Event::Swapped {
                    done: self.sequence_word == expected,
                    found: self.sequence_word,
                },
            ),
            Action::SwapReaders { expected, .. } => Some(
                Event::Swapped { done: self.readers_word == expected, found: self.readers_word },
            ),
            Action::Lock(action) => if action == LockAction::Sleep && self.writer_lock
                == CONTENDED {
                None
            } else {
                Some(Event::Lock(self.writer_lock))
            },
            Action::Sleep { channel, ticket } => if self.condvar(channel) == ticket {
                None
            } else {
                Some(Event::Done)
            },
            Action::SetWriting | Action::ClearWriting | Action::SetStopped => Some(Event::Done),
            Action::StoreSize(_) | Action::Unlock | Action::Notify(_) => Some(Event::Done),
        }
    }

    /// Whether a reader finds nothing but has to wait: there is no message but
    /// the one it has seen and more may come, or a write is in progress.
    pub open spec fn read_sleeps(self, last_seen: u64, block: bool) -> bool {
        if self.sequence() == last_seen {
            block && !self.stopped()
        } else {
            self.writing()
        }
    }

    /// Whether a writer has to wait: for another writer, for readers that
    /// should consume the current message, or for readers that hold it.
    pub open spec fn write_sleeps(self) -> bool {
        &&& !self.stopped()
        &&& {
            ||| self.writer_lock != UNLOCKED
            ||| self.sequence() > 0 && self.counts().data_consumed
                < self.counts().target_consumed()
            ||| self.counts().active_readers > 0
        }
    }

    /// The memory after a change of the reader counters that keeps them in
    /// range.
    pub open spec fn changed(self, change: ReaderChange) -> Region {
        self.with_counts(self.counts().changed(change)->Some_0)
    }

    /// The memory after a reader gave the message back.
    pub open spec fn released(self) -> Region {
        self.changed(ReaderChange::Release).notify(Channel::ReaderDone)
    }

    /// The memory after a writer got the right to write the payload.
    pub open spec fn started(self) -> Region {
        Region {
            writer_lock: LOCKED,
            ..self.with_state(SequenceState { writing_in_progress: true, ..self.state() })
        }
    }

    pub open spec fn unlocked(self) -> Region {
        Region { writer_lock: UNLOCKED, ..self }
    }

    /// The memory after the first `size` bytes of the payload were published.
    pub open spec fn published(self, size: usize) -> Region {
        Region { size, ..self }.changed(ReaderChange::ResetConsumed).with_state(
            published(self.state()),
        ).notify(Channel::Writer).unlocked()
    }

    /// The memory with `data` at the start of the payload.
    pub open spec fn overwritten(self, data: Seq<u8>) -> Region {
        Region { payload: data + self.payload.skip(data.len() as int), ..self }
    }
}

} // verus!
