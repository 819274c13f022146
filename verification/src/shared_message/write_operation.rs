//! What the writers of a message do, one access at a time.
use crate::primitives::shared_futex::LockOperation;
use crate::shared_message::operation::{Action, Channel, Event, ReaderChange, UpdatePhase};
use crate::shared_message::packed::{
    next_sequence, sequence_after, ReadersStateCount, SequenceState,
};
use vstd::prelude::*;

verus! {

/// How far the start of a write has come.
#[derive(Clone, Copy, PartialEq, Eq, Structural, Debug)]
pub enum StartPhase {
    CheckStopped,
    Locking(LockOperation),
    Sequence,
    Readers { sequence: u64 },
    /// There is a message that readers should consume first; `readers` is the
    /// readers word last seen.
    ConsumedTicket { readers: u64 },
    ConsumedStopped { ticket: u32 },
    /// Wake readers that may sleep without having consumed the data: the
    /// writer would wait for a reader that waits for the writer.
    ConsumedKick { ticket: u32 },
    ConsumedSleep { ticket: u32 },
    ConsumedReload,
    ConsumedReaders { ticket: u32 },
    /// Mark the write as in progress so that no reader starts.
    Mark,
    /// Wait for active readers to finish.
    ActiveTicket,
    ActiveReaders { ticket: u32 },
    ActiveStopped { ticket: u32 },
    ActiveSleep { ticket: u32 },
    Clear,
    Unlock,
    /// Whether the payload may be written now; if not, the message is stopped.
    Finished(bool),
}

/// A writer that wants to write the payload.
#[derive(Clone, Copy, PartialEq, Eq, Structural, Debug)]
pub struct StartWrite {
    pub phase: StartPhase,
}

/// Whether fewer readers have consumed the message than the writer waits for.
pub open spec fn unconsumed(readers: u64) -> bool {
    let counts = ReadersStateCount::unpacked(readers);
    counts.data_consumed < counts.target_consumed()
}

impl StartWrite {
    pub open spec fn next_action(self) -> Option<Action> {
        match self.phase {
            StartPhase::CheckStopped | StartPhase::Sequence => Some(Action::LoadSequence),
            StartPhase::ConsumedStopped { .. } | StartPhase::ActiveStopped { .. } => Some(
                Action::LoadSequence,
            ),
            StartPhase::Locking(lock) => match lock.next_action() {
                Some(action) => Some(Action::Lock(action)),
                None => None,
            },
            StartPhase::Readers { .. } | StartPhase::ConsumedReaders { .. } => Some(
                Action::LoadReaders,
            ),
            StartPhase::ActiveReaders { .. } => Some(Action::LoadReaders),
            StartPhase::ConsumedTicket { .. } | StartPhase::ConsumedReload => Some(
                Action::LoadTicket(Channel::ReaderDone),
            ),
            StartPhase::ActiveTicket => Some(Action::LoadTicket(Channel::ReaderDone)),
            StartPhase::ConsumedKick { .. } => Some(Action::Notify(Channel::Writer)),
            StartPhase::ConsumedSleep { ticket } | StartPhase::ActiveSleep { ticket } => Some(
                Action::Sleep { channel: Channel::ReaderDone, ticket },
            ),
            StartPhase::Mark => Some(Action::SetWriting),
            StartPhase::Clear => Some(Action::ClearWriting),
            StartPhase::Unlock => Some(Action::Unlock),
            StartPhase::Finished(_) => None,
        }
    }

    pub open spec fn after(self, event: Event) -> StartWrite {
        StartWrite {
            phase: match (self.phase, event) {
                (StartPhase::CheckStopped, Event::Word(word)) => if SequenceState::unpacked(
                    word,
                ).stopped {
                    StartPhase::Finished(false)
                } else {
                    StartPhase::Locking(LockOperation::Fast)
                },
                (StartPhase::Locking(lock), Event::Lock(found)) => if lock.after(found)
                    == LockOperation::Held {
                    StartPhase::Sequence
                } else {
                    StartPhase::Locking(lock.after(found))
                },
                (StartPhase::Sequence, Event::Word(word)) => StartPhase::Readers {
                    sequence: SequenceState::unpacked(word).sequence,
                },
                // Only a previous message has to be consumed.
                (StartPhase::Readers { sequence }, Event::Word(readers)) => if sequence > 0
                    && ReadersStateCount::unpacked(readers).target_consumed() > 0 {
                    StartPhase::ConsumedTicket { readers }
                } else {
                    StartPhase::Mark
                },
                (StartPhase::ConsumedTicket { readers }, Event::Ticket(ticket)) => if unconsumed(
                    readers,
                ) {
                    StartPhase::ConsumedStopped { ticket }
                } else {
                    StartPhase::Mark
                },
                (StartPhase::ConsumedStopped { ticket }, Event::Word(word)) =>
                if SequenceState::unpacked(word).stopped {
                    StartPhase::Unlock
                } else {
                    StartPhase::ConsumedKick { ticket }
                },
                (StartPhase::ConsumedKick { ticket }, Event::Done) => StartPhase::ConsumedSleep {
                    ticket,
                },
                (StartPhase::ConsumedSleep { .. }, Event::Done) => StartPhase::ConsumedReload,
                (StartPhase::ConsumedReload, Event::Ticket(ticket)) =>
                StartPhase::ConsumedReaders { ticket },
                (StartPhase::ConsumedReaders { ticket }, Event::Word(readers)) => if unconsumed(
                    readers,
                ) {
                    StartPhase::ConsumedStopped { ticket }
                } else {
                    StartPhase::Mark
                },
                (StartPhase::Mark, Event::Done) => StartPhase::ActiveTicket,
                (StartPhase::ActiveTicket, Event::Ticket(ticket)) => StartPhase::ActiveReaders {
                    ticket,
                },
                (StartPhase::ActiveReaders { ticket }, Event::Word(readers)) =>
                if ReadersStateCount::unpacked(readers).active_readers > 0 {
                    StartPhase::ActiveStopped { ticket }
                } else {
                    StartPhase::Finished(true)
                },
                (StartPhase::ActiveStopped { ticket }, Event::Word(word)) =>
                if SequenceState::unpacked(word).stopped {
                    StartPhase::Clear
                } else {
                    StartPhase::ActiveSleep { ticket }
                },
                (StartPhase::ActiveSleep { .. }, Event::Done) => StartPhase::ActiveTicket,
                (StartPhase::Clear, Event::Done) => StartPhase::Unlock,
                (StartPhase::Unlock, Event::Done) => StartPhase::Finished(false),
                _ => self.phase,
            },
        }
    }

    pub fn new() -> (op: Self)
        ensures
            op.phase == StartPhase::CheckStopped,
    {
        StartWrite { phase: StartPhase::CheckStopped }
    }

    /// The next access; `None` once it is known whether the payload may be
    /// written.
    pub fn action(&self) -> (action: Option<Action>)
        ensures
            action == self.next_action(),
    {
        match self.phase {
            StartPhase::CheckStopped => Some(Action::LoadSequence),
            StartPhase::Locking(lock) => {
                match lock.action() {
                    Some(action) => Some(Action::Lock(action)),
                    None => None,
                }
            },
            StartPhase::Sequence => Some(Action::LoadSequence),
            StartPhase::Readers { .. } => Some(Action::LoadReaders),
            StartPhase::ConsumedTicket { .. } => Some(Action::LoadTicket(Channel::ReaderDone)),
            StartPhase::ConsumedStopped { .. } => Some(Action::LoadSequence),
            StartPhase::ConsumedKick { .. } => Some(Action::Notify(Channel::Writer)),
            StartPhase::ConsumedSleep { ticket } => Some(
                Action::Sleep { channel: Channel::ReaderDone, ticket },
            ),
            StartPhase::ConsumedReload => Some(Action::LoadTicket(Channel::ReaderDone)),
            StartPhase::ConsumedReaders { .. } => Some(Action::LoadReaders),
            StartPhase::Mark => Some(Action::SetWriting),
            StartPhase::ActiveTicket => Some(Action::LoadTicket(Channel::ReaderDone)),
            StartPhase::ActiveReaders { .. } => Some(Action::LoadReaders),
            StartPhase::ActiveStopped { .. } => Some(Action::LoadSequence),
            StartPhase::ActiveSleep { ticket } => Some(
                Action::Sleep { channel: Channel::ReaderDone, ticket },
            ),
            StartPhase::Clear => Some(Action::ClearWriting),
            StartPhase::Unlock => Some(Action::Unlock),
            StartPhase::Finished(_) => None,
        }
    }

    fn is_unconsumed(readers: u64) -> (result: bool)
        ensures
            result == unconsumed(readers),
    {
        let counts = ReadersStateCount::from(readers);
        counts.data_consumed < counts.get_target_consumed()
    }

    /// Takes the result of the access.
    pub fn resume(&mut self, event: Event)
        ensures
            *final(self) == old(self).after(event),
    {
        let phase = match (self.phase, event) {
            (StartPhase::CheckStopped, Event::Word(word)) => {
                if SequenceState::from(word).stopped {
                    StartPhase::Finished(false)
                } else {
                    StartPhase::Locking(LockOperation::Fast)
                }
            },
            (StartPhase::Locking(mut lock), Event::Lock(found)) => {
                lock.resume(found);
                if lock == LockOperation::Held {
                    StartPhase::Sequence
                } else {
                    StartPhase::Locking(lock)
                }
            },
            (StartPhase::Sequence, Event::Word(word)) => StartPhase::Readers {
                sequence: SequenceState::from(word).sequence,
            },
            (StartPhase::Readers { sequence }, Event::Word(readers)) => {
                if ReadersStateCount::from(readers).get_target_consumed() > 0 && sequence > 0 {
                    StartPhase::ConsumedTicket { readers }
                } else {
                    StartPhase::Mark
                }
            },
            (StartPhase::ConsumedTicket { readers }, Event::Ticket(ticket)) => {
                if Self::is_unconsumed(readers) {
                    StartPhase::ConsumedStopped { ticket }
                } else {
                    StartPhase::Mark
                }
            },
            (StartPhase::ConsumedStopped { ticket }, Event::Word(word)) => {
                if SequenceState::from(word).stopped {
                    StartPhase::Unlock
                } else {
                    StartPhase::ConsumedKick { ticket }
                }
            },
            (StartPhase::ConsumedKick { ticket }, Event::Done) => StartPhase::ConsumedSleep {
                ticket,
            },
            (StartPhase::ConsumedSleep { .. }, Event::Done) => StartPhase::ConsumedReload,
            (StartPhase::ConsumedReload, Event::Ticket(ticket)) => StartPhase::ConsumedReaders {
                ticket,
            },
            (StartPhase::ConsumedReaders { ticket }, Event::Word(readers)) => {
                if Self::is_unconsumed(readers) {
                    StartPhase::ConsumedStopped { ticket }
                } else {
                    StartPhase::Mark
                }
            },
            (StartPhase::Mark, Event::Done) => StartPhase::ActiveTicket,
            (StartPhase::ActiveTicket, Event::Ticket(ticket)) => StartPhase::ActiveReaders {
                ticket,
            },
            (StartPhase::ActiveReaders { ticket }, Event::Word(readers)) => {
                if ReadersStateCount::from(readers).active_readers > 0 {
                    StartPhase::ActiveStopped { ticket }
                } else {
                    StartPhase::Finished(true)
                }
            },
            (StartPhase::ActiveStopped { ticket }, Event::Word(word)) => {
                if SequenceState::from(word).stopped {
                    StartPhase::Clear
                } else {
                    StartPhase::ActiveSleep { ticket }
                }
            },
            (StartPhase::ActiveSleep { .. }, Event::Done) => StartPhase::ActiveTicket,
            (StartPhase::Clear, Event::Done) => StartPhase::Unlock,
            (StartPhase::Unlock, Event::Done) => StartPhase::Finished(false),
            (phase, _) => phase,
        };
        self.phase = phase;
    }
}

/// How far the publication of a message has come.
#[derive(Clone, Copy, PartialEq, Eq, Structural, Debug)]
pub enum PublishPhase {
    /// See whether the message was stopped while it was written.
    CheckStopped,
    StoreSize,
    Reset(UpdatePhase),
    Sequence,
    Swap { expected: u64, new: u64 },
    Notify { sequence: u64 },
    Unlock { sequence: u64 },
    Finished(u64),
    /// It was: nothing is published. The mark of the write stays, so that
    /// nobody reads what was written.
    UnlockRefused,
    Refused,
}

/// A writer that has written `size` bytes of payload and makes them the
/// current message.
#[derive(Clone, Copy, PartialEq, Eq, Structural, Debug)]
pub struct Publish {
    pub size: usize,
    pub phase: PublishPhase,
}

/// The sequence state that publication makes of `state`: the next sequence, no
/// write in progress, and the stopped flag kept.
pub open spec fn published(state: SequenceState) -> SequenceState {
    SequenceState {
        sequence: sequence_after(state.sequence),
        stopped: state.stopped,
        writing_in_progress: false,
    }
}

impl Publish {
    pub open spec fn next_action(self) -> Option<Action> {
        match self.phase {
            PublishPhase::CheckStopped => Some(Action::LoadSequence),
            PublishPhase::StoreSize => Some(Action::StoreSize(self.size)),
            PublishPhase::Reset(update) => update.next_action(),
            PublishPhase::Sequence => Some(Action::LoadSequence),
            PublishPhase::Swap { expected, new } => Some(Action::SwapSequence { expected, new }),
            PublishPhase::Notify { .. } => Some(Action::Notify(Channel::Writer)),
            PublishPhase::Unlock { .. } => Some(Action::Unlock),
            PublishPhase::Finished(_) | PublishPhase::Refused => None,
            PublishPhase::UnlockRefused => Some(Action::Unlock),
        }
    }

    pub open spec fn seen(word: u64) -> PublishPhase {
        PublishPhase::Swap {
            expected: word,
            new: published(SequenceState::unpacked(word)).packed(),
        }
    }

    pub open spec fn after(self, event: Event) -> Publish {
        Publish {
            phase: match (self.phase, event) {
                (PublishPhase::CheckStopped, Event::Word(word)) => if SequenceState::unpacked(
                    word,
                ).stopped {
                    PublishPhase::UnlockRefused
                } else {
                    PublishPhase::StoreSize
                },
                (PublishPhase::StoreSize, Event::Done) => PublishPhase::Reset(UpdatePhase::Load),
                (PublishPhase::Reset(update), _) => match update.after(
                    ReaderChange::ResetConsumed,
                    event,
                ) {
                    UpdatePhase::Finished => PublishPhase::Sequence,
                    update => PublishPhase::Reset(update),
                },
                (PublishPhase::Sequence, Event::Word(word)) => Publish::seen(word),
                (PublishPhase::Swap { expected, new }, Event::Swapped { done, found }) => if done {
                    PublishPhase::Notify { sequence: SequenceState::unpacked(new).sequence }
                } else {
                    Publish::seen(found)
                },
                (PublishPhase::Notify { sequence }, Event::Done) => PublishPhase::Unlock {
                    sequence,
                },
                (PublishPhase::Unlock { sequence }, Event::Done) => PublishPhase::Finished(
                    sequence,
                ),
                (PublishPhase::UnlockRefused, Event::Done) => PublishPhase::Refused,
                _ => self.phase,
            },
            ..self
        }
    }

    /// The publication of a write that goes through even if the message was
    /// stopped meanwhile.
    pub fn new(size: usize) -> (op: Self)
        ensures
            op == (Publish { size, phase: PublishPhase::StoreSize }),
    {
        Publish { size, phase: PublishPhase::StoreSize }
    }

    /// The publication of a guard, which is refused once the message is
    /// stopped.
    pub fn guarded(size: usize) -> (op: Self)
        ensures
            op == (Publish { size, phase: PublishPhase::CheckStopped }),
    {
        Publish { size, phase: PublishPhase::CheckStopped }
    }

    /// The next access; `None` once the message is published or refused.
    pub fn action(&self) -> (action: Option<Action>)
        ensures
            action == self.next_action(),
    {
        match self.phase {
            PublishPhase::CheckStopped => Some(Action::LoadSequence),
            PublishPhase::StoreSize => Some(Action::StoreSize(self.size)),
            PublishPhase::Reset(update) => update.action(),
            PublishPhase::Sequence => Some(Action::LoadSequence),
            PublishPhase::Swap { expected, new } => Some(Action::SwapSequence { expected, new }),
            PublishPhase::Notify { .. } => Some(Action::Notify(Channel::Writer)),
            PublishPhase::Unlock { .. } => Some(Action::Unlock),
            PublishPhase::Finished(_) | PublishPhase::Refused => None,
            PublishPhase::UnlockRefused => Some(Action::Unlock),
        }
    }

    fn see(word: u64) -> (phase: PublishPhase)
        ensures
            phase == Publish::seen(word),
    {
        let state = SequenceState::from(word);
        let new = SequenceState {
            sequence: next_sequence(state.sequence),
            stopped: state.stopped,
            writing_in_progress: false,
        };
        PublishPhase::Swap { expected: word, new: new.to_packed() }
    }

    /// Takes the result of the access.
    pub fn resume(&mut self, event: Event)
        ensures
            *final(self) == old(self).after(event),
    {
        let phase = match (self.phase, event) {
            (PublishPhase::CheckStopped, Event::Word(word)) => {
                if SequenceState::from(word).stopped {
                    PublishPhase::UnlockRefused
                } else {
                    PublishPhase::StoreSize
                }
            },
            (PublishPhase::StoreSize, Event::Done) => PublishPhase::Reset(UpdatePhase::Load),
            (PublishPhase::Reset(update), _) => {
                match update.resumed(ReaderChange::ResetConsumed, event) {
                    UpdatePhase::Finished => PublishPhase::Sequence,
                    update => PublishPhase::Reset(update),
                }
            },
            (PublishPhase::Sequence, Event::Word(word)) => Self::see(word),
            (PublishPhase::Swap { expected: _, new }, Event::Swapped { done, found }) => {
                if done {
                    PublishPhase::Notify { sequence: SequenceState::from(new).sequence }
                } else {
                    Self::see(found)
                }
            },
            (PublishPhase::Notify { sequence }, Event::Done) => PublishPhase::Unlock { sequence },
            (PublishPhase::Unlock { sequence }, Event::Done) => PublishPhase::Finished(sequence),
            (PublishPhase::UnlockRefused, Event::Done) => PublishPhase::Refused,
            (phase, _) => phase,
        };
        self.phase = phase;
    }
}

/// A stop of a message: no more writes will occur. The flag is set, then all
/// readers and writers that sleep are woken.
#[derive(Clone, Copy, PartialEq, Eq, Structural, Debug)]
pub enum StopOperation {
    SetStopped,
    NotifyReaders,
    NotifyWriters,
    Finished,
}

impl StopOperation {
    pub open spec fn next_action(self) -> Option<Action> {
        match self {
            StopOperation::SetStopped => Some(Action::SetStopped),
            StopOperation::NotifyReaders => Some(Action::Notify(Channel::Writer)),
            StopOperation::NotifyWriters => Some(Action::Notify(Channel::ReaderDone)),
            StopOperation::Finished => None,
        }
    }

    pub open spec fn after(self, event: Event) -> StopOperation {
        match (self, event) {
            (StopOperation::SetStopped, Event::Done) => StopOperation::NotifyReaders,
            (StopOperation::NotifyReaders, Event::Done) => StopOperation::NotifyWriters,
            (StopOperation::NotifyWriters, Event::Done) => StopOperation::Finished,
            _ => self,
        }
    }

    pub fn action(&self) -> (action: Option<Action>)
        ensures
            action == self.next_action(),
    {
        match self {
            StopOperation::SetStopped => Some(Action::SetStopped),
            StopOperation::NotifyReaders => Some(Action::Notify(Channel::Writer)),
            StopOperation::NotifyWriters => Some(Action::Notify(Channel::ReaderDone)),
            StopOperation::Finished => None,
        }
    }

    pub fn resume(&mut self, event: Event)
        ensures
            *final(self) == old(self).after(event),
    {
        *self = match (*self, event) {
            (StopOperation::SetStopped, Event::Done) => StopOperation::NotifyReaders,
            (StopOperation::NotifyReaders, Event::Done) => StopOperation::NotifyWriters,
            (StopOperation::NotifyWriters, Event::Done) => StopOperation::Finished,
            (op, _) => op,
        };
    }
}

} // verus!
