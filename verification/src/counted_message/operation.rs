//! What readers and writers of a message do, one access at a time.
use crate::counted_message::region::{Action, Channel, Counter, Event};
use crate::primitives::shared_futex::LockOperation;
use crate::shared_message::packed::{next_sequence, SequenceState};
use crate::shared_message::write_operation::published;
use vstd::prelude::*;

verus! {

/// How far a read has come.
#[derive(Clone, Copy, PartialEq, Eq, Structural, Debug)]
pub enum ReadPhase {
    Observe,
    /// Sleep until there is new data, the writer is done, or a stop.
    Doze,
    Sleep { ticket: u32 },
    /// Register as a reader before the data is looked at.
    Register { sequence: u64 },
    /// See whether the message changed meanwhile.
    Verify { sequence: u64 },
    /// It changed: take the registration back and start over.
    Withdraw,
    /// The message with this sequence is held, or there is none to read.
    Finished(Option<u64>),
}

/// A reader that wants a message other than the one it has seen last.
#[derive(Clone, Copy, PartialEq, Eq, Structural, Debug)]
pub struct ReadOperation {
    pub last_seen: u64,
    pub block: bool,
    pub phase: ReadPhase,
}

impl ReadOperation {
    pub open spec fn next_action(self) -> Option<Action> {
        match self.phase {
            ReadPhase::Observe | ReadPhase::Verify { .. } => Some(Action::LoadSequence),
            ReadPhase::Doze => Some(Action::LoadTicket(Channel::Writer)),
            ReadPhase::Sleep { ticket } => Some(
                Action::Sleep { channel: Channel::Writer, ticket },
            ),
            ReadPhase::Register { .. } => Some(Action::Increase(Counter::Active)),
            ReadPhase::Withdraw => Some(Action::Decrease(Counter::Active)),
            ReadPhase::Finished(_) => None,
        }
    }

    /// Where a reader goes that sees the sequence state `state`.
    pub open spec fn observed(self, state: SequenceState) -> ReadPhase {
        if state.sequence == self.last_seen && (state.stopped || !self.block) {
            ReadPhase::Finished(None)
        } else if state.sequence == self.last_seen || state.writing_in_progress {
            ReadPhase::Doze
        } else {
            ReadPhase::Register { sequence: state.sequence }
        }
    }

    pub open spec fn phase_after(self, event: Event) -> ReadPhase {
        match (self.phase, event) {
            (ReadPhase::Observe, Event::Word(word)) => self.observed(
                SequenceState::unpacked(word),
            ),
            (ReadPhase::Doze, Event::Ticket(ticket)) => ReadPhase::Sleep { ticket },
            (ReadPhase::Sleep { .. }, Event::Done) => ReadPhase::Observe,
            (ReadPhase::Register { sequence }, Event::Count(_)) => ReadPhase::Verify { sequence },
            (ReadPhase::Verify { sequence }, Event::Word(word)) => {
                let state = SequenceState::unpacked(word);
                if state.writing_in_progress || state.sequence != sequence {
                    ReadPhase::Withdraw
                } else {
                    ReadPhase::Finished(Some(sequence))
                }
            },
            (ReadPhase::Withdraw, Event::Count(_)) => ReadPhase::Observe,
            _ => self.phase,
        }
    }

    pub open spec fn after(self, event: Event) -> ReadOperation {
        ReadOperation { phase: self.phase_after(event), ..self }
    }

    pub fn new(last_seen: u64, block: bool) -> (op: Self)
        ensures
            op == (ReadOperation { last_seen, block, phase: ReadPhase::Observe }),
    {
        ReadOperation { last_seen, block, phase: ReadPhase::Observe }
    }

    /// The next access; `None` once the read is finished.
    pub fn action(&self) -> (action: Option<Action>)
        ensures
            action == self.next_action(),
    {
        match self.phase {
            ReadPhase::Observe => Some(Action::LoadSequence),
            ReadPhase::Doze => Some(Action::LoadTicket(Channel::Writer)),
            ReadPhase::Sleep { ticket } => Some(
                Action::Sleep { channel: Channel::Writer, ticket },
            ),
            ReadPhase::Register { .. } => Some(Action::Increase(Counter::Active)),
            ReadPhase::Verify { .. } => Some(Action::LoadSequence),
            ReadPhase::Withdraw => Some(Action::Decrease(Counter::Active)),
            ReadPhase::Finished(_) => None,
        }
    }

    fn observe(&self, word: u64) -> (phase: ReadPhase)
        ensures
            phase == self.observed(SequenceState::unpacked(word)),
    {
        let state = SequenceState::from(word);
        if state.stopped && state.sequence == self.last_seen {
            return ReadPhase::Finished(None);
        }
        // See whether there is new data.
        if state.sequence == self.last_seen {
            if !self.block {
                return ReadPhase::Finished(None);
            }
            return ReadPhase::Doze;
        }
        if state.writing_in_progress {
            return ReadPhase::Doze;
        }
        ReadPhase::Register { sequence: state.sequence }
    }

    /// Takes the result of the access.
    pub fn resume(&mut self, event: Event)
        ensures
            *final(self) == old(self).after(event),
    {
        let phase = match (self.phase, event) {
            (ReadPhase::Observe, Event::Word(word)) => self.observe(word),
            (ReadPhase::Doze, Event::Ticket(ticket)) => ReadPhase::Sleep { ticket },
            (ReadPhase::Sleep { .. }, Event::Done) => ReadPhase::Observe,
            (ReadPhase::Register { sequence }, Event::Count(_)) => ReadPhase::Verify { sequence },
            (ReadPhase::Verify { sequence }, Event::Word(word)) => {
                let state = SequenceState::from(word);
                if state.writing_in_progress || state.sequence != sequence {
                    ReadPhase::Withdraw
                } else {
                    ReadPhase::Finished(Some(sequence))
                }
            },
            (ReadPhase::Withdraw, Event::Count(_)) => ReadPhase::Observe,
            (phase, _) => phase,
        };
        self.phase = phase;
    }
}

/// A reader that is done with the message it holds.
#[derive(Clone, Copy, PartialEq, Eq, Structural, Debug)]
pub enum ReleaseOperation {
    Active,
    Consumed,
    Notify,
    Finished,
}

impl ReleaseOperation {
    pub open spec fn next_action(self) -> Option<Action> {
        match self {
            ReleaseOperation::Active => Some(Action::Decrease(Counter::Active)),
            ReleaseOperation::Consumed => Some(Action::Increase(Counter::Consumed)),
            ReleaseOperation::Notify => Some(Action::Notify(Channel::ReaderDone)),
            ReleaseOperation::Finished => None,
        }
    }

    pub open spec fn after(self, event: Event) -> ReleaseOperation {
        match (self, event) {
            (ReleaseOperation::Active, Event::Count(_)) => ReleaseOperation::Consumed,
            (ReleaseOperation::Consumed, Event::Count(_)) => ReleaseOperation::Notify,
            (ReleaseOperation::Notify, Event::Done) => ReleaseOperation::Finished,
            _ => self,
        }
    }

    pub fn action(&self) -> (action: Option<Action>)
        ensures
            action == self.next_action(),
    {
        match self {
            ReleaseOperation::Active => Some(Action::Decrease(Counter::Active)),
            ReleaseOperation::Consumed => Some(Action::Increase(Counter::Consumed)),
            ReleaseOperation::Notify => Some(Action::Notify(Channel::ReaderDone)),
            ReleaseOperation::Finished => None,
        }
    }

    pub fn resume(&mut self, event: Event)
        ensures
            *final(self) == old(self).after(event),
    {
        *self = match (*self, event) {
            (ReleaseOperation::Active, Event::Count(_)) => ReleaseOperation::Consumed,
            (ReleaseOperation::Consumed, Event::Count(_)) => ReleaseOperation::Notify,
            (ReleaseOperation::Notify, Event::Done) => ReleaseOperation::Finished,
            (op, _) => op,
        };
    }
}

/// How far the start of a write has come.
#[derive(Clone, Copy, PartialEq, Eq, Structural, Debug)]
pub enum StartPhase {
    CheckStopped,
    Locking(LockOperation),
    Sequence,
    Target { sequence: u64 },
    Consumers { sequence: u64, target: u16 },
    /// There is a message that `target` readers should consume first.
    Consumed { target: u16 },
    ConsumedStopped { target: u16 },
    ConsumedDoze { target: u16 },
    ConsumedSleep { target: u16, ticket: u32 },
    ConsumedAgain { target: u16 },
    /// Readers may have left meanwhile.
    ConsumersAgain { target: u16, consumed: u16 },
    /// Mark the write as in progress so that no reader starts.
    Mark,
    /// Wait for active readers to finish.
    Active,
    ActiveStopped,
    ActiveDoze,
    ActiveSleep { ticket: u32 },
    Clear,
    Unlock,
    /// Whether the payload may be written now; if not, the message is stopped.
    Finished(bool),
}

/// A writer that wants to write the payload.
#[derive(Clone, Copy, PartialEq, Eq, Structural, Debug)]
pub struct StartWrite {
    pub phase: StartPhase,
}

pub open spec fn smaller(left: u16, right: u16) -> u16 {
    if left <= right {
        left
    } else {
        right
    }
}

impl StartWrite {
    pub open spec fn next_action(self) -> Option<Action> {
        match self.phase {
            StartPhase::CheckStopped | StartPhase::Sequence => Some(Action::LoadSequence),
            StartPhase::ConsumedStopped { .. } | StartPhase::ActiveStopped => Some(
                Action::LoadSequence,
            ),
            StartPhase::Locking(lock) => match lock.next_action() {
                Some(action) => Some(Action::Lock(action)),
                None => None,
            },
            StartPhase::Target { .. } => Some(Action::Load(Counter::Target)),
            StartPhase::Consumers { .. } | StartPhase::ConsumersAgain { .. } => Some(
                Action::Load(Counter::Consumers),
            ),
            StartPhase::Consumed { .. } | StartPhase::ConsumedAgain { .. } => Some(
                Action::Load(Counter::Consumed),
            ),
            StartPhase::Active => Some(Action::Load(Counter::Active)),
            StartPhase::ConsumedDoze { .. } | StartPhase::ActiveDoze => Some(
                Action::LoadTicket(Channel::ReaderDone),
            ),
            StartPhase::ConsumedSleep { ticket, .. } | StartPhase::ActiveSleep { ticket } => Some(
                Action::Sleep { channel: Channel::ReaderDone, ticket },
            ),
            StartPhase::Mark => Some(Action::SetWriting),
            StartPhase::Clear => Some(Action::ClearWriting),
            StartPhase::Unlock => Some(Action::Unlock),
            StartPhase::Finished(_) => None,
        }
    }

    /// Where a writer goes that sees `consumed` readers done with the message.
    pub open spec fn waiting(target: u16, consumed: u16) -> StartPhase {
        if consumed < target {
            StartPhase::ConsumedStopped { target }
        } else {
            StartPhase::Mark
        }
    }

    pub open spec fn after(self, event: Event) -> StartWrite {
        StartWrite {
            phase: match (self.phase, event) {
                (StartPhase::CheckStopped, Event::Word(word)) => if SequenceState::unpacked(
                    word,
                ).stopped {
                    StartPhase::Finished(false)
                } else {
                    StartPhase::Locking(LockOperation::Fast)
                },
                (StartPhase::Locking(lock), Event::Lock(found)) => if lock.after(found)
                    == LockOperation::Held {
                    StartPhase::Sequence
                } else {
                    StartPhase::Locking(lock.after(found))
                },
                (StartPhase::Sequence, Event::Word(word)) => StartPhase::Target {
                    sequence: SequenceState::unpacked(word).sequence,
                },
                (StartPhase::Target { sequence }, Event::Count(target)) => StartPhase::Consumers {
                    sequence,
                    target,
                },
                // Only a previous message has to be consumed.
                (StartPhase::Consumers { sequence, target }, Event::Count(consumers)) => if smaller(
                    target,
                    consumers,
                ) > 0 && sequence > 0 {
                    StartPhase::Consumed { target: smaller(target, consumers) }
                } else {
                    StartPhase::Mark
                },
                (StartPhase::Consumed { target }, Event::Count(consumed)) => Self::waiting(
                    target,
                    consumed,
                ),
                (StartPhase::ConsumedStopped { target }, Event::Word(word)) =>
                if SequenceState::unpacked(word).stopped {
                    StartPhase::Unlock
                } else {
                    StartPhase::ConsumedDoze { target }
                },
                (StartPhase::ConsumedDoze { target }, Event::Ticket(ticket)) =>
                StartPhase::ConsumedSleep { target, ticket },
                (StartPhase::ConsumedSleep { target, .. }, Event::Done) =>
                StartPhase::ConsumedAgain { target },
                (StartPhase::ConsumedAgain { target }, Event::Count(consumed)) =>
                StartPhase::ConsumersAgain { target, consumed },
                (StartPhase::ConsumersAgain { target, consumed }, Event::Count(consumers)) =>
                Self::waiting(smaller(target, consumers), consumed),
                (StartPhase::Mark, Event::Done) => StartPhase::Active,
                (StartPhase::Active, Event::Count(active)) => if active > 0 {
                    StartPhase::ActiveStopped
                } else {
                    StartPhase::Finished(true)
                },
                (StartPhase::ActiveStopped, Event::Word(word)) => if SequenceState::unpacked(
                    word,
                ).stopped {
                    StartPhase::Clear
                } else {
                    StartPhase::ActiveDoze
                },
                (StartPhase::ActiveDoze, Event::Ticket(ticket)) => StartPhase::ActiveSleep {
                    ticket,
                },
                (StartPhase::ActiveSleep { .. }, Event::Done) => StartPhase::Active,
                (StartPhase::Clear, Event::Done) => StartPhase::Unlock,
                (StartPhase::Unlock, Event::Done) => StartPhase::Finished(false),
                _ => self.phase,
            },
        }
    }

    pub fn new() -> (op: Self)
        ensures
            op.phase == StartPhase::CheckStopped,
    {
        StartWrite { phase: StartPhase::CheckStopped }
    }

    /// The next access; `None` once it is known whether the payload may be
    /// written.
    pub fn action(&self) -> (action: Option<Action>)
        ensures
            action == self.next_action(),
    {
        match self.phase {
            StartPhase::CheckStopped => Some(Action::LoadSequence),
            StartPhase::Locking(lock) => {
                match lock.action() {
                    Some(action) => Some(Action::Lock(action)),
                    None => None,
                }
            },
            StartPhase::Sequence => Some(Action::LoadSequence),
            StartPhase::Target { .. } => Some(Action::Load(Counter::Target)),
            StartPhase::Consumers { .. } => Some(Action::Load(Counter::Consumers)),
            StartPhase::Consumed { .. } => Some(Action::Load(Counter::Consumed)),
            StartPhase::ConsumedStopped { .. } => Some(Action::LoadSequence),
            StartPhase::ConsumedDoze { .. } => Some(Action::LoadTicket(Channel::ReaderDone)),
            StartPhase::ConsumedSleep { ticket, .. } => Some(
                Action::Sleep { channel: Channel::ReaderDone, ticket },
            ),
            StartPhase::ConsumedAgain { .. } => Some(Action::Load(Counter::Consumed)),
            StartPhase::ConsumersAgain { .. } => Some(Action::Load(Counter::Consumers)),
            StartPhase::Mark => Some(Action::SetWriting),
            StartPhase::Active => Some(Action::Load(Counter::Active)),
            StartPhase::ActiveStopped => Some(Action::LoadSequence),
            StartPhase::ActiveDoze => Some(Action::LoadTicket(Channel::ReaderDone)),
            StartPhase::ActiveSleep { ticket } => Some(
                Action::Sleep { channel: Channel::ReaderDone, ticket },
            ),
            StartPhase::Clear => Some(Action::ClearWriting),
            StartPhase::Unlock => Some(Action::Unlock),
            StartPhase::Finished(_) => None,
        }
    }

    fn wait_for(target: u16, consumed: u16) -> (phase: StartPhase)
        ensures
            phase == Self::waiting(target, consumed),
    {
        if consumed < target {
            StartPhase::ConsumedStopped { target }
        } else {
            StartPhase::Mark
        }
    }

    fn min(left: u16, right: u16) -> (min: u16)
        ensures
            min == smaller(left, right),
    {
        if left <= right {
            left
        } else {
            right
        }
    }

    /// Takes the result of the access.
    pub fn resume(&mut self, event: Event)
        ensures
            *final(self) == old(self).after(event),
    {
        let phase = match (self.phase, event) {
            (StartPhase::CheckStopped, Event::Word(word)) => {
                if SequenceState::from(word).stopped {
                    StartPhase::Finished(false)
                } else {
                    StartPhase::Locking(LockOperation::Fast)
                }
            },
            (StartPhase::Locking(mut lock), Event::Lock(found)) => {
                lock.resume(found);
                if lock == LockOperation::Held {
                    StartPhase::Sequence
                } else {
                    StartPhase::Locking(lock)
                }
            },
            (StartPhase::Sequence, Event::Word(word)) => StartPhase::Target {
                sequence: SequenceState::from(word).sequence,
            },
            (StartPhase::Target { sequence }, Event::Count(target)) => StartPhase::Consumers {
                sequence,
                target,
            },
            (StartPhase::Consumers { sequence, target }, Event::Count(consumers)) => {
                let target_count: u16 = Self::min(target, consumers);
                if target_count > 0 && sequence > 0 {
                    StartPhase::Consumed { target: target_count }
                } else {
                    StartPhase::Mark
                }
            },
            (StartPhase::Consumed { target }, Event::Count(consumed)) => Self::wait_for(
                target,
                consumed,
            ),
            (StartPhase::ConsumedStopped { target }, Event::Word(word)) => {
                if SequenceState::from(word).stopped {
                    StartPhase::Unlock
                } else {
                    StartPhase::ConsumedDoze { target }
                }
            },
            (StartPhase::ConsumedDoze { target }, Event::Ticket(ticket)) =>
            StartPhase::ConsumedSleep { target, ticket },
            (StartPhase::ConsumedSleep { target, .. }, Event::Done) => StartPhase::ConsumedAgain {
                target,
            },
            (StartPhase::ConsumedAgain { target }, Event::Count(consumed)) =>
            StartPhase::ConsumersAgain { target, consumed },
            (StartPhase::ConsumersAgain { target, consumed }, Event::Count(consumers)) =>
            Self::wait_for(Self::min(target, consumers), consumed),
            (StartPhase::Mark, Event::Done) => StartPhase::Active,
            (StartPhase::Active, Event::Count(active)) => {
                if active > 0 {
                    StartPhase::ActiveStopped
                } else {
                    StartPhase::Finished(true)
                }
            },
            (StartPhase::ActiveStopped, Event::Word(word)) => {
                if SequenceState::from(word).stopped {
                    StartPhase::Clear
                } else {
                    StartPhase::ActiveDoze
                }
            },
            (StartPhase::ActiveDoze, Event::Ticket(ticket)) => StartPhase::ActiveSleep { ticket },
            (StartPhase::ActiveSleep { .. }, Event::Done) => StartPhase::Active,
            (StartPhase::Clear, Event::Done) => StartPhase::Unlock,
            (StartPhase::Unlock, Event::Done) => StartPhase::Finished(false),
            (phase, _) => phase,
        };
        self.phase = phase;
    }
}

/// How far the publication of a message has come.
#[derive(Clone, Copy, PartialEq, Eq, Structural, Debug)]
pub enum PublishPhase {
    /// See whether the message was stopped while it was written.
    CheckStopped,
    StoreSize,
    ResetConsumed,
    Sequence,
    Swap { expected: u64, new: u64 },
    Notify { sequence: u64 },
    Unlock { sequence: u64 },
    Finished(u64),
    /// It was: nothing is published. The mark of the write stays, so that
    /// nobody reads what was written.
    UnlockRefused,
    Refused,
}

/// A writer that has written `size` bytes of payload and makes them the
/// current message.
#[derive(Clone, Copy, PartialEq, Eq, Structural, Debug)]
pub struct Publish {
    pub size: usize,
    pub phase: PublishPhase,
}

impl Publish {
    pub open spec fn next_action(self) -> Option<Action> {
        match self.phase {
            PublishPhase::CheckStopped => Some(Action::LoadSequence),
            PublishPhase::StoreSize => Some(Action::StoreSize(self.size)),
            PublishPhase::ResetConsumed => Some(Action::Store(Counter::Consumed, 0)),
            PublishPhase::Sequence => Some(Action::LoadSequence),
            PublishPhase::Swap { expected, new } => Some(Action::SwapSequence { expected, new }),
            PublishPhase::Notify { .. } => Some(Action::Notify(Channel::Writer)),
            PublishPhase::Unlock { .. } => Some(Action::Unlock),
            PublishPhase::Finished(_) | PublishPhase::Refused => None,
            PublishPhase::UnlockRefused => Some(Action::Unlock),
        }
    }

    pub open spec fn seen(word: u64) -> PublishPhase {
        PublishPhase::Swap {
            expected: word,
            new: published(SequenceState::unpacked(word)).packed(),
        }
    }

    pub open spec fn after(self, event: Event) -> Publish {
        Publish {
            phase: match (self.phase, event) {
                (PublishPhase::CheckStopped, Event::Word(word)) => if SequenceState::unpacked(
                    word,
                ).stopped {
                    PublishPhase::UnlockRefused
                } else {
                    PublishPhase::StoreSize
                },
                (PublishPhase::StoreSize, Event::Done) => PublishPhase::ResetConsumed,
                (PublishPhase::ResetConsumed, Event::Done) => PublishPhase::Sequence,
                (PublishPhase::Sequence, Event::Word(word)) => Publish::seen(word),
                (PublishPhase::Swap { new, .. }, Event::Swapped { done, .. }) => if done {
                    PublishPhase::Notify { sequence: SequenceState::unpacked(new).sequence }
                } else {
                    PublishPhase::Sequence
                },
                (PublishPhase::Notify { sequence }, Event::Done) => PublishPhase::Unlock {
                    sequence,
                },
                (PublishPhase::Unlock { sequence }, Event::Done) => PublishPhase::Finished(
                    sequence,
                ),
                (PublishPhase::UnlockRefused, Event::Done) => PublishPhase::Refused,
                _ => self.phase,
            },
            ..self
        }
    }

    /// The publication of a write that goes through even if the message was
    /// stopped meanwhile.
    pub fn new(size: usize) -> (op: Self)
        ensures
            op == (Publish { size, phase: PublishPhase::StoreSize }),
    {
        Publish { size, phase: PublishPhase::StoreSize }
    }

    /// The publication of a guard, which is refused once the message is
    /// stopped.
    pub fn guarded(size: usize) -> (op: Self)
        ensures
            op == (Publish { size, phase: PublishPhase::CheckStopped }),
    {
        Publish { size, phase: PublishPhase::CheckStopped }
    }

    /// The next access; `None` once the message is published or refused.
    pub fn action(&self) -> (action: Option<Action>)
        ensures
            action == self.next_action(),
    {
        match self.phase {
            PublishPhase::CheckStopped => Some(Action::LoadSequence),
            PublishPhase::StoreSize => Some(Action::StoreSize(self.size)),
            PublishPhase::ResetConsumed => Some(Action::Store(Counter::Consumed, 0)),
            PublishPhase::Sequence => Some(Action::LoadSequence),
            PublishPhase::Swap { expected, new } => Some(Action::SwapSequence { expected, new }),
            PublishPhase::Notify { .. } => Some(Action::Notify(Channel::Writer)),
            PublishPhase::Unlock { .. } => Some(Action::Unlock),
            PublishPhase::Finished(_) | PublishPhase::Refused => None,
            PublishPhase::UnlockRefused => Some(Action::Unlock),
        }
    }

    fn see(word: u64) -> (phase: PublishPhase)
        ensures
            phase == Publish::seen(word),
    {
        let state = SequenceState::from(word);
        let new = SequenceState {
            sequence: next_sequence(state.sequence),
            stopped: state.stopped,
            writing_in_progress: false,
        };
        PublishPhase::Swap { expected: word, new: new.to_packed() }
    }

    /// Takes the result of the access.
    pub fn resume(&mut self, event: Event)
        ensures
            *final(self) == old(self).after(event),
    {
        let phase = match (self.phase, event) {
            (PublishPhase::CheckStopped, Event::Word(word)) => {
                if SequenceState::from(word).stopped {
                    PublishPhase::UnlockRefused
                } else {
                    PublishPhase::StoreSize
                }
            },
            (PublishPhase::StoreSize, Event::Done) => PublishPhase::ResetConsumed,
            (PublishPhase::ResetConsumed, Event::Done) => PublishPhase::Sequence,
            (PublishPhase::Sequence, Event::Word(word)) => Self::see(word),
            (PublishPhase::Swap { expected: _, new }, Event::Swapped { done, .. }) => {
                if done {
                    PublishPhase::Notify { sequence: SequenceState::from(new).sequence }
                } else {
                    PublishPhase::Sequence
                }
            },
            (PublishPhase::Notify { sequence }, Event::Done) => PublishPhase::Unlock { sequence },
            (PublishPhase::Unlock { sequence }, Event::Done) => PublishPhase::Finished(sequence),
            (PublishPhase::UnlockRefused, Event::Done) => PublishPhase::Refused,
            (phase, _) => phase,
        };
        self.phase = phase;
    }
}

} // verus!
