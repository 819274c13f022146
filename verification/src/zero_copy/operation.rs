//! What readers and writers of a double-buffered message do, one access at a
//! time.
use crate::primitives::shared_futex::LockOperation;
use crate::shared_message::packed::{next_sequence, sequence_after};
use crate::zero_copy::region::{
    smaller, Action, BufferIndex, Channel, Counter, Event, SequenceState,
};
use vstd::prelude::*;

verus! {

/// A reader that gives a buffer back.
#[derive(Clone, Copy, PartialEq, Eq, Structural, Debug)]
pub enum ReleasePhase {
    Readers,
    Consumed,
    Notify,
    Finished,
}

impl ReleasePhase {
    pub open spec fn next_action(self, idx: BufferIndex) -> Option<Action> {
        match self {
            ReleasePhase::Readers => Some(Action::Decrease(Counter::Readers(idx))),
            ReleasePhase::Consumed => Some(Action::Increase(Counter::Consumed(idx))),
            ReleasePhase::Notify => Some(Action::Notify(Channel::ReaderDone)),
            ReleasePhase::Finished => None,
        }
    }

    pub open spec fn after(self, event: Event) -> ReleasePhase {
        match (self, event) {
            (ReleasePhase::Readers, Event::Count(_)) => ReleasePhase::Consumed,
            (ReleasePhase::Consumed, Event::Count(_)) => ReleasePhase::Notify,
            (ReleasePhase::Notify, Event::Done) => ReleasePhase::Finished,
            _ => self,
        }
    }

    pub fn action(self, idx: BufferIndex) -> (action: Option<Action>)
        ensures
            action == self.next_action(idx),
    {
        match self {
            ReleasePhase::Readers => Some(Action::Decrease(Counter::Readers(idx))),
            ReleasePhase::Consumed => Some(Action::Increase(Counter::Consumed(idx))),
            ReleasePhase::Notify => Some(Action::Notify(Channel::ReaderDone)),
            ReleasePhase::Finished => None,
        }
    }

    pub fn resumed(self, event: Event) -> (phase: ReleasePhase)
        ensures
            phase == self.after(event),
    {
        match (self, event) {
            (ReleasePhase::Readers, Event::Count(_)) => ReleasePhase::Consumed,
            (ReleasePhase::Consumed, Event::Count(_)) => ReleasePhase::Notify,
            (ReleasePhase::Notify, Event::Done) => ReleasePhase::Finished,
            (phase, _) => phase,
        }
    }
}

/// A reader that is done with the buffer it holds.
#[derive(Clone, Copy, PartialEq, Eq, Structural, Debug)]
pub struct ReleaseOperation {
    pub buffer_idx: BufferIndex,
    pub phase: ReleasePhase,
}

impl ReleaseOperation {
    pub open spec fn next_action(self) -> Option<Action> {
        self.phase.next_action(self.buffer_idx)
    }

    pub open spec fn after(self, event: Event) -> ReleaseOperation {
        ReleaseOperation { phase: self.phase.after(event), ..self }
    }

    pub fn new(buffer_idx: BufferIndex) -> (op: Self)
        ensures
            op == (ReleaseOperation { buffer_idx, phase: ReleasePhase::Readers }),
    {
        ReleaseOperation { buffer_idx, phase: ReleasePhase::Readers }
    }

    pub fn action(&self) -> (action: Option<Action>)
        ensures
            action == self.next_action(),
    {
        self.phase.action(self.buffer_idx)
    }

    pub fn resume(&mut self, event: Event)
        ensures
            *final(self) == old(self).after(event),
    {
        self.phase = self.phase.resumed(event);
    }
}

/// How far a read has come.
#[derive(Clone, Copy, PartialEq, Eq, Structural, Debug)]
pub enum ReadPhase {
    Observe,
    /// Sleep until there is new data, or a stop.
    Doze,
    Sleep { ticket: u32 },
    /// Register as a reader before the buffer is looked at.
    Register { buffer_idx: BufferIndex, sequence: u64 },
    /// See whether the latest buffer changed meanwhile.
    Verify { buffer_idx: BufferIndex, sequence: u64 },
    /// It changed: give the buffer back and start over.
    Withdraw { buffer_idx: BufferIndex, release: ReleasePhase },
    /// The buffer is held.
    Holding { buffer_idx: BufferIndex, sequence: u64 },
    /// There is nothing to read.
    Nothing,
}

/// A reader that wants a message other than the one it has seen last.
#[derive(Clone, Copy, PartialEq, Eq, Structural, Debug)]
pub struct ReadOperation {
    pub last_seen: u64,
    pub block: bool,
    pub phase: ReadPhase,
}

impl ReadOperation {
    pub open spec fn next_action(self) -> Option<Action> {
        match self.phase {
            ReadPhase::Observe | ReadPhase::Verify { .. } => Some(Action::LoadSequence),
            ReadPhase::Doze => Some(Action::LoadTicket(Channel::Writer)),
            ReadPhase::Sleep { ticket } => Some(
                Action::Sleep { channel: Channel::Writer, ticket },
            ),
            ReadPhase::Register { buffer_idx, .. } => Some(
                Action::Increase(Counter::Readers(buffer_idx)),
            ),
            ReadPhase::Withdraw { buffer_idx, release } => release.next_action(buffer_idx),
            ReadPhase::Holding { .. } | ReadPhase::Nothing => None,
        }
    }

    /// Where a reader goes that sees the sequence state `state`.
    pub open spec fn observed(self, state: SequenceState) -> ReadPhase {
        if state.sequence != self.last_seen {
            ReadPhase::Register { buffer_idx: state.buffer_idx, sequence: state.sequence }
        } else if state.stopped || !self.block {
            ReadPhase::Nothing
        } else {
            ReadPhase::Doze
        }
    }

    pub open spec fn phase_after(self, event: Event) -> ReadPhase {
        match (self.phase, event) {
            (ReadPhase::Observe, Event::Word(word)) => self.observed(
                SequenceState::unpacked(word),
            ),
            (ReadPhase::Doze, Event::Ticket(ticket)) => ReadPhase::Sleep { ticket },
            (ReadPhase::Sleep { .. }, Event::Done) => ReadPhase::Observe,
            (ReadPhase::Register { buffer_idx, sequence }, Event::Count(_)) => ReadPhase::Verify {
                buffer_idx,
                sequence,
            },
            (ReadPhase::Verify { buffer_idx, sequence }, Event::Word(word)) =>
            if SequenceState::unpacked(word).buffer_idx != buffer_idx {
                ReadPhase::Withdraw { buffer_idx, release: ReleasePhase::Readers }
            } else {
                ReadPhase::Holding { buffer_idx, sequence }
            },
            (ReadPhase::Withdraw { buffer_idx, release }, _) => match release.after(event) {
                ReleasePhase::Finished => ReadPhase::Observe,
                release => ReadPhase::Withdraw { buffer_idx, release },
            },
            _ => self.phase,
        }
    }

    pub open spec fn after(self, event: Event) -> ReadOperation {
        ReadOperation { phase: self.phase_after(event), ..self }
    }

    pub fn new(last_seen: u64, block: bool) -> (op: Self)
        ensures
            op == (ReadOperation { last_seen, block, phase: ReadPhase::Observe }),
    {
        ReadOperation { last_seen, block, phase: ReadPhase::Observe }
    }

    /// The next access; `None` once the read is finished.
    pub fn action(&self) -> (action: Option<Action>)
        ensures
            action == self.next_action(),
    {
        match self.phase {
            ReadPhase::Observe => Some(Action::LoadSequence),
            ReadPhase::Doze => Some(Action::LoadTicket(Channel::Writer)),
            ReadPhase::Sleep { ticket } => Some(
                Action::Sleep { channel: Channel::Writer, ticket },
            ),
            ReadPhase::Register { buffer_idx, .. } => Some(
                Action::Increase(Counter::Readers(buffer_idx)),
            ),
            ReadPhase::Verify { .. } => Some(Action::LoadSequence),
            ReadPhase::Withdraw { buffer_idx, release } => release.action(buffer_idx),
            ReadPhase::Holding { .. } => None,
            ReadPhase::Nothing => None,
        }
    }

    fn observe(&self, word: u64) -> (phase: ReadPhase)
        ensures
            phase == self.observed(SequenceState::unpacked(word)),
    {
        let state = SequenceState::from(word);
        if state.stopped && state.sequence == self.last_seen {
            return ReadPhase::Nothing;
        }
        // See whether there is new data.
        if state.sequence == self.last_seen {
            if !self.block {
                return ReadPhase::Nothing;
            }
            return ReadPhase::Doze;
        }
        ReadPhase::Register { buffer_idx: state.buffer_idx, sequence: state.sequence }
    }

    /// Takes the result of the access.
    pub fn resume(&mut self, event: Event)
        ensures
            *final(self) == old(self).after(event),
    {
        let phase = match (self.phase, event) {
            (ReadPhase::Observe, Event::Word(word)) => self.observe(word),
            (ReadPhase::Doze, Event::Ticket(ticket)) => ReadPhase::Sleep { ticket },
            (ReadPhase::Sleep { .. }, Event::Done) => ReadPhase::Observe,
            (ReadPhase::Register { buffer_idx, sequence }, Event::Count(_)) => ReadPhase::Verify {
                buffer_idx,
                sequence,
            },
            (ReadPhase::Verify { buffer_idx, sequence }, Event::Word(word)) => {
                if SequenceState::from(word).buffer_idx != buffer_idx {
                    ReadPhase::Withdraw { buffer_idx, release: ReleasePhase::Readers }
                } else {
                    ReadPhase::Holding { buffer_idx, sequence }
                }
            },
            (ReadPhase::Withdraw { buffer_idx, release }, _) => {
                match release.resumed(event) {
                    ReleasePhase::Finished => ReadPhase::Observe,
                    release => ReadPhase::Withdraw { buffer_idx, release },
                }
            },
            (phase, _) => phase,
        };
        self.phase = phase;
    }
}

/// How far a writer has come that wants a buffer.
#[derive(Clone, Copy, PartialEq, Eq, Structural, Debug)]
pub enum AcquirePhase {
    CheckStopped,
    Locking(LockOperation),
    /// Find the buffer without the latest data.
    State,
    /// Wait for readers that still hold it.
    Readers { buffer_idx: BufferIndex },
    Stopped { buffer_idx: BufferIndex },
    Doze { buffer_idx: BufferIndex },
    Sleep { buffer_idx: BufferIndex, ticket: u32 },
    Unlock,
    /// The buffer that may be written; `None` if the message is stopped.
    Finished(Option<BufferIndex>),
}

/// A writer that wants a buffer.
#[derive(Clone, Copy, PartialEq, Eq, Structural, Debug)]
pub struct AcquireBuffer {
    pub phase: AcquirePhase,
}

impl AcquireBuffer {
    pub open spec fn next_action(self) -> Option<Action> {
        match self.phase {
            AcquirePhase::CheckStopped | AcquirePhase::State => Some(Action::LoadSequence),
            AcquirePhase::Stopped { .. } => Some(Action::LoadSequence),
            AcquirePhase::Locking(lock) => match lock.next_action() {
                Some(action) => Some(Action::Lock(action)),
                None => None,
            },
            AcquirePhase::Readers { buffer_idx } => Some(
                Action::Load(Counter::Readers(buffer_idx)),
            ),
            AcquirePhase::Doze { .. } => Some(Action::LoadTicket(Channel::ReaderDone)),
            AcquirePhase::Sleep { ticket, .. } => Some(
                Action::Sleep { channel: Channel::ReaderDone, ticket },
            ),
            AcquirePhase::Unlock => Some(Action::Unlock),
            AcquirePhase::Finished(_) => None,
        }
    }

    pub open spec fn after(self, event: Event) -> AcquireBuffer {
        AcquireBuffer {
            phase: match (self.phase, event) {
                (AcquirePhase::CheckStopped, Event::Word(word)) => if SequenceState::unpacked(
                    word,
                ).stopped {
                    AcquirePhase::Finished(None)
                } else {
                    AcquirePhase::Locking(LockOperation::Fast)
                },
                (AcquirePhase::Locking(lock), Event::Lock(found)) => if lock.after(found)
                    == LockOperation::Held {
                    AcquirePhase::State
                } else {
                    AcquirePhase::Locking(lock.after(found))
                },
                (AcquirePhase::State, Event::Word(word)) => AcquirePhase::Readers {
                    buffer_idx: !SequenceState::unpacked(word).buffer_idx,
                },
                (AcquirePhase::Readers { buffer_idx }, Event::Count(readers)) => if readers > 0 {
                    AcquirePhase::Stopped { buffer_idx }
                } else {
                    AcquirePhase::Finished(Some(buffer_idx))
                },
                (AcquirePhase::Stopped { buffer_idx }, Event::Word(word)) =>
                if SequenceState::unpacked(word).stopped {
                    AcquirePhase::Unlock
                } else {
                    AcquirePhase::Doze { buffer_idx }
                },
                (AcquirePhase::Doze { buffer_idx }, Event::Ticket(ticket)) => AcquirePhase::Sleep {
                    buffer_idx,
                    ticket,
                },
                (AcquirePhase::Sleep { buffer_idx, .. }, Event::Done) => AcquirePhase::Readers {
                    buffer_idx,
                },
                (AcquirePhase::Unlock, Event::Done) => AcquirePhase::Finished(None),
                _ => self.phase,
            },
        }
    }

    pub fn new() -> (op: Self)
        ensures
            op.phase == AcquirePhase::CheckStopped,
    {
        AcquireBuffer { phase: AcquirePhase::CheckStopped }
    }

    /// The next access; `None` once it is known which buffer may be written.
    pub fn action(&self) -> (action: Option<Action>)
        ensures
            action == self.next_action(),
    {
        match self.phase {
            AcquirePhase::CheckStopped => Some(Action::LoadSequence),
            AcquirePhase::Locking(lock) => {
                match lock.action() {
                    Some(action) => Some(Action::Lock(action)),
                    None => None,
                }
            },
            AcquirePhase::State => Some(Action::LoadSequence),
            AcquirePhase::Readers { buffer_idx } => Some(
                Action::Load(Counter::Readers(buffer_idx)),
            ),
            AcquirePhase::Stopped { .. } => Some(Action::LoadSequence),
            AcquirePhase::Doze { .. } => Some(Action::LoadTicket(Channel::ReaderDone)),
            AcquirePhase::Sleep { ticket, .. } => Some(
                Action::Sleep { channel: Channel::ReaderDone, ticket },
            ),
            AcquirePhase::Unlock => Some(Action::Unlock),
            AcquirePhase::Finished(_) => None,
        }
    }

    /// Takes the result of the access.
    pub fn resume(&mut self, event: Event)
        ensures
            *final(self) == old(self).after(event),
    {
        let phase = match (self.phase, event) {
            (AcquirePhase::CheckStopped, Event::Word(word)) => {
                if SequenceState::from(word).stopped {
                    AcquirePhase::Finished(None)
                } else {
                    AcquirePhase::Locking(LockOperation::Fast)
                }
            },
            (AcquirePhase::Locking(mut lock), Event::Lock(found)) => {
                lock.resume(found);
                if lock == LockOperation::Held {
                    AcquirePhase::State
                } else {
                    AcquirePhase::Locking(lock)
                }
            },
            (AcquirePhase::State, Event::Word(word)) => AcquirePhase::Readers {
                buffer_idx: !SequenceState::from(word).buffer_idx,
            },
            (AcquirePhase::Readers { buffer_idx }, Event::Count(readers)) => {
                if readers > 0 {
                    AcquirePhase::Stopped { buffer_idx }
                } else {
                    AcquirePhase::Finished(Some(buffer_idx))
                }
            },
            (AcquirePhase::Stopped { buffer_idx }, Event::Word(word)) => {
                if SequenceState::from(word).stopped {
                    AcquirePhase::Unlock
                } else {
                    AcquirePhase::Doze { buffer_idx }
                }
            },
            (AcquirePhase::Doze { buffer_idx }, Event::Ticket(ticket)) => AcquirePhase::Sleep {
                buffer_idx,
                ticket,
            },
            (AcquirePhase::Sleep { buffer_idx, .. }, Event::Done) => AcquirePhase::Readers {
                buffer_idx,
            },
            (AcquirePhase::Unlock, Event::Done) => AcquirePhase::Finished(None),
            (phase, _) => phase,
        };
        self.phase = phase;
    }
}

/// How far the publication of a buffer has come.
#[derive(Clone, Copy, PartialEq, Eq, Structural, Debug)]
pub enum PublishPhase {
    State,
    Target { latest: BufferIndex, sequence: u64 },
    Consumers { latest: BufferIndex, sequence: u64, target: u16 },
    /// The latest message should be consumed by `target` readers first.
    Consumed { latest: BufferIndex, target: u16 },
    Stopped { latest: BufferIndex, target: u16 },
    Doze { latest: BufferIndex, target: u16 },
    Sleep { latest: BufferIndex, target: u16, ticket: u32 },
    StoreSize,
    ResetConsumed,
    Sequence,
    Swap { expected: u64, new: u64 },
    Notify { sequence: u64 },
    Unlock(Option<u64>),
    /// The new sequence, or that the message was stopped.
    Finished(Option<u64>),
}

/// A writer that has written `size` bytes into a buffer and makes them the
/// latest message.
#[derive(Clone, Copy, PartialEq, Eq, Structural, Debug)]
pub struct Publish {
    pub buffer_idx: BufferIndex,
    pub size: usize,
    pub phase: PublishPhase,
}

impl Publish {
    pub open spec fn next_action(self) -> Option<Action> {
        match self.phase {
            PublishPhase::State | PublishPhase::Sequence => Some(Action::LoadSequence),
            PublishPhase::Stopped { .. } => Some(Action::LoadSequence),
            PublishPhase::Target { .. } => Some(Action::Load(Counter::Target)),
            PublishPhase::Consumers { .. } => Some(Action::Load(Counter::Consumers)),
            PublishPhase::Consumed { latest, .. } => Some(Action::Load(Counter::Consumed(latest))),
            PublishPhase::Doze { .. } => Some(Action::LoadTicket(Channel::ReaderDone)),
            PublishPhase::Sleep { ticket, .. } => Some(
                Action::Sleep { channel: Channel::ReaderDone, ticket },
            ),
            PublishPhase::StoreSize => Some(Action::StoreSize(self.buffer_idx, self.size)),
            PublishPhase::ResetConsumed => Some(
                Action::Store(Counter::Consumed(self.buffer_idx), 0),
            ),
            PublishPhase::Swap { expected, new } => Some(Action::SwapSequence { expected, new }),
            PublishPhase::Notify { .. } => Some(Action::Notify(Channel::Writer)),
            PublishPhase::Unlock(_) => Some(Action::Unlock),
            PublishPhase::Finished(_) => None,
        }
    }

    /// Where a publication goes that sees the sequence word holding `word`.
    pub open spec fn seen(self, word: u64) -> PublishPhase {
        let state = SequenceState::unpacked(word);
        if state.stopped {
            PublishPhase::Unlock(None)
        } else {
            PublishPhase::Swap {
                expected: word,
                new: SequenceState {
                    sequence: sequence_after(state.sequence),
                    stopped: false,
                    buffer_idx: self.buffer_idx,
                }.packed(),
            }
        }
    }

    pub open spec fn after(self, event: Event) -> Publish {
        Publish {
            phase: match (self.phase, event) {
                (PublishPhase::State, Event::Word(word)) => {
                    let state = SequenceState::unpacked(word);
                    PublishPhase::Target { latest: state.buffer_idx, sequence: state.sequence }
                },
                (PublishPhase::Target { latest, sequence }, Event::Count(target)) =>
                PublishPhase::Consumers { latest, sequence, target },
                // Only a previous message has to be consumed.
                (PublishPhase::Consumers { latest, sequence, target }, Event::Count(consumers)) =>
                if smaller(target, consumers) > 0 && sequence > 0 {
                    PublishPhase::Consumed { latest, target: smaller(target, consumers) }
                } else {
                    PublishPhase::StoreSize
                },
                (PublishPhase::Consumed { latest, target }, Event::Count(consumed)) => if consumed
                    < target {
                    PublishPhase::Stopped { latest, target }
                } else {
                    PublishPhase::StoreSize
                },
                (PublishPhase::Stopped { latest, target }, Event::Word(word)) =>
                if SequenceState::unpacked(word).stopped {
                    PublishPhase::Unlock(None)
                } else {
                    PublishPhase::Doze { latest, target }
                },
                (PublishPhase::Doze { latest, target }, Event::Ticket(ticket)) =>
                PublishPhase::Sleep { latest, target, ticket },
                (PublishPhase::Sleep { latest, target, .. }, Event::Done) =>
                PublishPhase::Consumed { latest, target },
                (PublishPhase::StoreSize, Event::Done) => PublishPhase::ResetConsumed,
                (PublishPhase::ResetConsumed, Event::Done) => PublishPhase::Sequence,
                (PublishPhase::Sequence, Event::Word(word)) => self.seen(word),
                (PublishPhase::Swap { new, .. }, Event::Swapped { done, .. }) => if done {
                    PublishPhase::Notify { sequence: SequenceState::unpacked(new).sequence }
                } else {
                    PublishPhase::Sequence
                },
                (PublishPhase::Notify { sequence }, Event::Done) => PublishPhase::Unlock(
                    Some(sequence),
                ),
                (PublishPhase::Unlock(sequence), Event::Done) => PublishPhase::Finished(sequence),
                _ => self.phase,
            },
            ..self
        }
    }

    pub fn new(buffer_idx: BufferIndex, size: usize) -> (op: Self)
        ensures
            op == (Publish { buffer_idx, size, phase: PublishPhase::State }),
    {
        Publish { buffer_idx, size, phase: PublishPhase::State }
    }

    /// The next access; `None` once the publication is over.
    pub fn action(&self) -> (action: Option<Action>)
        ensures
            action == self.next_action(),
    {
        match self.phase {
            PublishPhase::State => Some(Action::LoadSequence),
            PublishPhase::Target { .. } => Some(Action::Load(Counter::Target)),
            PublishPhase::Consumers { .. } => Some(Action::Load(Counter::Consumers)),
            PublishPhase::Consumed { latest, .. } => Some(Action::Load(Counter::Consumed(latest))),
            PublishPhase::Stopped { .. } => Some(Action::LoadSequence),
            PublishPhase::Doze { .. } => Some(Action::LoadTicket(Channel::ReaderDone)),
            PublishPhase::Sleep { ticket, .. } => Some(
                Action::Sleep { channel: Channel::ReaderDone, ticket },
            ),
            PublishPhase::StoreSize => Some(Action::StoreSize(self.buffer_idx, self.size)),
            PublishPhase::ResetConsumed => Some(
                Action::Store(Counter::Consumed(self.buffer_idx), 0),
            ),
            PublishPhase::Sequence => Some(Action::LoadSequence),
            PublishPhase::Swap { expected, new } => Some(Action::SwapSequence { expected, new }),
            PublishPhase::Notify { .. } => Some(Action::Notify(Channel::Writer)),
            PublishPhase::Unlock(_) => Some(Action::Unlock),
            PublishPhase::Finished(_) => None,
        }
    }

    fn see(&self, word: u64) -> (phase: PublishPhase)
        ensures
            phase == self.seen(word),
    {
        let state = SequenceState::from(word);
        // The message may have been stopped while the buffer was written.
        if state.stopped {
            return PublishPhase::Unlock(None);
        }
        let new = SequenceState {
            sequence: next_sequence(state.sequence),
            stopped: state.stopped,
            buffer_idx: self.buffer_idx,
        };
        PublishPhase::Swap { expected: word, new: new.to_packed() }
    }

    /// Takes the result of the access.
    pub fn resume(&mut self, event: Event)
        ensures
            *final(self) == old(self).after(event),
    {
        let phase = match (self.phase, event) {
            (PublishPhase::State, Event::Word(word)) => {
                let state = SequenceState::from(word);
                PublishPhase::Target { latest: state.buffer_idx, sequence: state.sequence }
            },
            (PublishPhase::Target { latest, sequence }, Event::Count(target)) =>
            PublishPhase::Consumers { latest, sequence, target },
            (PublishPhase::Consumers { latest, sequence, target }, Event::Count(consumers)) => {
                let target_count: u16 = if target <= consumers { target } else { consumers };
                if target_count > 0 && sequence > 0 {
                    PublishPhase::Consumed { latest, target: target_count }
                } else {
                    PublishPhase::StoreSize
                }
            },
            (PublishPhase::Consumed { latest, target }, Event::Count(consumed)) => {
                if consumed < target {
                    PublishPhase::Stopped { latest, target }
                } else {
                    PublishPhase::StoreSize
                }
            },
            (PublishPhase::Stopped { latest, target }, Event::Word(word)) => {
                if SequenceState::from(word).stopped {
                    PublishPhase::Unlock(None)
                } else {
                    PublishPhase::Doze { latest, target }
                }
            },
            (PublishPhase::Doze { latest, target }, Event::Ticket(ticket)) => PublishPhase::Sleep {
                latest,
                target,
                ticket,
            },
            (PublishPhase::Sleep { latest, target, .. }, Event::Done) => PublishPhase::Consumed {
                latest,
                target,
            },
            (PublishPhase::StoreSize, Event::Done) => PublishPhase::ResetConsumed,
            (PublishPhase::ResetConsumed, Event::Done) => PublishPhase::Sequence,
            (PublishPhase::Sequence, Event::Word(word)) => self.see(word),
            (PublishPhase::Swap { expected: _, new }, Event::Swapped { done, .. }) => {
                if done {
                    PublishPhase::Notify { sequence: SequenceState::from(new).sequence }
                } else {
                    PublishPhase::Sequence
                }
            },
            (PublishPhase::Notify { sequence }, Event::Done) => PublishPhase::Unlock(
                Some(sequence),
            ),
            (PublishPhase::Unlock(sequence), Event::Done) => PublishPhase::Finished(sequence),
            (phase, _) => phase,
        };
        self.phase = phase;
    }
}

} // verus!
