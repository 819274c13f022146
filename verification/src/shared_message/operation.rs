//! What readers and writers of a message do, one access at a time.
//!
//! An operation says which access to the shared memory comes next and takes
//! its result. Whoever runs it makes the access, on a message of its own or on
//! memory that other processes use at the same time, and runs any number of
//! operations side by side.
use crate::primitives::shared_futex::LockAction;
use crate::shared_message::packed::{ReadersStateCount, SequenceState};
use vstd::prelude::*;

verus! {

/// The two condition variables of a message.
#[derive(Clone, Copy, PartialEq, Eq, Structural, Debug)]
pub enum Channel {
    /// Readers wait here for new data.
    Writer,
    /// The writer waits here for readers to finish.
    ReaderDone,
}

/// One access to the shared memory of a message.
#[derive(Clone, Copy, PartialEq, Eq, Structural, Debug)]
pub enum Action {
    LoadSequence,
    LoadReaders,
    LoadTicket(Channel),
    /// Change the sequence word if it holds `expected`.
    SwapSequence { expected: u64, new: u64 },
    /// Change the readers word if it holds `expected`.
    SwapReaders { expected: u64, new: u64 },
    SetWriting,
    ClearWriting,
    SetStopped,
    StoreSize(usize),
    /// An access to the writer lock.
    Lock(LockAction),
    Unlock,
    /// Count a notification and wake all sleepers.
    Notify(Channel),
    /// Sleep while the condition variable holds the ticket.
    Sleep { channel: Channel, ticket: u32 },
}

/// The result of an access.
#[derive(Clone, Copy, PartialEq, Eq, Structural, Debug)]
pub enum Event {
    Word(u64),
    Ticket(u32),
    /// Whether the word was changed, and what it held.
    Swapped { done: bool, found: u64 },
    /// What the lock word held.
    Lock(u32),
    Done,
}

/// A change of the reader counters.
#[derive(Clone, Copy, PartialEq, Eq, Structural, Debug)]
pub enum ReaderChange {
    /// A reader is about to hold the message.
    Register,
    /// A reader could not hold the message after all.
    Withdraw,
    /// A reader is done with the message.
    Release,
    /// A new message was written.
    ResetConsumed,
    SetTarget(u16),
    AddConsumer,
    RemoveConsumer,
}

impl ReadersStateCount {
    /// The counters after a change; `None` where a counter would leave its
    /// range.
    pub open spec fn changed(self, change: ReaderChange) -> Option<ReadersStateCount> {
        match change {
            ReaderChange::Register => if self.active_readers < u16::MAX {
                Some(
                    ReadersStateCount { active_readers: (self.active_readers + 1) as u16, ..self },
                )
            } else {
                None
            },
            ReaderChange::Withdraw => if self.active_readers > 0 {
                Some(
                    ReadersStateCount { active_readers: (self.active_readers - 1) as u16, ..self },
                )
            } else {
                None
            },
            ReaderChange::Release => if self.active_readers > 0 && self.data_consumed < u16::MAX {
                Some(
                    ReadersStateCount {
                        active_readers: (self.active_readers - 1) as u16,
                        data_consumed: (self.data_consumed + 1) as u16,
                        ..self
                    },
                )
            } else {
                None
            },
            ReaderChange::ResetConsumed => Some(ReadersStateCount { data_consumed: 0, ..self }),
            ReaderChange::SetTarget(count) => Some(
                ReadersStateCount { target_read: count, ..self },
            ),
            ReaderChange::AddConsumer => if self.consumers < u16::MAX {
                Some(ReadersStateCount { consumers: (self.consumers + 1) as u16, ..self })
            } else {
                None
            },
            ReaderChange::RemoveConsumer => if self.consumers > 0 {
                Some(ReadersStateCount { consumers: (self.consumers - 1) as u16, ..self })
            } else {
                None
            },
        }
    }

    /// Makes a change of the counters, if they stay in range.
    pub fn change(self, change: ReaderChange) -> (after: Option<ReadersStateCount>)
        ensures
            after == self.changed(change),
    {
        let mut state = self;
        match change {
            ReaderChange::Register => {
                if state.active_readers == u16::MAX {
                    return None;
                }
                state.active_readers = state.active_readers + 1;
            },
            ReaderChange::Withdraw => {
                if state.active_readers == 0 {
                    return None;
                }
                state.active_readers = state.active_readers - 1;
            },
            ReaderChange::Release => {
                if state.active_readers == 0 || state.data_consumed == u16::MAX {
                    return None;
                }
                state.active_readers = state.active_readers - 1;
                state.data_consumed = state.data_consumed + 1;
            },
            ReaderChange::ResetConsumed => {
                state.data_consumed = 0;
            },
            ReaderChange::SetTarget(count) => {
                state.target_read = count;
            },
            ReaderChange::AddConsumer => {
                if state.consumers == u16::MAX {
                    return None;
                }
                state.consumers = state.consumers + 1;
            },
            ReaderChange::RemoveConsumer => {
                if state.consumers == 0 {
                    return None;
                }
                state.consumers = state.consumers - 1;
            },
        }
        Some(state)
    }
}

/// How far a change of the readers word has come.
#[derive(Clone, Copy, PartialEq, Eq, Structural, Debug)]
pub enum UpdatePhase {
    Load,
    Swap { expected: u64, new: u64 },
    Finished,
    /// A counter would have left its range; the word is as it was.
    Fault,
}

impl UpdatePhase {
    /// Where a change goes that has seen the readers word holding `word`.
    pub open spec fn seen(change: ReaderChange, word: u64) -> UpdatePhase {
        match ReadersStateCount::unpacked(word).changed(change) {
            Some(counts) => if counts.packed() == word {
                UpdatePhase::Finished
            } else {
                UpdatePhase::Swap { expected: word, new: counts.packed() }
            },
            None => UpdatePhase::Fault,
        }
    }

    pub open spec fn next_action(self) -> Option<Action> {
        match self {
            UpdatePhase::Load => Some(Action::LoadReaders),
            UpdatePhase::Swap { expected, new } => Some(Action::SwapReaders { expected, new }),
            UpdatePhase::Finished | UpdatePhase::Fault => None,
        }
    }

    /// Where a change goes on a result of its access. A result of another kind
    /// leaves it where it is.
    pub open spec fn after(self, change: ReaderChange, event: Event) -> UpdatePhase {
        match (self, event) {
            (UpdatePhase::Load, Event::Word(word)) => UpdatePhase::seen(change, word),
            (UpdatePhase::Swap { .. }, Event::Swapped { done, found }) => if done {
                UpdatePhase::Finished
            } else {
                UpdatePhase::seen(change, found)
            },
            _ => self,
        }
    }

    fn see(change: ReaderChange, word: u64) -> (phase: UpdatePhase)
        ensures
            phase == UpdatePhase::seen(change, word),
    {
        match ReadersStateCount::from(word).change(change) {
            Some(counts) => {
                let new: u64 = counts.to_packed();
                if new == word {
                    UpdatePhase::Finished
                } else {
                    UpdatePhase::Swap { expected: word, new }
                }
            },
            None => UpdatePhase::Fault,
        }
    }

    pub fn action(self) -> (action: Option<Action>)
        ensures
            action == self.next_action(),
    {
        match self {
            UpdatePhase::Load => Some(Action::LoadReaders),
            UpdatePhase::Swap { expected, new } => Some(Action::SwapReaders { expected, new }),
            UpdatePhase::Finished => None,
            UpdatePhase::Fault => None,
        }
    }

    pub fn resumed(self, change: ReaderChange, event: Event) -> (phase: UpdatePhase)
        ensures
            phase == self.after(change, event),
    {
        match (self, event) {
            (UpdatePhase::Load, Event::Word(word)) => Self::see(change, word),
            (UpdatePhase::Swap { .. }, Event::Swapped { done, found }) => {
                if done {
                    UpdatePhase::Finished
                } else {
                    Self::see(change, found)
                }
            },
            (phase, _) => phase,
        }
    }
}

/// A change of the reader counters: the readers word is read, the change is
/// computed, and the word is swapped unless it has changed meanwhile, in which
/// case the change is computed anew.
#[derive(Clone, Copy, PartialEq, Eq, Structural, Debug)]
pub struct UpdateOperation {
    pub change: ReaderChange,
    pub phase: UpdatePhase,
}

impl UpdateOperation {
    pub open spec fn after(self, event: Event) -> UpdateOperation {
        UpdateOperation { phase: self.phase.after(self.change, event), ..self }
    }

    pub fn new(change: ReaderChange) -> (op: Self)
        ensures
            op == (UpdateOperation { change, phase: UpdatePhase::Load }),
    {
        UpdateOperation { change, phase: UpdatePhase::Load }
    }

    pub fn action(&self) -> (action: Option<Action>)
        ensures
            action == self.phase.next_action(),
    {
        self.phase.action()
    }

    pub fn resume(&mut self, event: Event)
        ensures
            *final(self) == old(self).after(event),
    {
        self.phase = self.phase.resumed(self.change, event);
    }
}

/// How far a read has come.
#[derive(Clone, Copy, PartialEq, Eq, Structural, Debug)]
pub enum ReadPhase {
    Ticket,
    Observe { ticket: u32 },
    /// Sleep until there is new data, the writer is done, or a stop.
    Sleep { ticket: u32 },
    /// Register as a reader before the data is looked at.
    Register { sequence: u64, update: UpdatePhase },
    /// See whether the message changed meanwhile.
    Verify { sequence: u64 },
    /// It changed: take the registration back and start over.
    Withdraw { update: UpdatePhase },
    Notify,
    /// The message with this sequence is held, or there is none to read.
    Finished(Option<u64>),
    Fault,
}

/// A reader that wants a message other than the one it has seen last.
#[derive(Clone, Copy, PartialEq, Eq, Structural, Debug)]
pub struct ReadOperation {
    pub last_seen: u64,
    pub block: bool,
    pub phase: ReadPhase,
}

impl ReadOperation {
    pub open spec fn next_action(self) -> Option<Action> {
        match self.phase {
            ReadPhase::Ticket => Some(Action::LoadTicket(Channel::Writer)),
            ReadPhase::Observe { .. } => Some(Action::LoadSequence),
            ReadPhase::Sleep { ticket } => Some(
                Action::Sleep { channel: Channel::Writer, ticket },
            ),
            ReadPhase::Register { update, .. } => update.next_action(),
            ReadPhase::Verify { .. } => Some(Action::LoadSequence),
            ReadPhase::Withdraw { update } => update.next_action(),
            ReadPhase::Notify => Some(Action::Notify(Channel::ReaderDone)),
            ReadPhase::Finished(_) | ReadPhase::Fault => None,
        }
    }

    /// Where a reader goes that sees the sequence state `state`.
    pub open spec fn observed(self, state: SequenceState, ticket: u32) -> ReadPhase {
        if state.sequence == self.last_seen && (state.stopped || !self.block) {
            ReadPhase::Finished(None)
        } else if state.sequence == self.last_seen || state.writing_in_progress {
            ReadPhase::Sleep { ticket }
        } else {
            ReadPhase::Register { sequence: state.sequence, update: UpdatePhase::Load }
        }
    }

    pub open spec fn phase_after(self, event: Event) -> ReadPhase {
        match (self.phase, event) {
            (ReadPhase::Ticket, Event::Ticket(ticket)) => ReadPhase::Observe { ticket },
            (ReadPhase::Observe { ticket }, Event::Word(word)) => self.observed(
                SequenceState::unpacked(word),
                ticket,
            ),
            (ReadPhase::Sleep { .. }, Event::Done) => ReadPhase::Ticket,
            (ReadPhase::Register { sequence, update }, _) => match update.after(
                ReaderChange::Register,
                event,
            ) {
                UpdatePhase::Finished => ReadPhase::Verify { sequence },
                UpdatePhase::Fault => ReadPhase::Fault,
                update => ReadPhase::Register { sequence, update },
            },
            (ReadPhase::Verify { sequence }, Event::Word(word)) => {
                let state = SequenceState::unpacked(word);
                if state.writing_in_progress || state.sequence != sequence {
                    ReadPhase::Withdraw { update: UpdatePhase::Load }
                } else {
                    ReadPhase::Finished(Some(sequence))
                }
            },
            (ReadPhase::Withdraw { update }, _) => match update.after(
                ReaderChange::Withdraw,
                event,
            ) {
                UpdatePhase::Finished => ReadPhase::Notify,
                UpdatePhase::Fault => ReadPhase::Fault,
                update => ReadPhase::Withdraw { update },
            },
            (ReadPhase::Notify, Event::Done) => ReadPhase::Ticket,
            _ => self.phase,
        }
    }

    pub open spec fn after(self, event: Event) -> ReadOperation {
        ReadOperation { phase: self.phase_after(event), ..self }
    }

    pub fn new(last_seen: u64, block: bool) -> (op: Self)
        ensures
            op == (ReadOperation { last_seen, block, phase: ReadPhase::Ticket }),
    {
        ReadOperation { last_seen, block, phase: ReadPhase::Ticket }
    }

    /// The next access; `None` once the read is finished.
    pub fn action(&self) -> (action: Option<Action>)
        ensures
            action == self.next_action(),
    {
        match self.phase {
            ReadPhase::Ticket => Some(Action::LoadTicket(Channel::Writer)),
            ReadPhase::Observe { .. } => Some(Action::LoadSequence),
            ReadPhase::Sleep { ticket } => Some(
                Action::Sleep { channel: Channel::Writer, ticket },
            ),
            ReadPhase::Register { update, .. } => update.action(),
            ReadPhase::Verify { .. } => Some(Action::LoadSequence),
            ReadPhase::Withdraw { update } => update.action(),
            ReadPhase::Notify => Some(Action::Notify(Channel::ReaderDone)),
            ReadPhase::Finished(_) => None,
            ReadPhase::Fault => None,
        }
    }

    fn observe(&self, word: u64, ticket: u32) -> (phase: ReadPhase)
        ensures
            phase == self.observed(SequenceState::unpacked(word), ticket),
    {
        let state = SequenceState::from(word);
        if state.stopped && state.sequence == self.last_seen {
            return ReadPhase::Finished(None);
        }
        // See whether there is new data.
        if state.sequence == self.last_seen {
            if !self.block {
                return ReadPhase::Finished(None);
            }
            return ReadPhase::Sleep { ticket };
        }
        if state.writing_in_progress {
            return ReadPhase::Sleep { ticket };
        }
        ReadPhase::Register { sequence: state.sequence, update: UpdatePhase::Load }
    }

    /// Takes the result of the access.
    pub fn resume(&mut self, event: Event)
        ensures
            *final(self) == old(self).after(event),
    {
        let phase = match (self.phase, event) {
            (ReadPhase::Ticket, Event::Ticket(ticket)) => ReadPhase::Observe { ticket },
            (ReadPhase::Observe { ticket }, Event::Word(word)) => self.observe(word, ticket),
            (ReadPhase::Sleep { .. }, Event::Done) => ReadPhase::Ticket,
            (ReadPhase::Register { sequence, update }, _) => {
                match update.resumed(ReaderChange::Register, event) {
                    UpdatePhase::Finished => ReadPhase::Verify { sequence },
                    UpdatePhase::Fault => ReadPhase::Fault,
                    update => ReadPhase::Register { sequence, update },
                }
            },
            (ReadPhase::Verify { sequence }, Event::Word(word)) => {
                let state = SequenceState::from(word);
                if state.writing_in_progress || state.sequence != sequence {
                    ReadPhase::Withdraw { update: UpdatePhase::Load }
                } else {
                    ReadPhase::Finished(Some(sequence))
                }
            },
            (ReadPhase::Withdraw { update }, _) => {
                match update.resumed(ReaderChange::Withdraw, event) {
                    UpdatePhase::Finished => ReadPhase::Notify,
                    UpdatePhase::Fault => ReadPhase::Fault,
                    update => ReadPhase::Withdraw { update },
                }
            },
            (ReadPhase::Notify, Event::Done) => ReadPhase::Ticket,
            (phase, _) => phase,
        };
        self.phase = phase;
    }
}

/// How far the end of a read has come.
#[derive(Clone, Copy, PartialEq, Eq, Structural, Debug)]
pub enum ReleasePhase {
    Update(UpdatePhase),
    Notify,
    Finished,
    Fault,
}

/// A reader that is done with the message it holds.
#[derive(Clone, Copy, PartialEq, Eq, Structural, Debug)]
pub struct ReleaseOperation {
    pub phase: ReleasePhase,
}

impl ReleaseOperation {
    pub open spec fn next_action(self) -> Option<Action> {
        match self.phase {
            ReleasePhase::Update(update) => update.next_action(),
            ReleasePhase::Notify => Some(Action::Notify(Channel::ReaderDone)),
            ReleasePhase::Finished | ReleasePhase::Fault => None,
        }
    }

    pub open spec fn after(self, event: Event) -> ReleaseOperation {
        ReleaseOperation {
            phase: match (self.phase, event) {
                (ReleasePhase::Update(update), _) => match update.after(
                    ReaderChange::Release,
                    event,
                ) {
                    UpdatePhase::Finished => ReleasePhase::Notify,
                    UpdatePhase::Fault => ReleasePhase::Fault,
                    update => ReleasePhase::Update(update),
                },
                (ReleasePhase::Notify, Event::Done) => ReleasePhase::Finished,
                _ => self.phase,
            },
        }
    }

    pub fn new() -> (op: Self)
        ensures
            op.phase == ReleasePhase::Update(UpdatePhase::Load),
    {
        ReleaseOperation { phase: ReleasePhase::Update(UpdatePhase::Load) }
    }

    pub fn action(&self) -> (action: Option<Action>)
        ensures
            action == self.next_action(),
    {
        match self.phase {
            ReleasePhase::Update(update) => update.action(),
            ReleasePhase::Notify => Some(Action::Notify(Channel::ReaderDone)),
            ReleasePhase::Finished => None,
            ReleasePhase::Fault => None,
        }
    }

    pub fn resume(&mut self, event: Event)
        ensures
            *final(self) == old(self).after(event),
    {
        let phase = match (self.phase, event) {
            (ReleasePhase::Update(update), _) => {
                match update.resumed(ReaderChange::Release, event) {
                    UpdatePhase::Finished => ReleasePhase::Notify,
                    UpdatePhase::Fault => ReleasePhase::Fault,
                    update => ReleasePhase::Update(update),
                }
            },
            (ReleasePhase::Notify, Event::Done) => ReleasePhase::Finished,
            (phase, _) => phase,
        };
        self.phase = phase;
    }
}

} // verus!
