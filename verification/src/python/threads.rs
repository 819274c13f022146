//! What the background threads of a handle do: one reads all that comes into a
//! queue, one writes what is queued. Each does one thing at a time; the caller
//! does it and says what came of it.
use vstd::prelude::*;

verus! {

#[derive(Copy, Clone, Debug, PartialEq, Eq, Structural)]
pub enum ReaderAction {
    /// See whether the message is stopped.
    IsStopped,
    /// Wait for another message than `last_seen`, and copy it.
    Read { last_seen: u64 },
    /// Put the copy into the queue.
    Send,
}

#[derive(Copy, Clone, Debug, PartialEq, Eq, Structural)]
pub enum ReaderEvent {
    Stopped(bool),
    /// The sequence of the message that was read, if there was one.
    Message(Option<u64>),
    /// Whether the other side of the queue is there.
    Sent(bool),
}

#[derive(Copy, Clone, Debug, PartialEq, Eq, Structural)]
pub enum ReaderPhase {
    Check,
    Read,
    Send,
    Finished,
}

#[derive(Copy, Clone, Debug, PartialEq, Eq, Structural)]
pub struct ReaderThread {
    pub last_version: u64,
    pub phase: ReaderPhase,
}

impl ReaderThread {
    pub open spec fn next_action(self) -> Option<ReaderAction> {
        match self.phase {
            ReaderPhase::Check => Some(ReaderAction::IsStopped),
            ReaderPhase::Read => Some(ReaderAction::Read { last_seen: self.last_version }),
            ReaderPhase::Send => Some(ReaderAction::Send),
            ReaderPhase::Finished => None,
        }
    }

    pub open spec fn after(self, event: ReaderEvent) -> ReaderThread {
        match (self.phase, event) {
            (ReaderPhase::Check, ReaderEvent::Stopped(stopped)) => ReaderThread {
                phase: if stopped {
                    ReaderPhase::Finished
                } else {
                    ReaderPhase::Read
                },
                ..self
            },
            (ReaderPhase::Read, ReaderEvent::Message(None)) => ReaderThread {
                phase: ReaderPhase::Check,
                ..self
            },
            (ReaderPhase::Read, ReaderEvent::Message(Some(sequence))) => ReaderThread {
                last_version: sequence,
                phase: ReaderPhase::Send,
            },
            (ReaderPhase::Send, ReaderEvent::Sent(open)) => ReaderThread {
                phase: if open {
                    ReaderPhase::Check
                } else {
                    ReaderPhase::Finished
                },
                ..self
            },
            _ => self,
        }
    }

    pub fn new() -> (thread: Self)
        ensures
            thread == (ReaderThread { last_version: 0, phase: ReaderPhase::Check }),
    {
        ReaderThread { last_version: 0, phase: ReaderPhase::Check }
    }

    pub fn action(&self) -> (action: Option<ReaderAction>)
        ensures
            action == self.next_action(),
    {
        match self.phase {
            ReaderPhase::Check => Some(ReaderAction::IsStopped),
            ReaderPhase::Read => Some(ReaderAction::Read { last_seen: self.last_version }),
            ReaderPhase::Send => Some(ReaderAction::Send),
            ReaderPhase::Finished => None,
        }
    }

    pub fn resume(&mut self, event: ReaderEvent)
        ensures
            *final(self) == old(self).after(event),
    {
        match (self.phase, event) {
            (ReaderPhase::Check, ReaderEvent::Stopped(stopped)) => {
                self.phase = if stopped {
                    ReaderPhase::Finished
                } else {
                    ReaderPhase::Read
                };
            },
            (ReaderPhase::Read, ReaderEvent::Message(None)) => {
                self.phase = ReaderPhase::Check;
            },
            (ReaderPhase::Read, ReaderEvent::Message(Some(sequence))) => {
                self.last_version = sequence;
                self.phase = ReaderPhase::Send;
            },
            (ReaderPhase::Send, ReaderEvent::Sent(open)) => {
                self.phase = if open {
                    ReaderPhase::Check
                } else {
                    ReaderPhase::Finished
                };
            },
            _ => {},
        }
    }

    pub fn is_finished(&self) -> (finished: bool)
        ensures
            finished == (self.phase is Finished),
    {
        matches!(self.phase, ReaderPhase::Finished)
    }
}

#[derive(Copy, Clone, Debug, PartialEq, Eq, Structural)]
pub enum WriterAction {
    /// Wait for something in the queue.
    Receive,
    /// Write it.
    Write,
    /// Note the version that it became.
    Store { version: u64 },
}

#[derive(Copy, Clone, Debug, PartialEq, Eq, Structural)]
pub enum WriterEvent {
    /// Whether there was something, or the queue was closed.
    Received(bool),
    /// The version that was written; `None` once the message is stopped.
    Written(Option<u64>),
    Stored,
}

#[derive(Copy, Clone, Debug, PartialEq, Eq, Structural)]
pub enum WriterPhase {
    Receive,
    Write,
    Store { version: u64 },
    Finished,
}

#[derive(Copy, Clone, Debug, PartialEq, Eq, Structural)]
pub struct WriterThread {
    pub phase: WriterPhase,
}

impl WriterThread {
    pub open spec fn next_action(self) -> Option<WriterAction> {
        match self.phase {
            WriterPhase::Receive => Some(WriterAction::Receive),
            WriterPhase::Write => Some(WriterAction::Write),
            WriterPhase::Store { version } => Some(WriterAction::Store { version }),
            WriterPhase::Finished => None,
        }
    }

    pub open spec fn after(self, event: WriterEvent) -> WriterThread {
        let phase = match (self.phase, event) {
            (WriterPhase::Receive, WriterEvent::Received(open)) => if open {
                WriterPhase::Write
            } else {
                WriterPhase::Finished
            },
            (WriterPhase::Write, WriterEvent::Written(Some(version))) => WriterPhase::Store {
                version,
            },
            (WriterPhase::Write, WriterEvent::Written(None)) => WriterPhase::Finished,
            (WriterPhase::Store { .. }, WriterEvent::Stored) => WriterPhase::Receive,
            (phase, _) => phase,
        };
        WriterThread { phase }
    }

    pub fn new() -> (thread: Self)
        ensures
            thread == (WriterThread { phase: WriterPhase::Receive }),
    {
        WriterThread { phase: WriterPhase::Receive }
    }

    pub fn action(&self) -> (action: Option<WriterAction>)
        ensures
            action == self.next_action(),
    {
        match self.phase {
            WriterPhase::Receive => Some(WriterAction::Receive),
            WriterPhase::Write => Some(WriterAction::Write),
            WriterPhase::Store { version } => Some(WriterAction::Store { version }),
            WriterPhase::Finished => None,
        }
    }

    pub fn resume(&mut self, event: WriterEvent)
        ensures
            *final(self) == old(self).after(event),
    {
        self.phase = match (self.phase, event) {
            (WriterPhase::Receive, WriterEvent::Received(open)) => {
                if open {
                    WriterPhase::Write
                } else {
                    WriterPhase::Finished
                }
            },
            (WriterPhase::Write, WriterEvent::Written(Some(version))) => {
                WriterPhase::Store { version }
            },
            (WriterPhase::Write, WriterEvent::Written(None)) => WriterPhase::Finished,
            (WriterPhase::Store { .. }, WriterEvent::Stored) => WriterPhase::Receive,
            (phase, _) => phase,
        };
    }

    pub fn is_finished(&self) -> (finished: bool)
        ensures
            finished == (self.phase is Finished),
    {
        matches!(self.phase, WriterPhase::Finished)
    }
}

} // verus!
