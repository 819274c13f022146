//! The accesses of an operation to memory that other processes use as well.
use crate::counted_message::region::{Action, Channel, Counter, Event};
use crate::primitives::shared_futex::{is_found, is_unlocked, LiveFutex};
use crate::shared_message::packed::SequenceState;
use crate::sync::condvar::{is_notified, is_value, LiveCondvar};
use crate::sync::futex;
use core::sync::atomic::{AtomicU16, AtomicU32, AtomicU64, AtomicUsize, Ordering};
use rustix::io::Errno;
use vstd::prelude::*;

verus! {

/// The header of a message in shared memory.
pub struct LiveMessage<'a> {
    pub sequence_and_flags: &'a AtomicU64,
    pub active_readers_count: &'a AtomicU16,
    pub consumed_counts: &'a AtomicU16,
    pub target_read_count: &'a AtomicU16,
    pub consumer_count: &'a AtomicU16,
    pub writer_futex: &'a AtomicU32,
    pub reader_done_futex: &'a AtomicU32,
    pub writer_mutex: &'a AtomicU32,
    pub data_size: &'a AtomicUsize,
}

/// Whether an event is a possible result of an action.
pub open spec fn is_answer(action: Action, event: Event) -> bool {
    match action {
        Action::LoadSequence => event is Word,
        Action::Load(_) | Action::Increase(_) | Action::Decrease(_) => event is Count,
        Action::LoadTicket(_) => event is Ticket,
        Action::SwapSequence { expected, .. } => event matches Event::Swapped { done, found } && (
        done ==> found == expected),
        Action::Lock(_) => event is Lock,
        _ => event is Done,
    }
}

/// Whether an attempt to change the sequence word from `expected` to `new` can come
/// back with `result`.
closed spec fn is_swap(
    word: &AtomicU64,
    expected: u64,
    new: u64,
    result: Result<u64, u64>,
) -> bool {
    call_ensures(
        AtomicU64::compare_exchange,
        (word, expected, new, Ordering::Release, Ordering::Acquire),
        result,
    )
}

/// What an operation is told of such an attempt.
pub open spec fn swapped(expected: u64, result: Result<u64, u64>) -> Event {
    match result {
        Ok(_) => Event::Swapped { done: true, found: expected },
        Err(found) => Event::Swapped { done: false, found },
    }
}

/// Whether marking a write as in progress can find `before` in the sequence word.
closed spec fn is_marked(word: &AtomicU64, before: u64) -> bool {
    call_ensures(
        AtomicU64::fetch_or,
        (word, SequenceState::WRITING_IN_PROGRESS_MASK, Ordering::Release),
        before,
    )
}

/// Whether taking that mark back can find `before` in the sequence word.
closed spec fn is_unmarked(word: &AtomicU64, before: u64) -> bool {
    call_ensures(
        AtomicU64::fetch_and,
        (word, !SequenceState::WRITING_IN_PROGRESS_MASK, Ordering::Release),
        before,
    )
}

/// Whether setting the stopped flag can find `before` in the sequence word.
closed spec fn is_stop(word: &AtomicU64, before: u64) -> bool {
    call_ensures(
        AtomicU64::fetch_or,
        (word, SequenceState::STOPPED_MASK, Ordering::AcqRel),
        before,
    )
}

impl<'a> LiveMessage<'a> {
    /// The word of a condition variable.
    pub open spec fn condvar_word(self, channel: Channel) -> &'a AtomicU32 {
        match channel {
            Channel::Writer => self.writer_futex,
            Channel::ReaderDone => self.reader_done_futex,
        }
    }

    /// The word of a counter.
    pub open spec fn counter_word(self, counter: Counter) -> &'a AtomicU16 {
        match counter {
            Counter::Active => self.active_readers_count,
            Counter::Consumed => self.consumed_counts,
            Counter::Target => self.target_read_count,
            Counter::Consumers => self.consumer_count,
        }
    }

    /// The access to the words of this header that an action stands for can come
    /// back with an event. Nothing more is known of what it gave than that such an
    /// access gave it.
    pub closed spec fn is_access(self, action: Action, event: Event) -> bool {
        match action {
            Action::LoadSequence => event matches Event::Word(word) && call_ensures(
                AtomicU64::load,
                (self.sequence_and_flags, Ordering::Acquire),
                word,
            ),
            Action::LoadTicket(channel) => event matches Event::Ticket(ticket) && is_value(
                self.condvar_word(channel),
                ticket,
            ),
            Action::SwapSequence { expected, new } => exists|result: Result<u64, u64>| #[trigger]
                is_swap(self.sequence_and_flags, expected, new, result) && event == swapped(
                    expected,
                    result,
                ),
            Action::SetWriting => event is Done && exists|before: u64|
                is_marked(self.sequence_and_flags, before),
            Action::ClearWriting => event is Done && exists|before: u64|
                is_unmarked(self.sequence_and_flags, before),
            Action::SetStopped => event is Done && exists|before: u64|
                is_stop(self.sequence_and_flags, before),
            Action::Load(counter) => event matches Event::Count(count) && call_ensures(
                AtomicU16::load,
                (self.counter_word(counter), Ordering::Acquire),
                count,
            ),
            Action::Increase(counter) => event matches Event::Count(count) && call_ensures(
                AtomicU16::fetch_add,
                (self.counter_word(counter), 1u16, Ordering::AcqRel),
                count,
            ),
            Action::Decrease(counter) => event matches Event::Count(count) && call_ensures(
                AtomicU16::fetch_sub,
                (self.counter_word(counter), 1u16, Ordering::AcqRel),
                count,
            ),
            Action::Store(counter, count) => event is Done && call_ensures(
                AtomicU16::store,
                (self.counter_word(counter), count, Ordering::Release),
                (),
            ),
            Action::StoreSize(size) => event is Done && call_ensures(
                AtomicUsize::store,
                (self.data_size, size, Ordering::Release),
                (),
            ),
            Action::Lock(action) => event matches Event::Lock(found) && is_found(
                self.writer_mutex,
                action,
                found,
            ),
            Action::Unlock => event is Done && is_unlocked(self.writer_mutex),
            Action::Notify(channel) => event is Done && is_notified(
                self.condvar_word(channel),
                futex::WAKE_ALL,
                true,
            ),
            Action::Sleep { channel, ticket } => event is Done && exists|result: Result<
                (),
                Errno,
            >| futex::is_wait(self.condvar_word(channel), ticket, result),
        }
    }

    fn counter(&self, counter: Counter) -> (word: &'a AtomicU16)
        ensures
            word == self.counter_word(counter),
    {
        match counter {
            Counter::Active => self.active_readers_count,
            Counter::Consumed => self.consumed_counts,
            Counter::Target => self.target_read_count,
            Counter::Consumers => self.consumer_count,
        }
    }

    fn condvar(&self, channel: Channel) -> (condvar: LiveCondvar<'a>)
        ensures
            condvar.word == self.condvar_word(channel),
    {
        match channel {
            Channel::Writer => LiveCondvar { word: self.writer_futex },
            Channel::ReaderDone => LiveCondvar { word: self.reader_done_futex },
        }
    }

    /// Makes one access of an operation; a sleep returns when the operation
    /// should look again. What comes back depends on the other processes. `None`
    /// where sleepers could not be woken.
    ///
    /// It is stated that this access is made, on which word, with which
    /// arguments and ordering, and how its result becomes the event. That no
    /// other access is made beside it is not stated: an atomic word has no value
    /// that a contract could speak of.
    pub fn perform(&self, action: Action) -> (event: Option<Event>)
        ensures
            event matches Some(event) ==> is_answer(action, event) && self.is_access(action, event),
            event is None ==> {
                &&& action matches Action::Notify(channel)
                &&& is_notified(self.condvar_word(channel), futex::WAKE_ALL, false)
            },
    {
        let event = match action {
            Action::LoadSequence => Event::Word(self.sequence_and_flags.load(Ordering::Acquire)),
            Action::LoadTicket(channel) => Event::Ticket(self.condvar(channel).value()),
            Action::SwapSequence { expected, new } => {
                let result = self.sequence_and_flags.compare_exchange(
                    expected,
                    new,
                    Ordering::Release,
                    Ordering::Acquire,
                );
                assert(is_swap(self.sequence_and_flags, expected, new, result));
                match result {
                    Ok(_) => Event::Swapped { done: true, found: expected },
                    Err(found) => Event::Swapped { done: false, found },
                }
            },
            Action::SetWriting => {
                let before: u64 = self.sequence_and_flags.fetch_or(
                    SequenceState::WRITING_IN_PROGRESS_MASK,
                    Ordering::Release,
                );
                assert(is_marked(self.sequence_and_flags, before));
                Event::Done
            },
            Action::ClearWriting => {
                let before: u64 = self.sequence_and_flags.fetch_and(
                    !SequenceState::WRITING_IN_PROGRESS_MASK,
                    Ordering::Release,
                );
                assert(is_unmarked(self.sequence_and_flags, before));
                Event::Done
            },
            Action::SetStopped => {
                let before: u64 = self.sequence_and_flags.fetch_or(
                    SequenceState::STOPPED_MASK,
                    Ordering::AcqRel,
                );
                assert(is_stop(self.sequence_and_flags, before));
                Event::Done
            },
            Action::Load(counter) => Event::Count(self.counter(counter).load(Ordering::Acquire)),
            Action::Increase(counter) => Event::Count(
                self.counter(counter).fetch_add(1, Ordering::AcqRel),
            ),
            Action::Decrease(counter) => Event::Count(
                self.counter(counter).fetch_sub(1, Ordering::AcqRel),
            ),
            Action::Store(counter, count) => {
                self.counter(counter).store(count, Ordering::Release);
                Event::Done
            },
            Action::StoreSize(size) => {
                self.data_size.store(size, Ordering::Release);
                Event::Done
            },
            Action::Lock(action) => Event::Lock(
                LiveFutex { word: self.writer_mutex }.perform(action),
            ),
            Action::Unlock => {
                LiveFutex { word: self.writer_mutex }.unlock();
                Event::Done
            },
            Action::Notify(channel) => {
                if !self.condvar(channel).notify_all() {
                    return None;
                }
                Event::Done
            },
            Action::Sleep { channel, ticket } => {
                let _ = futex::futex_wait(self.condvar(channel).word, ticket);
                Event::Done
            },
        };
        Some(event)
    }
}

/// Which word an operation gets to see and to change: the sequence word is read and
/// swapped as such, each counter is its own word and is counted by one, and sizes
/// and counts are stored as they are. What is read is what the operation is told; a
/// swap is told to be done only if it was.
pub proof fn law_live_accesses(message: LiveMessage<'_>, action: Action, event: Event)
    requires
        call_ensures(LiveMessage::perform, (&message, action), Some(event)),
    ensures
        message.counter_word(Counter::Active) == message.active_readers_count,
        message.counter_word(Counter::Consumed) == message.consumed_counts,
        message.counter_word(Counter::Target) == message.target_read_count,
        message.counter_word(Counter::Consumers) == message.consumer_count,
        match action {
            Action::LoadSequence => event matches Event::Word(word) && call_ensures(
                AtomicU64::load,
                (message.sequence_and_flags, Ordering::Acquire),
                word,
            ),
            Action::SwapSequence { expected, new } => event matches Event::Swapped { done, found }
                && exists|result: Result<u64, u64>| #[trigger]
                call_ensures(
                    AtomicU64::compare_exchange,
                    (
                        message.sequence_and_flags,
                        expected,
                        new,
                        Ordering::Release,
                        Ordering::Acquire,
                    ),
                    result,
                ) && done == (result is Ok) && found == (match result {
                    Ok(_) => expected,
                    Err(other) => other,
                }),
            Action::SetWriting => exists|before: u64|
                call_ensures(
                    AtomicU64::fetch_or,
                    (message.sequence_and_flags, 0x4000_0000_0000_0000u64, Ordering::Release),
                    before,
                ),
            Action::ClearWriting => exists|before: u64|
                call_ensures(
                    AtomicU64::fetch_and,
                    (message.sequence_and_flags, 0xbfff_ffff_ffff_ffffu64, Ordering::Release),
                    before,
                ),
            Action::SetStopped => exists|before: u64|
                call_ensures(
                    AtomicU64::fetch_or,
                    (message.sequence_and_flags, 0x8000_0000_0000_0000u64, Ordering::AcqRel),
                    before,
                ),
            Action::Load(counter) => event matches Event::Count(count) && call_ensures(
                AtomicU16::load,
                (message.counter_word(counter), Ordering::Acquire),
                count,
            ),
            Action::Increase(counter) => event matches Event::Count(count) && call_ensures(
                AtomicU16::fetch_add,
                (message.counter_word(counter), 1u16, Ordering::AcqRel),
                count,
            ),
            Action::Decrease(counter) => event matches Event::Count(count) && call_ensures(
                AtomicU16::fetch_sub,
                (message.counter_word(counter), 1u16, Ordering::AcqRel),
                count,
            ),
            Action::Store(counter, count) => call_ensures(
                AtomicU16::store,
                (message.counter_word(counter), count, Ordering::Release),
                (),
            ),
            Action::StoreSize(size) => call_ensures(
                AtomicUsize::store,
                (message.data_size, size, Ordering::Release),
                (),
            ),
            Action::LoadTicket(Channel::Writer) => event matches Event::Ticket(ticket) && is_value(
                message.writer_futex,
                ticket,
            ),
            Action::LoadTicket(Channel::ReaderDone) => event matches Event::Ticket(ticket)
                && is_value(message.reader_done_futex, ticket),
            Action::Lock(action) => event matches Event::Lock(found) && is_found(
                message.writer_mutex,
                action,
                found,
            ),
            Action::Unlock => is_unlocked(message.writer_mutex),
            Action::Notify(Channel::Writer) => is_notified(message.writer_futex, 0x7fff_ffff, true),
            Action::Notify(Channel::ReaderDone) => is_notified(
                message.reader_done_futex,
                0x7fff_ffff,
                true,
            ),
            Action::Sleep { channel: Channel::Writer, ticket } => exists|result: Result<(), Errno>|
                futex::is_wait(message.writer_futex, ticket, result),
            Action::Sleep { channel: Channel::ReaderDone, ticket } => exists|
                result: Result<(), Errno>,
            |
                futex::is_wait(message.reader_done_futex, ticket, result),
        },
{
    assert(!0x4000_0000_0000_0000u64 == 0xbfff_ffff_ffff_ffffu64) by (bit_vector);
    if action is SetWriting {
        let before = choose|before: u64| is_marked(message.sequence_and_flags, before);
        assert(is_marked(message.sequence_and_flags, before));
    }
    if action is ClearWriting {
        let before = choose|before: u64| is_unmarked(message.sequence_and_flags, before);
        assert(is_unmarked(message.sequence_and_flags, before));
    }
    match action {
        Action::SwapSequence { expected, new } => {
            let result = choose|result: Result<u64, u64>| #[trigger]
                is_swap(message.sequence_and_flags, expected, new, result) && event == swapped(
                    expected,
                    result,
                );
            assert(is_swap(message.sequence_and_flags, expected, new, result));
        },
        Action::SetStopped => {
            let before = choose|before: u64| is_stop(message.sequence_and_flags, before);
            assert(is_stop(message.sequence_and_flags, before));
        },
        _ => {},
    }
}

} // verus!
