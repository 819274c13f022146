//! The two 64-bit words of a message header.
//!
//! The sequence word holds the message sequence in its low 62 bits, the
//! writing-in-progress flag in bit 62 and the stopped flag in bit 63. The
//! readers word holds four 16-bit counters.
use vstd::prelude::*;

verus! {

/// One more than the largest sequence number: 2^62.
pub const SEQUENCE_LIMIT: u64 = 0x4000_0000_0000_0000;

/// The unpacked sequence word.
#[derive(Default, Clone, Copy, PartialEq, Eq, Structural, Debug)]
pub struct SequenceState {
    pub sequence: u64,
    pub stopped: bool,
    pub writing_in_progress: bool,
}

impl SequenceState {
    pub const STOPPED_MASK: u64 = 0x8000_0000_0000_0000;

    pub const WRITING_IN_PROGRESS_MASK: u64 = 0x4000_0000_0000_0000;

    pub const SEQUENCE_MASK: u64 = 0x3fff_ffff_ffff_ffff;

    /// A sequence that fits in its 62 bits.
    pub open spec fn wf(self) -> bool {
        self.sequence < SEQUENCE_LIMIT
    }

    /// The state that a packed word stands for.
    pub open spec fn unpacked(packed: u64) -> SequenceState {
        SequenceState {
            sequence: (packed % SEQUENCE_LIMIT),
            stopped: (packed / SEQUENCE_LIMIT) / 2 == 1,
            writing_in_progress: (packed / SEQUENCE_LIMIT) % 2 == 1,
        }
    }

    /// The packed word of a state whose sequence is taken modulo 2^62.
    pub open spec fn packed(self) -> u64 {
        ((self.sequence % SEQUENCE_LIMIT) + (if self.writing_in_progress {
            SEQUENCE_LIMIT as int
        } else {
            0
        }) + (if self.stopped {
            2 * SEQUENCE_LIMIT
        } else {
            0
        })) as u64
    }

    #[inline]
    pub fn from(packed: u64) -> (state: SequenceState)
        ensures
            state == SequenceState::unpacked(packed),
            state.wf(),
    {
        assert(packed & 0x3fff_ffff_ffff_ffff == packed % 0x4000_0000_0000_0000) by (bit_vector);
        assert((packed & 0x8000_0000_0000_0000 != 0) == ((packed / 0x4000_0000_0000_0000) / 2 == 1))
            by (bit_vector);
        assert((packed & 0x4000_0000_0000_0000 != 0) == ((packed / 0x4000_0000_0000_0000) % 2 == 1))
            by (bit_vector);
        SequenceState {
            sequence: packed & Self::SEQUENCE_MASK,
            stopped: (packed & Self::STOPPED_MASK) != 0,
            writing_in_progress: (packed & Self::WRITING_IN_PROGRESS_MASK) != 0,
        }
    }

    #[inline]
    pub fn to_packed(&self) -> (packed: u64)
        ensures
            packed == self.packed(),
    {
        let stopped: u64 = if self.stopped { 1 } else { 0 };
        let writing: u64 = if self.writing_in_progress { 1 } else { 0 };
        let sequence: u64 = self.sequence;
        assert(((stopped << 63) | (writing << 62) | (sequence & 0x3fff_ffff_ffff_ffff)) == (sequence
            % 0x4000_0000_0000_0000) + writing * 0x4000_0000_0000_0000 + stopped
            * 0x8000_0000_0000_0000) by (bit_vector)
            requires
                stopped <= 1,
                writing <= 1,
        ;
        (stopped << 63) | (writing << 62) | (sequence & Self::SEQUENCE_MASK)
    }
}

/// The sequence that the next published message gets: one more, and 1 again
/// after the largest. 0 stands for "nothing published yet" and is skipped.
pub open spec fn sequence_after(sequence: u64) -> u64 {
    if sequence + 1 >= SEQUENCE_LIMIT {
        1
    } else {
        (sequence + 1) as u64
    }
}

/// The sequence after so many more publications.
pub open spec fn advanced(sequence: u64, publications: nat) -> u64
    decreases publications,
{
    if publications == 0 {
        sequence
    } else {
        sequence_after(advanced(sequence, (publications - 1) as nat))
    }
}

/// Computes [`sequence_after`].
#[inline]
pub fn next_sequence(sequence: u64) -> (next: u64)
    requires
        sequence < SEQUENCE_LIMIT,
    ensures
        next == sequence_after(sequence),
        0 < next < SEQUENCE_LIMIT,
        next != sequence,
{
    let larger: u64 = sequence + 1;
    let candidate: u64 = larger & SequenceState::SEQUENCE_MASK;
    assert(larger & 0x3fff_ffff_ffff_ffff == larger % 0x4000_0000_0000_0000) by (bit_vector);
    if candidate == 0 {
        1
    } else {
        candidate
    }
}

/// The unpacked readers word.
#[derive(Default, Clone, Copy, PartialEq, Eq, Structural, Debug)]
pub struct ReadersStateCount {
    /// How many readers the writer waits for.
    pub target_read: u16,
    /// How many readers are registered.
    pub consumers: u16,
    /// How many readers hold the current message.
    pub active_readers: u16,
    /// How many readers are done with the current message.
    pub data_consumed: u16,
}

impl ReadersStateCount {
    pub const TARGET_SHIFT: u32 = 0;

    pub const CONSUMERS_SHIFT: u32 = 16;

    pub const ACTIVE_SHIFT: u32 = 32;

    pub const CONSUMED_SHIFT: u32 = 48;

    /// The counters that a packed word stands for.
    pub open spec fn unpacked(packed: u64) -> ReadersStateCount {
        ReadersStateCount {
            target_read: (packed % 0x1_0000) as u16,
            consumers: ((packed / 0x1_0000) % 0x1_0000) as u16,
            active_readers: ((packed / 0x1_0000_0000) % 0x1_0000) as u16,
            data_consumed: (packed / 0x1_0000_0000_0000) as u16,
        }
    }

    /// The packed word of the four counters.
    pub open spec fn packed(self) -> u64 {
        (self.target_read + self.consumers * 0x1_0000 + self.active_readers * 0x1_0000_0000
            + self.data_consumed * 0x1_0000_0000_0000) as u64
    }

    /// How many readers must be done with a message before the next may be
    /// written: the target, but no more than there are.
    pub open spec fn target_consumed(self) -> u16 {
        if self.target_read <= self.consumers {
            self.target_read
        } else {
            self.consumers
        }
    }

    #[inline]
    pub fn from(packed: u64) -> (state: ReadersStateCount)
        ensures
            state == ReadersStateCount::unpacked(packed),
    {
        assert((packed >> 0u32) as u16 == (packed % 0x1_0000)) by (bit_vector);
        assert((packed >> 16u32) as u16 == ((packed / 0x1_0000) % 0x1_0000)) by (bit_vector);
        assert((packed >> 32u32) as u16 == ((packed / 0x1_0000_0000) % 0x1_0000)) by (bit_vector);
        assert((packed >> 48u32) as u16 == (packed / 0x1_0000_0000_0000)) by (bit_vector);
        ReadersStateCount {
            target_read: (packed >> Self::TARGET_SHIFT) as u16,
            consumers: (packed >> Self::CONSUMERS_SHIFT) as u16,
            active_readers: (packed >> Self::ACTIVE_SHIFT) as u16,
            data_consumed: (packed >> Self::CONSUMED_SHIFT) as u16,
        }
    }

    #[inline]
    pub fn to_packed(&self) -> (packed: u64)
        ensures
            packed == self.packed(),
    {
        let target: u64 = self.target_read as u64;
        let consumers: u64 = self.consumers as u64;
        let active: u64 = self.active_readers as u64;
        let consumed: u64 = self.data_consumed as u64;
        assert(((target << 0u32) | (consumers << 16u32) | (active << 32u32) | (consumed << 48u32))
            == target + consumers * 0x1_0000 + active * 0x1_0000_0000 + consumed
            * 0x1_0000_0000_0000) by (bit_vector)
            requires
                target < 0x1_0000,
                consumers < 0x1_0000,
                active < 0x1_0000,
                consumed < 0x1_0000,
        ;
        (target << Self::TARGET_SHIFT) | (consumers << Self::CONSUMERS_SHIFT) | (active
            << Self::ACTIVE_SHIFT) | (consumed << Self::CONSUMED_SHIFT)
    }

    #[inline]
    pub fn get_target_consumed(&self) -> (count: u16)
        ensures
            count == self.target_consumed(),
    {
        if self.target_read <= self.consumers {
            self.target_read
        } else {
            self.consumers
        }
    }
}

/// Packing a state and unpacking the word gives the state back.
pub proof fn law_sequence_round_trip(state: SequenceState)
    requires
        state.wf(),
    ensures
        SequenceState::unpacked(state.packed()) == state,
{
}

/// Unpacking a sequence word and packing the state gives the word back: no
/// two words stand for the same state.
pub proof fn law_sequence_word_round_trip(word: u64)
    ensures
        SequenceState::unpacked(word).packed() == word,
{
}

/// Packing the counters and unpacking the word gives the counters back.
pub proof fn law_readers_round_trip(state: ReadersStateCount)
    ensures
        ReadersStateCount::unpacked(state.packed()) == state,
{
    let target = state.target_read as u64;
    let consumers = state.consumers as u64;
    let active = state.active_readers as u64;
    let consumed = state.data_consumed as u64;
    let word = state.packed();
    assert(word % 0x1_0000 == target && (word / 0x1_0000) % 0x1_0000 == consumers && (word
        / 0x1_0000_0000) % 0x1_0000 == active && word / 0x1_0000_0000_0000 == consumed)
        by (bit_vector)
        requires
            word == target + consumers * 0x1_0000 + active * 0x1_0000_0000 + consumed
                * 0x1_0000_0000_0000,
            target < 0x1_0000,
            consumers < 0x1_0000,
            active < 0x1_0000,
            consumed < 0x1_0000,
    ;
}

/// Unpacking a readers word and packing the counters gives the word back.
pub proof fn law_readers_word_round_trip(word: u64)
    ensures
        ReadersStateCount::unpacked(word).packed() == word,
{
    assert(word == word % 0x1_0000 + ((word / 0x1_0000) % 0x1_0000) * 0x1_0000 + ((word
        / 0x1_0000_0000) % 0x1_0000) * 0x1_0000_0000 + (word / 0x1_0000_0000_0000)
        * 0x1_0000_0000_0000 && word / 0x1_0000_0000_0000 < 0x1_0000) by (bit_vector);
}

/// Setting or clearing a flag in the sequence word changes that flag and
/// nothing else.
pub proof fn law_flag_masks(word: u64)
    ensures
        SequenceState::unpacked(word | SequenceState::STOPPED_MASK) == (SequenceState {
            stopped: true,
            ..SequenceState::unpacked(word)
        }),
        SequenceState::unpacked(word | SequenceState::WRITING_IN_PROGRESS_MASK) == (SequenceState {
            writing_in_progress: true,
            ..SequenceState::unpacked(word)
        }),
        SequenceState::unpacked(word & !SequenceState::WRITING_IN_PROGRESS_MASK) == (
        SequenceState { writing_in_progress: false, ..SequenceState::unpacked(word) }),
{
    let stop = word | 0x8000_0000_0000_0000;
    assert(stop % 0x4000_0000_0000_0000 == word % 0x4000_0000_0000_0000 && (stop
        / 0x4000_0000_0000_0000) / 2 == 1 && (stop / 0x4000_0000_0000_0000) % 2 == (word
        / 0x4000_0000_0000_0000) % 2) by (bit_vector)
        requires
            stop == word | 0x8000_0000_0000_0000,
    ;
    let set = word | 0x4000_0000_0000_0000;
    assert(set % 0x4000_0000_0000_0000 == word % 0x4000_0000_0000_0000 && (set
        / 0x4000_0000_0000_0000) / 2 == (word / 0x4000_0000_0000_0000) / 2 && (set
        / 0x4000_0000_0000_0000) % 2 == 1) by (bit_vector)
        requires
            set == word | 0x4000_0000_0000_0000,
    ;
    let clear = word & !0x4000_0000_0000_0000;
    assert(clear % 0x4000_0000_0000_0000 == word % 0x4000_0000_0000_0000 && (clear
        / 0x4000_0000_0000_0000) / 2 == (word / 0x4000_0000_0000_0000) / 2 && (clear
        / 0x4000_0000_0000_0000) % 2 == 0) by (bit_vector)
        requires
            clear == word & !0x4000_0000_0000_0000,
    ;
}

/// A published message never has sequence 0, and its sequence is larger
/// than that of the message before it, except where the numbering starts over.
pub proof fn law_sequence_after(sequence: u64)
    requires
        sequence < SEQUENCE_LIMIT,
    ensures
        0 < sequence_after(sequence) < SEQUENCE_LIMIT,
        sequence_after(sequence) != sequence,
        sequence_after(sequence) > sequence || sequence == SEQUENCE_LIMIT - 1,
        sequence < SEQUENCE_LIMIT - 1 ==> sequence_after(sequence) == sequence + 1,
        sequence == SEQUENCE_LIMIT - 1 ==> sequence_after(sequence) == 1,
        forall|other: u64|
            other < SEQUENCE_LIMIT && #[trigger] sequence_after(other) == sequence_after(sequence)
                ==> other == sequence || other == 0 || sequence == 0,
{
}

/// The first messages are numbered by counting them from 1.
pub proof fn law_first_messages_are_counted(publications: nat)
    requires
        publications < SEQUENCE_LIMIT,
    ensures
        advanced(0, publications) == publications,
    decreases publications,
{
    if publications > 0 {
        law_first_messages_are_counted((publications - 1) as nat);
    }
}

/// A writer waits for exactly as many readers as its target asks for, or for all
/// that are registered if they are fewer: never for more than either, and never
/// for fewer than both. So it goes on if and only if enough have consumed, or all.
pub proof fn law_target_consumed(state: ReadersStateCount)
    ensures
        state.target_consumed() <= state.target_read,
        state.target_consumed() <= state.consumers,
        state.target_consumed() == state.target_read || state.target_consumed() == state.consumers,
        state.target_read <= state.consumers ==> state.target_consumed() == state.target_read,
        state.consumers <= state.target_read ==> state.target_consumed() == state.consumers,
        state.target_read == u16::MAX ==> state.target_consumed() == state.consumers,
        state.target_read == 0 ==> state.target_consumed() == 0,
        state.data_consumed >= state.target_consumed() <==> state.data_consumed
            >= state.target_read || state.data_consumed >= state.consumers,
{
}

/// What the readers word says of the number of readers to wait for is what is
/// computed of it.
pub proof fn law_get_target_consumed(state: ReadersStateCount, count: u16)
    requires
        call_ensures(ReadersStateCount::get_target_consumed, (&state,), count),
    ensures
        count <= state.target_read,
        count <= state.consumers,
        count == state.target_read || count == state.consumers,
{
}

/// Where the sequence word has what: the sequence in the low 62 bits, then the
/// flag of a write, then the flag of a stop.
pub proof fn law_sequence_layout(word: u64)
    ensures
        SequenceState::unpacked(word).sequence == word % 0x4000_0000_0000_0000,
        SequenceState::unpacked(word).stopped <==> word >= 0x8000_0000_0000_0000,
        SequenceState::unpacked(word).writing_in_progress <==> (word % 0x8000_0000_0000_0000
            >= 0x4000_0000_0000_0000),
{
}

/// Where the readers word has what: the target in the low 16 bits, then the
/// registered readers, the active ones, and those that are done.
pub proof fn law_readers_layout(word: u64)
    ensures
        ({
            let counts = ReadersStateCount::unpacked(word);
            word == counts.target_read + counts.consumers * 0x1_0000 + counts.active_readers
                * 0x1_0000_0000 + counts.data_consumed * 0x1_0000_0000_0000
        }),
{
    law_readers_word_round_trip(word);
}

} // verus!
