//! What holds of the message under a lock, whoever takes the lock next.
use crate::container::message::{incremented, Message, STOPPED_BIT};
use vstd::prelude::*;

verus! {

/// What one who has the lock may do to a message: publish data that fits, read,
/// come, go, or stop it. A writer that the stop has overtaken publishes too.
pub open spec fn step(before: Message, after: Message) -> bool {
    ||| before.word < u64::MAX && exists|data: Seq<u8>|
        data.len() <= before.payload.len() && after == #[trigger] before.published(data)
    ||| before.read_count < u32::MAX && after == before.consumed()
    ||| exists|consumer_count: u32| after == #[trigger] before.with_consumers(consumer_count)
    ||| after == before.halted()
}

/// What is written is read back: the version is another one than before, under
/// it stand the bytes that were written, and a reader that has not seen it
/// does not wait.
pub proof fn law_read_back(before: Message, data: Seq<u8>, seen: u64)
    requires
        before.wf(),
        !before.stopped(),
        data.len() <= before.payload.len() <= usize::MAX,
    ensures
        before.published(data).wf(),
        before.published(data).data() == data,
        before.published(data).version() != before.version(),
        before.published(data).read_count == 0,
        !before.published(data).stopped(),
        seen != before.published(data).version() ==> !before.published(data).reader_waits(seen),
{
    assert(before.published(data).data() =~= data);
}

/// Versions count up from 0, and after the largest they start again.
pub proof fn law_versions(before: Message, data: Seq<u8>)
    requires
        !before.stopped(),
    ensures
        before.published(data).version() == (before.version() + 1) % STOPPED_BIT as int,
        incremented(before.word) < STOPPED_BIT,
{
}

/// Well-formedness and the size of the payload are kept.
pub proof fn law_step(before: Message, after: Message)
    requires
        before.wf(),
        before.payload.len() <= usize::MAX,
        step(before, after),
    ensures
        after.wf(),
        after.payload.len() == before.payload.len(),
{
}

/// A message once stopped stays stopped, and neither writers nor readers wait
/// for it.
pub proof fn law_stop_is_final(before: Message, after: Message, wait_for: u32, seen: u64)
    requires
        before.stopped(),
        step(before, after),
    ensures
        after.stopped(),
        !after.writer_waits(wait_for),
        !after.reader_waits(seen),
{
}

/// Stopping says so, and keeps version and data for those who have not read
/// them yet.
pub proof fn law_stop_keeps_message(before: Message)
    ensures
        before.halted().stopped(),
        before.halted().version() == before.version(),
        before.halted().data() == before.data(),
{
}

/// Backpressure: a writer does not replace a version before as many readers
/// have read it as it waits for, or all that there are.
pub proof fn law_backpressure(message: Message, wait_for: u32)
    requires
        !message.stopped(),
        message.version() != 0,
        !message.writer_waits(wait_for),
    ensures
        message.read_count >= wait_for || message.read_count >= message.consumer_count,
{
}

/// A write makes its bytes the current version, which is the next one and which
/// nobody has read, has the readers woken, and keeps the rest.
pub proof fn law_write_effect(before: Message, data: Seq<u8>)
    requires
        before.wf(),
        !before.stopped(),
        data.len() <= before.payload.len() <= usize::MAX,
    ensures
        ({
            let after = before.published(data);
            &&& after.version() == (if before.version() == 0x7fff_ffff_ffff_ffff {
                0
            } else {
                before.version() + 1
            })
            &&& after.size == data.len()
            &&& after.payload.len() == before.payload.len()
            &&& forall|i: int| 0 <= i < data.len() ==> #[trigger] after.payload[i] == data[i]
            &&& forall|i: int|
                data.len() <= i < before.payload.len() ==> #[trigger] after.payload[i]
                    == before.payload[i]
            &&& after.read_count == 0
            &&& after.consumer_count == before.consumer_count
            &&& after.lock == before.lock
            &&& after.readers_to_wake == 0xffff_ffff
            &&& after.writers_to_wake == before.writers_to_wake
        }),
{
}

/// A read counts once more, has the writers woken, and keeps the rest.
pub proof fn law_read_effect(before: Message)
    requires
        before.read_count < u32::MAX,
    ensures
        ({
            let after = before.consumed();
            &&& after.read_count == before.read_count + 1
            &&& after.writers_to_wake == 0xffff_ffff
            &&& after == (Message {
                read_count: after.read_count,
                writers_to_wake: after.writers_to_wake,
                ..before
            })
        }),
{
}

/// A change of the number of readers has the writers woken, who may wait for fewer
/// now, and keeps the rest.
pub proof fn law_consumers_effect(before: Message, consumers: u32)
    ensures
        ({
            let after = before.with_consumers(consumers);
            &&& after.consumer_count == consumers
            &&& after.writers_to_wake == 0xffff_ffff
            &&& after == (Message {
                consumer_count: after.consumer_count,
                writers_to_wake: after.writers_to_wake,
                ..before
            })
        }),
{
}

/// A stop has all woken, and keeps everything but its flag.
pub proof fn law_stop_effect(before: Message)
    ensures
        ({
            let after = before.halted();
            &&& after.stopped()
            &&& after.version() == before.version()
            &&& after.readers_to_wake == 0xffff_ffff
            &&& after.writers_to_wake == 0xffff_ffff
            &&& after == (Message {
                word: after.word,
                readers_to_wake: after.readers_to_wake,
                writers_to_wake: after.writers_to_wake,
                ..before
            })
        }),
{
}

/// A writer waits if and only if the message is not stopped, has a version, and
/// fewer readers than asked for, and fewer than there are, have read it. A reader
/// waits if and only if the message is not stopped and has no other version.
pub proof fn law_waits(message: Message, wait_for: u32, seen: u64)
    ensures
        message.writer_waits(wait_for) <==> !message.stopped() && message.version() != 0
            && message.read_count < wait_for && message.read_count < message.consumer_count,
        message.reader_waits(seen) <==> !message.stopped() && message.version() == seen,
{
}

/// The top bit of the word says that the message is stopped, the others are the
/// version; fresh memory has version 0 and nobody in it.
pub proof fn law_fresh_memory(message: Message, capacity: nat)
    ensures
        message.stopped() <==> message.word >= 0x8000_0000_0000_0000,
        message.version() == message.word % 0x8000_0000_0000_0000,
        ({
            let fresh = Message::zeroed(capacity);
            &&& fresh.wf()
            &&& !fresh.stopped()
            &&& fresh.version() == 0
            &&& fresh.lock == 0
            &&& fresh.consumer_count == 0
            &&& fresh.read_count == 0
            &&& fresh.size == 0
            &&& fresh.payload.len() == capacity
            &&& forall|i: int| 0 <= i < capacity ==> #[trigger] fresh.payload[i] == 0
        }),
{
}

/// The message after so many reads of it.
pub open spec fn read_times(message: Message, reads: nat) -> Message
    decreases reads,
{
    if reads == 0 {
        message
    } else {
        read_times(message, (reads - 1) as nat).consumed()
    }
}

/// Backpressure over whole writes and reads: after a write, the next one waits
/// until as many reads were made as it waits for, or as there are readers, and then
/// it waits no more.
pub proof fn law_backpressure_counts_reads(
    before: Message,
    data: Seq<u8>,
    wait_for: u32,
    reads: nat,
)
    requires
        before.wf(),
        !before.stopped(),
        before.version() < 0x7fff_ffff_ffff_ffff,
        data.len() <= before.payload.len() <= usize::MAX,
        reads <= u32::MAX,
    ensures
        ({
            let after = read_times(before.published(data), reads);
            &&& after.data() == data
            &&& after.version() == before.version() + 1
            &&& after.writer_waits(wait_for) <==> reads < wait_for && reads
                < before.consumer_count
        }),
{
    law_write_effect(before, data);
    lemma_read_times(before.published(data), reads);
    assert(before.published(data).data() =~= data);
}

proof fn lemma_read_times(message: Message, reads: nat)
    requires
        message.read_count == 0,
        reads <= u32::MAX,
    ensures
        read_times(message, reads).read_count == reads,
        read_times(message, reads) == (Message {
            read_count: read_times(message, reads).read_count,
            writers_to_wake: read_times(message, reads).writers_to_wake,
            ..message
        }),
    decreases reads,
{
    if reads > 0 {
        lemma_read_times(message, (reads - 1) as nat);
    }
}

} // verus!
