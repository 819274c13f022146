use rs_ipc::shared_message::live::LiveMessage;
use rs_ipc::shared_message::operation::{Action, Channel, Event, ReadOperation, ReadPhase};
use rs_ipc::shared_message::packed::SequenceState;
use rs_ipc::shared_message::write_operation::{Publish, PublishPhase, StartPhase, StartWrite};
use rs_ipc::zero_copy::live::LiveMessage as LiveZeroCopy;
use rs_ipc::zero_copy::operation as zero_copy_operation;
use rs_ipc::counted_message::live::LiveMessage as LiveCounted;
use rs_ipc::counted_message::operation as counted_operation;
use std::sync::atomic::{AtomicU16, AtomicU32, AtomicU64, AtomicUsize, Ordering};

#[derive(Default)]
struct Header {
    sequence_and_flags: AtomicU64,
    readers_state: AtomicU64,
    writer_condvar: AtomicU32,
    reader_done_condvar: AtomicU32,
    writer_mutex: AtomicU32,
    data_size: AtomicUsize,
}

impl Header {
    fn live(&self) -> LiveMessage<'_> {
        LiveMessage {
            sequence_and_flags: &self.sequence_and_flags,
            readers_state: &self.readers_state,
            writer_condvar: &self.writer_condvar,
            reader_done_condvar: &self.reader_done_condvar,
            writer_mutex: &self.writer_mutex,
            data_size: &self.data_size,
        }
    }
}

#[test]
fn a_live_message_is_written_and_read() {
    let header = Header::default();
    let live = header.live();

    let mut start = StartWrite::new();
    while let Some(action) = start.action() {
        start.resume(live.perform(action).unwrap());
    }
    assert_eq!(start.phase, StartPhase::Finished(true));
    assert_eq!(header.writer_mutex.load(Ordering::Relaxed), 1);
    assert!(SequenceState::from(header.sequence_and_flags.load(Ordering::Relaxed)).writing_in_progress);

    let mut publish = Publish::new(11);
    while let Some(action) = publish.action() {
        publish.resume(live.perform(action).unwrap());
    }
    assert_eq!(publish.phase, PublishPhase::Finished(1));
    assert_eq!(header.data_size.load(Ordering::Relaxed), 11);
    assert_eq!(header.sequence_and_flags.load(Ordering::Relaxed), 1);
    assert_eq!(header.writer_mutex.load(Ordering::Relaxed), 0);
    assert_eq!(header.writer_condvar.load(Ordering::Relaxed), 1);

    let mut read = ReadOperation::new(0, true);
    while let Some(action) = read.action() {
        read.resume(live.perform(action).unwrap());
    }
    assert_eq!(read.phase, ReadPhase::Finished(Some(1)));
    assert_eq!(header.readers_state.load(Ordering::Relaxed), 1 << 32);
}

#[test]
fn live_accesses_answer_what_was_there() {
    let header = Header::default();
    let live = header.live();
    assert_eq!(live.perform(Action::LoadSequence), Some(Event::Word(0)));
    assert_eq!(
        live.perform(Action::SwapSequence { expected: 5, new: 6 }),
        Some(Event::Swapped { done: false, found: 0 })
    );
    assert_eq!(live.perform(Action::SetStopped), Some(Event::Done));
    assert_eq!(live.perform(Action::LoadSequence), Some(Event::Word(1 << 63)));
    assert_eq!(live.perform(Action::SetWriting), Some(Event::Done));
    assert_eq!(live.perform(Action::ClearWriting), Some(Event::Done));
    assert_eq!(live.perform(Action::LoadSequence), Some(Event::Word(1 << 63)));
    assert_eq!(live.perform(Action::Notify(Channel::ReaderDone)), Some(Event::Done));
    assert_eq!(
        live.perform(Action::LoadTicket(Channel::ReaderDone)),
        Some(Event::Ticket(1))
    );
    // The counter has moved on, so nobody sleeps.
    assert_eq!(
        live.perform(Action::Sleep { channel: Channel::ReaderDone, ticket: 0 }),
        Some(Event::Done)
    );
}

#[derive(Default)]
struct CountedHeader {
    sequence_and_flags: AtomicU64,
    active_readers_count: AtomicU16,
    consumed_counts: AtomicU16,
    target_read_count: AtomicU16,
    consumer_count: AtomicU16,
    writer_futex: AtomicU32,
    reader_done_futex: AtomicU32,
    writer_mutex: AtomicU32,
    data_size: AtomicUsize,
}

#[test]
fn a_live_counted_message_is_written_and_read() {
    let header = CountedHeader::default();
    let live = LiveCounted {
        sequence_and_flags: &header.sequence_and_flags,
        active_readers_count: &header.active_readers_count,
        consumed_counts: &header.consumed_counts,
        target_read_count: &header.target_read_count,
        consumer_count: &header.consumer_count,
        writer_futex: &header.writer_futex,
        reader_done_futex: &header.reader_done_futex,
        writer_mutex: &header.writer_mutex,
        data_size: &header.data_size,
    };
    let mut start = counted_operation::StartWrite::new();
    while let Some(action) = start.action() {
        start.resume(live.perform(action).unwrap());
    }
    let mut publish = counted_operation::Publish::new(3);
    while let Some(action) = publish.action() {
        publish.resume(live.perform(action).unwrap());
    }
    assert_eq!(publish.phase, counted_operation::PublishPhase::Finished(1));
    let mut read = counted_operation::ReadOperation::new(0, false);
    while let Some(action) = read.action() {
        read.resume(live.perform(action).unwrap());
    }
    assert_eq!(read.phase, counted_operation::ReadPhase::Finished(Some(1)));
    assert_eq!(header.active_readers_count.load(Ordering::Relaxed), 1);
    let mut release = counted_operation::ReleaseOperation::Active;
    while let Some(action) = release.action() {
        release.resume(live.perform(action).unwrap());
    }
    assert_eq!(header.active_readers_count.load(Ordering::Relaxed), 0);
    assert_eq!(header.consumed_counts.load(Ordering::Relaxed), 1);
}

#[derive(Default)]
struct ZeroCopyHeader {
    sequence_and_flags: AtomicU64,
    data_sizes: [AtomicUsize; 2],
    reader_counts: [AtomicU16; 2],
    consumed_counts: [AtomicU16; 2],
    target_read_count: AtomicU16,
    consumer_count: AtomicU16,
    writer_futex: AtomicU32,
    reader_done_futex: AtomicU32,
    writer_mutex: AtomicU32,
}

#[test]
fn a_live_zero_copy_message_is_written_and_read() {
    let header = ZeroCopyHeader::default();
    let live = LiveZeroCopy {
        sequence_and_flags: &header.sequence_and_flags,
        first_data_size: &header.data_sizes[0],
        second_data_size: &header.data_sizes[1],
        first_reader_count: &header.reader_counts[0],
        second_reader_count: &header.reader_counts[1],
        first_consumed_count: &header.consumed_counts[0],
        second_consumed_count: &header.consumed_counts[1],
        target_read_count: &header.target_read_count,
        consumer_count: &header.consumer_count,
        writer_futex: &header.writer_futex,
        reader_done_futex: &header.reader_done_futex,
        writer_mutex: &header.writer_mutex,
    };
    let mut acquire = zero_copy_operation::AcquireBuffer::new();
    while let Some(action) = acquire.action() {
        acquire.resume(live.perform(action));
    }
    assert_eq!(acquire.phase, zero_copy_operation::AcquirePhase::Finished(Some(true)));
    let mut publish = zero_copy_operation::Publish::new(true, 4);
    while let Some(action) = publish.action() {
        publish.resume(live.perform(action));
    }
    assert_eq!(publish.phase, zero_copy_operation::PublishPhase::Finished(Some(1)));
    assert_eq!(header.data_sizes[1].load(Ordering::Relaxed), 4);
    let mut read = zero_copy_operation::ReadOperation::new(0, true);
    while let Some(action) = read.action() {
        read.resume(live.perform(action));
    }
    assert_eq!(
        read.phase,
        zero_copy_operation::ReadPhase::Holding { buffer_idx: true, sequence: 1 }
    );
    assert_eq!(header.reader_counts[1].load(Ordering::Relaxed), 1);
    let mut release = zero_copy_operation::ReleaseOperation::new(true);
    while let Some(action) = release.action() {
        release.resume(live.perform(action));
    }
    assert_eq!(header.reader_counts[1].load(Ordering::Relaxed), 0);
    assert_eq!(header.consumed_counts[1].load(Ordering::Relaxed), 1);
}
