use rs_ipc::zero_copy::message::ZeroCopySharedMessage;
use rs_ipc::zero_copy::operation::{
    AcquireBuffer, AcquirePhase, Publish, PublishPhase, ReadOperation, ReadPhase,
};
use rs_ipc::zero_copy::read_guard::MessageReadGuard;
use rs_ipc::zero_copy::region::SequenceState;
use rs_ipc::zero_copy::write_guard::WriteGuard;

const DEFAULT_SIZE: usize = 1024 * 1024;

fn init(target_read_count: u16) -> ZeroCopySharedMessage {
    let mut memory = ZeroCopySharedMessage::zeroed(DEFAULT_SIZE).unwrap();
    memory.set_target_read_count(target_read_count);
    memory
}

/// A writer in another thread: gets a buffer, writes its data there, publishes.
struct Writer<'a> {
    acquire: AcquireBuffer,
    publish: Option<Publish>,
    data: &'a [u8],
}

impl<'a> Writer<'a> {
    fn new(data: &'a [u8]) -> Self {
        Writer { acquire: AcquireBuffer::new(), publish: None, data }
    }

    /// Goes on until it is finished or sleeps.
    fn run(&mut self, memory: &mut ZeroCopySharedMessage) -> Option<Option<u64>> {
        while let Some(action) = self.acquire.action() {
            let event = memory.perform(action)?;
            self.acquire.resume(event);
            if let Some(mut guard) = WriteGuard::granted(self.acquire) {
                guard.buffer_mut(memory)[..self.data.len()].copy_from_slice(self.data);
            }
        }
        let buffer_idx = match self.acquire.phase {
            AcquirePhase::Finished(Some(buffer_idx)) => buffer_idx,
            _ => return Some(None),
        };
        let size = self.data.len();
        let publish = self.publish.get_or_insert_with(|| Publish::new(buffer_idx, size));
        while let Some(action) = publish.action() {
            let event = memory.perform(action)?;
            publish.resume(event);
        }
        match publish.phase {
            PublishPhase::Finished(sequence) => Some(sequence),
            _ => None,
        }
    }
}

fn run_reader(op: &mut ReadOperation, memory: &mut ZeroCopySharedMessage) -> bool {
    while let Some(action) = op.action() {
        match memory.perform(action) {
            Some(event) => op.resume(event),
            None => return false,
        }
    }
    true
}

#[test]
fn basic_write_read() {
    let data = b"Hello, zero-copy world!";
    let mut memory = init(0);

    let seq = memory.write(data).unwrap();
    assert_eq!(seq, 1);

    let guard = memory.try_read(0).unwrap();
    assert_eq!(guard.sequence(), 1);
    assert_eq!(guard.data(&memory), data);

    assert!(memory.try_read(1).is_none());
}

#[test]
fn blocking_read() {
    let data = b"Blocking read test";
    let mut memory = init(0);

    let mut reader = ReadOperation::new(0, true);
    assert!(!run_reader(&mut reader, &mut memory));
    assert!(memory.read_would_wait(0));
    memory.write(data).unwrap();
    assert!(run_reader(&mut reader, &mut memory));
    assert_eq!(reader.phase, ReadPhase::Holding { buffer_idx: true, sequence: 1 });
    let held = MessageReadGuard::granted(reader).unwrap();
    assert_eq!((held.buffer_idx(), held.sequence()), (true, 1));
    assert_eq!(held.data(&memory), data);

    let guard = memory.read(0).unwrap();
    assert_eq!(guard.data(&memory), data);
}

#[test]
fn multiple_readers() {
    let data = b"Multiple readers test";
    let mut memory = init(0);

    memory.add_reader();
    memory.add_reader();

    memory.write(data).unwrap();

    let guard1 = memory.try_read(0).unwrap();
    let guard2 = memory.try_read(0).unwrap();

    assert_eq!(guard1.data(&memory), data);
    assert_eq!(guard2.data(&memory), data);
}

#[test]
fn writer_waits_for_readers() {
    let mut memory = init(0);
    memory.add_reader();

    memory.write(b"First").unwrap();
    let guard1 = memory.try_read(0).unwrap();

    // The second write goes into the other buffer.
    memory.write(b"Second").unwrap();
    let guard2 = memory.try_read(1).unwrap();

    // Now both buffers are held by readers.
    let mut writer = Writer::new(b"Third");
    assert_eq!(writer.run(&mut memory), None);
    assert_eq!(guard1.data(&memory), b"First");

    guard1.release(&mut memory);

    let seq = writer.run(&mut memory).unwrap().unwrap();
    assert_eq!(seq, 3);

    assert_eq!(guard2.data(&memory), b"Second");
}

#[test]
fn stop_flag() {
    let mut memory = init(0);

    memory.write(b"Before stop").unwrap();

    memory.stop();
    assert!(memory.is_stopped());

    assert!(memory.write(b"After stop").is_none());

    let guard = memory.try_read(0).unwrap();
    assert_eq!(guard.data(&memory), b"Before stop");

    assert!(memory.read(1).is_none());
}

#[test]
fn double_buffering() {
    let mut memory = init(0);

    let seq1 = memory.write(b"Message 1").unwrap();
    let guard1 = memory.try_read(0).unwrap();
    assert_eq!(guard1.sequence(), seq1);
    assert_eq!(guard1.data(&memory), b"Message 1");

    let seq2 = memory.write(b"Message 2").unwrap();

    assert_eq!(guard1.data(&memory), b"Message 1");

    let guard2 = memory.try_read(seq1).unwrap();
    assert_eq!(guard2.sequence(), seq2);
    assert_eq!(guard2.data(&memory), b"Message 2");

    assert_eq!(guard1.data(&memory), b"Message 1");
    assert_eq!(guard2.data(&memory), b"Message 2");
}

#[test]
fn target_read_count_wait_for_one() {
    let mut memory = init(1);
    memory.add_reader();

    memory.write(b"Message 1").unwrap();

    let guard1 = memory.try_read(0).unwrap();
    assert_eq!(guard1.data(&memory), b"Message 1");

    let mut writer = Writer::new(b"Message 2");
    assert_eq!(writer.run(&mut memory), None);

    guard1.release(&mut memory);

    let seq2 = writer.run(&mut memory).unwrap().unwrap();
    assert_eq!(seq2, 2);

    let guard2 = memory.try_read(1).unwrap();
    assert_eq!(guard2.sequence(), 2);
    assert_eq!(guard2.data(&memory), b"Message 2");
}

#[test]
fn target_read_count_wait_for_all() {
    let mut memory = init(u16::MAX);
    memory.add_reader();
    memory.add_reader();

    memory.write(b"Message 1").unwrap();

    let guard1_r1 = memory.try_read(0).unwrap();
    let guard1_r2 = memory.try_read(0).unwrap();
    assert_eq!(guard1_r1.data(&memory), b"Message 1");
    assert_eq!(guard1_r2.data(&memory), b"Message 1");

    let mut writer = Writer::new(b"Message 2");
    assert_eq!(writer.run(&mut memory), None);

    guard1_r1.release(&mut memory);
    // All readers are needed.
    assert_eq!(writer.run(&mut memory), None);

    guard1_r2.release(&mut memory);

    let seq2 = writer.run(&mut memory).unwrap().unwrap();
    assert_eq!(seq2, 2);
}

#[test]
fn target_read_count_wait_for_specific() {
    let mut memory = init(2);
    memory.add_reader();
    memory.add_reader();
    memory.add_reader();

    memory.write(b"Message 1").unwrap();

    let guard1_r1 = memory.try_read(0).unwrap();
    let guard1_r2 = memory.try_read(0).unwrap();
    let guard1_r3 = memory.try_read(0).unwrap();

    let mut writer = Writer::new(b"Message 2");
    assert_eq!(writer.run(&mut memory), None);

    guard1_r1.release(&mut memory);
    assert_eq!(writer.run(&mut memory), None);

    guard1_r2.release(&mut memory);

    // The third reader is not waited for.
    let seq2 = writer.run(&mut memory).unwrap().unwrap();
    assert_eq!(seq2, 2);

    assert_eq!(guard1_r3.data(&memory), b"Message 1");
}

#[test]
fn target_read_count_fire_and_forget() {
    let mut memory = init(0);
    memory.add_reader();
    memory.add_reader();

    memory.write(b"Message 1").unwrap();

    let guard1_r1 = memory.try_read(0).unwrap();
    let guard1_r2 = memory.try_read(0).unwrap();

    let seq2 = memory.write(b"Message 2").unwrap();
    assert_eq!(seq2, 2);

    assert_eq!(guard1_r1.data(&memory), b"Message 1");
    assert_eq!(guard1_r2.data(&memory), b"Message 1");
}

#[test]
fn concurrent_write_while_reading() {
    let mut memory = init(0);

    memory.write(b"Message 1").unwrap();

    let guard1 = memory.try_read(0).unwrap();
    assert_eq!(guard1.data(&memory), b"Message 1");

    assert!(!memory.acquire_would_wait());
    assert!(!memory.publish_would_wait());
    let seq2 = memory.write(b"Message 2").unwrap();
    assert_eq!(seq2, 2);

    assert_eq!(guard1.data(&memory), b"Message 1");

    let guard2 = memory.try_read(0).unwrap();
    assert_eq!(guard2.data(&memory), b"Message 2");

    assert_eq!(guard1.data(&memory), b"Message 1");
    assert_eq!(guard2.data(&memory), b"Message 2");
}

#[test]
fn multiple_writers() {
    let mut memory = init(0);
    let num_writers = 5;
    let writes_per_writer = 10;

    for i in 0..writes_per_writer {
        let data: Vec<String> =
            (0..num_writers).map(|writer_id| format!("Writer {} message {}", writer_id, i)).collect();
        let mut writers: Vec<Writer> =
            data.iter().map(|message| Writer::new(message.as_bytes())).collect();
        // Each goes on as far as it can, until all are finished.
        let mut left = writers.len();
        while left > 0 {
            left = 0;
            for writer in writers.iter_mut() {
                if writer.run(&mut memory).is_none() {
                    left += 1;
                }
            }
        }
    }

    let final_seq = memory.current_sequence();
    assert_eq!(final_seq, (num_writers * writes_per_writer) as u64);
}

#[test]
fn multiple_writers_with_write_guard() {
    let mut memory = init(0);
    let num_writers = 5;

    for writer_id in 0..num_writers {
        let mut guard = memory.acquire_write_guard().unwrap();
        // Another writer has to wait for the lock.
        let mut other = Writer::new(b"");
        assert_eq!(other.run(&mut memory), None);
        let data = format!("Writer {} with guard", writer_id);
        let bytes = data.as_bytes();
        guard.buffer_mut(&mut memory)[..bytes.len()].copy_from_slice(bytes);
        assert_eq!(guard.publish(&mut memory, bytes.len()), Some(writer_id + 1));
        let read = memory.try_read(writer_id).unwrap();
        assert_eq!(read.data(&memory), bytes);
        read.release(&mut memory);
    }

    let final_seq = memory.current_sequence();
    assert_eq!(final_seq, num_writers);
}

#[test]
fn zero_copy_words_are_packed() {
    let state = SequenceState { sequence: 5, stopped: true, buffer_idx: false };
    assert_eq!(SequenceState::from(state.to_packed()), state);
    let state = SequenceState { sequence: 6, stopped: false, buffer_idx: true };
    assert_eq!(SequenceState::from(state.to_packed()), state);
    assert_eq!(
        SequenceState::from(0),
        SequenceState { sequence: 0, stopped: false, buffer_idx: false }
    );
}

#[test]
fn each_buffer_gets_half_of_the_space() {
    assert!(ZeroCopySharedMessage::zeroed(1).is_none());
    assert_eq!(ZeroCopySharedMessage::zeroed(2).unwrap().buffer_size(), 1);
    assert_eq!(ZeroCopySharedMessage::zeroed(9).unwrap().buffer_size(), 4);
    assert_eq!(ZeroCopySharedMessage::buffer_size_for(9, 0), Some(4));
    assert_eq!(ZeroCopySharedMessage::buffer_size_for(9, 3), Some(3));
    assert_eq!(ZeroCopySharedMessage::buffer_size_for(1, 3), None);
}

#[test]
fn a_buffer_too_small_is_not_published() {
    let mut memory = ZeroCopySharedMessage::zeroed(8).unwrap();
    let guard = memory.acquire_write_guard().unwrap();
    assert_eq!(guard.capacity(&memory), 4);
    assert_eq!(guard.publish(&mut memory, 5), None);
    assert_eq!(memory.current_sequence(), 0);
    assert!(!memory.acquire_would_wait());
    let guard = memory.acquire_write_guard().unwrap();
    guard.abandon(&mut memory);
    assert!(!memory.acquire_would_wait());
}

#[test]
fn a_stop_wakes_a_zero_copy_reader() {
    let mut memory = init(0);
    let mut reader = ReadOperation::new(0, true);
    assert!(!run_reader(&mut reader, &mut memory));
    memory.stop();
    assert!(run_reader(&mut reader, &mut memory));
    assert_eq!(reader.phase, ReadPhase::Nothing);
    assert!(MessageReadGuard::granted(reader).is_none());
}

#[test]
fn a_stop_frees_a_zero_copy_writer() {
    let mut memory = init(1);
    memory.add_reader();
    memory.write(b"Unread").unwrap();
    let mut writer = Writer::new(b"Next");
    assert_eq!(writer.run(&mut memory), None);
    memory.stop();
    assert_eq!(writer.run(&mut memory), Some(None));
    assert!(!memory.acquire_would_wait());
}

#[test]
fn zero_copy_readers_come_and_go() {
    let mut memory = init(1);
    assert_eq!(memory.get_target_read_count(), 1);
    memory.add_reader();
    memory.write(b"Unread").unwrap();
    assert!(memory.publish_would_wait());
    assert!(memory.has_new_data(0));
    memory.remove_reader();
    assert!(!memory.publish_would_wait());
    assert_eq!(memory.write(b"Next"), Some(2));
    let state = memory.get_state();
    assert_eq!((state.sequence, state.stopped, state.buffer_idx), (2, false, false));
}

#[test]
fn only_a_finished_start_grants_a_buffer() {
    let mut memory = init(0);
    assert!(WriteGuard::granted(AcquireBuffer::new()).is_none());
    memory.stop();
    let mut writer = Writer::new(b"Late");
    assert_eq!(writer.run(&mut memory), Some(None));
    assert!(WriteGuard::granted(writer.acquire).is_none());
}

#[test]
fn nobody_else_publishes_while_a_buffer_is_written() {
    let mut memory = init(0);
    memory.write(b"Latest").unwrap();
    let mut guard = memory.acquire_write_guard().unwrap();
    let mut other = Writer::new(b"Other");
    for _ in 0..3 {
        assert_eq!(other.run(&mut memory), None);
        assert_eq!(memory.current_sequence(), 1);
        let read = memory.try_read(0).unwrap();
        assert_eq!(read.data(&memory), b"Latest");
        read.release(&mut memory);
    }
    guard.buffer_mut(&mut memory)[..4].copy_from_slice(b"Mine");
    assert_eq!(guard.publish(&mut memory, 4), Some(2));
    assert_eq!(other.run(&mut memory), Some(Some(3)));
    let read = memory.try_read(2).unwrap();
    assert_eq!(read.data(&memory), b"Other");
}

#[test]
fn a_late_reader_is_not_forgotten() {
    let mut memory = init(0);
    memory.write(b"Message 1").unwrap();
    // A reader sees that the first message is the latest...
    let mut reader = ReadOperation::new(0, false);
    let event = memory.perform(reader.action().unwrap()).unwrap();
    reader.resume(event);
    // ...and registers in its buffer when the third is being written there.
    memory.write(b"Message 2").unwrap();
    let mut guard = memory.acquire_write_guard().unwrap();
    guard.buffer_mut(&mut memory)[..9].copy_from_slice(b"Message 3");
    let event = memory.perform(reader.action().unwrap()).unwrap();
    reader.resume(event);
    assert_eq!(guard.publish(&mut memory, 9), Some(3));
    // It finds the buffer to be the latest and holds it.
    assert!(run_reader(&mut reader, &mut memory));
    assert!(matches!(reader.phase, ReadPhase::Holding { buffer_idx: true, .. }));

    // So nobody gets that buffer to write.
    memory.write(b"Message 4").unwrap();
    assert!(memory.acquire_would_wait());
    let mut writer = Writer::new(b"Message 5");
    assert_eq!(writer.run(&mut memory), None);
}
