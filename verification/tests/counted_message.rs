use rs_ipc::counted_message::guard::{MessageReadGuard, MessageWriteGuard};
use rs_ipc::counted_message::operation::{
    Publish, ReadOperation, ReadPhase, StartPhase, StartWrite,
};
use rs_ipc::counted_message::SharedMessage;

fn run_reader(op: &mut ReadOperation, message: &mut SharedMessage) -> bool {
    while let Some(action) = op.action() {
        match message.perform(action) {
            Some(event) => op.resume(event),
            None => return false,
        }
    }
    true
}

fn run_start(op: &mut StartWrite, message: &mut SharedMessage) -> bool {
    while let Some(action) = op.action() {
        match message.perform(action) {
            Some(event) => op.resume(event),
            None => return false,
        }
    }
    true
}

/// Goes on with a write whose start is finished.
fn write_granted(op: StartWrite, data: &[u8], message: &mut SharedMessage) {
    let mut guard = MessageWriteGuard::granted(op).unwrap();
    guard.data_mut(message)[..data.len()].copy_from_slice(data);
    let mut publish = Publish::new(data.len());
    while let Some(action) = publish.action() {
        let event = message.perform(action).unwrap();
        publish.resume(event);
    }
}

#[test]
fn counted_write_is_read_back() {
    let mut msg = SharedMessage::zeroed(16);
    assert!(!msg.has_new_data(0));
    assert_eq!(msg.write(b"hello"), Some(1));
    assert!(msg.has_new_data(0));
    assert_eq!(msg.current_sequence(), 1);
    let guard = msg.read(0, false).unwrap();
    assert_eq!(guard.sequence(), 1);
    assert_eq!(guard.data(&msg), b"hello");
    guard.release(&mut msg);
    assert!(msg.read(1, false).is_none());
}

#[test]
fn counted_writer_waits_for_consumers() {
    let mut msg = SharedMessage::zeroed(16);
    msg.set_target_read_count(2);
    msg.add_reader();
    msg.add_reader();
    msg.write(b"one").unwrap();
    assert!(msg.write_would_wait());
    let mut writer = StartWrite::new();
    assert!(!run_start(&mut writer, &mut msg));
    for _ in 0..2 {
        assert!(!run_start(&mut writer, &mut msg));
        let guard = msg.read(0, true).unwrap();
        guard.release(&mut msg);
    }
    assert!(run_start(&mut writer, &mut msg));
    assert_eq!(writer.phase, StartPhase::Finished(true));
    write_granted(writer, b"two", &mut msg);
    let guard = msg.read(1, false).unwrap();
    assert_eq!(guard.data(&msg), b"two");
}

#[test]
fn counted_sequence_counts_publications() {
    let mut msg = SharedMessage::zeroed(4);
    for i in 0..25 {
        let mut first = StartWrite::new();
        let mut second = StartWrite::new();
        assert!(MessageWriteGuard::granted(first).is_none());
        assert!(run_start(&mut first, &mut msg));
        assert!(!run_start(&mut second, &mut msg));
        assert_eq!(msg.current_sequence(), 2 * i as u64);
        write_granted(first, &[0, i], &mut msg);
        assert!(run_start(&mut second, &mut msg));
        write_granted(second, &[1, i], &mut msg);
        let guard = msg.read(0, false).unwrap();
        assert_eq!(guard.data(&msg), [1, i]);
        guard.release(&mut msg);
    }
    assert_eq!(msg.current_sequence(), 50);
}

#[test]
fn counted_writer_does_not_wait_for_readers_that_left() {
    let mut msg = SharedMessage::zeroed(16);
    msg.set_target_read_count(2);
    msg.add_reader();
    msg.write(b"one").unwrap();
    assert!(msg.write_would_wait());
    msg.remove_reader();
    assert!(!msg.write_would_wait());
    assert_eq!(msg.write(b"two"), Some(2));
}

#[test]
fn counted_reader_sleeps_until_data_comes() {
    let mut msg = SharedMessage::zeroed(16);
    let mut reader = ReadOperation::new(0, true);
    assert!(!run_reader(&mut reader, &mut msg));
    assert!(msg.read_would_wait(0, true));
    msg.write(b"data").unwrap();
    assert!(run_reader(&mut reader, &mut msg));
    assert_eq!(reader.phase, ReadPhase::Finished(Some(1)));
    assert!(msg.write_would_wait());
}

#[test]
fn counted_stop_ends_waiting() {
    let mut msg = SharedMessage::zeroed(16);
    let mut reader = ReadOperation::new(0, true);
    assert!(!run_reader(&mut reader, &mut msg));
    msg.stop();
    assert!(msg.is_stopped());
    assert!(run_reader(&mut reader, &mut msg));
    assert_eq!(reader.phase, ReadPhase::Finished(None));
    assert!(msg.write(b"late").is_none());
    assert!(msg.acquire_write_guard().is_none());
}

#[test]
fn counted_guard_writes_in_place() {
    let mut msg = SharedMessage::zeroed(4);
    let mut guard = msg.acquire_write_guard().unwrap();
    assert_eq!(guard.capacity(&msg), 4);
    guard.data_mut(&mut msg)[..2].copy_from_slice(b"ok");
    assert_eq!(guard.publish(&mut msg, 2), Some(1));
    let read = msg.read(0, false).unwrap();
    assert_eq!(read.data(&msg), b"ok");
    read.release(&mut msg);
    let guard = msg.acquire_write_guard().unwrap();
    assert_eq!(guard.publish(&mut msg, 5), None);
    let guard = msg.acquire_write_guard().unwrap();
    guard.abandon(&mut msg);
    assert_eq!(msg.current_sequence(), 1);
    assert_eq!(msg.capacity(), 4);
}

#[test]
fn counted_state_is_unpacked() {
    let mut msg = SharedMessage::zeroed(4);
    msg.write(b"x").unwrap();
    msg.stop();
    let state = msg.get_state();
    assert_eq!(state.sequence, 1);
    assert!(state.stopped);
    assert!(!state.writing_in_progress);
}

#[test]
fn counted_buffer_can_be_acquired() {
    let mut msg = SharedMessage::zeroed(4);
    assert!(!msg.write_would_wait());
    assert!(msg.acquire_write_buffer().is_some());
    assert!(msg.write_would_wait());
    assert!(msg.get_state().writing_in_progress);
}

#[test]
fn counted_guard_refused_after_a_stop_is_not_read() {
    let mut msg = SharedMessage::zeroed(8);
    msg.write(b"first").unwrap();
    let mut guard = msg.acquire_write_guard().unwrap();
    guard.data_mut(&mut msg)[..2].copy_from_slice(b"FI");
    msg.stop();
    assert_eq!(guard.publish(&mut msg, 5), None);
    assert_eq!(msg.current_sequence(), 1);
    let mut reader = ReadOperation::new(0, false);
    assert!(!run_reader(&mut reader, &mut msg));
    assert!(MessageReadGuard::granted(reader).is_none());
}

#[test]
fn counted_abandoned_write_is_not_read() {
    let mut msg = SharedMessage::zeroed(8);
    msg.write(b"first").unwrap();
    let mut guard = msg.acquire_write_guard().unwrap();
    guard.data_mut(&mut msg)[..5].copy_from_slice(b"never");
    guard.abandon(&mut msg);
    let mut reader = ReadOperation::new(0, true);
    assert!(!run_reader(&mut reader, &mut msg));
    assert!(msg.read(1, false).is_none());
    assert_eq!(msg.write(b"second"), Some(2));
    assert!(run_reader(&mut reader, &mut msg));
    let read = MessageReadGuard::granted(reader).unwrap();
    assert_eq!(read.sequence(), 2);
    assert_eq!(read.data(&msg), b"second");
}
