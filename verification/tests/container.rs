use rs_ipc::container::message::{Received, SharedMessage, StoppedAndVersion, Turn};
use rs_ipc::primitives::condvar::CondvarWait;

const WAIT: CondvarWait = CondvarWait { expected: 0, wake_locker: false };

#[test]
fn a_locked_message_is_written_and_read() {
    let mut message = SharedMessage::zeroed(8);
    assert_eq!(message.get_version(), StoppedAndVersion { stopped: false, version: 0 });
    assert!(message.try_read(0).is_none());
    assert_eq!(message.write(b"first"), Some(1));
    assert!(message.is_new_version_available(0));
    assert!(!message.is_new_version_available(1));
    assert_eq!(message.try_read(0), Some(Received { version: 1, data: b"first".to_vec() }));
    assert_eq!(message.try_read(1), None);
    assert_eq!(message.write(b"2nd"), Some(2));
    assert_eq!(
        message.blocking_read(1),
        Turn::Finished(Some(Received { version: 2, data: b"2nd".to_vec() }))
    );
}

#[test]
fn a_blocking_reader_waits() {
    let mut message = SharedMessage::zeroed(8);
    assert_eq!(message.blocking_read(0), Turn::Waiting(WAIT));
    message.stop();
    assert_eq!(message.blocking_read(0), Turn::Finished(None));
}

#[test]
fn a_writer_waits_for_readers_of_a_locked_message() {
    let mut message = SharedMessage::zeroed(8);
    message.add_reader();
    message.add_reader();
    // Nothing was written yet, so there is nothing to wait for.
    assert_eq!(message.write_waiting_for_readers(b"a", 2), Turn::Finished(Some(1)));
    assert_eq!(message.write_waiting_for_readers(b"b", 2), Turn::Waiting(WAIT));
    let _ = message.try_read(0);
    assert_eq!(message.write_waiting_for_readers(b"b", 2), Turn::Waiting(WAIT));
    assert_eq!(message.write_waiting_for_readers(b"b", 1), Turn::Finished(Some(2)));
    assert_eq!(message.write_waiting_for_readers(b"c", u32::MAX), Turn::Waiting(WAIT));
    message.remove_reader();
    message.remove_reader();
    assert_eq!(message.write_waiting_for_readers(b"c", u32::MAX), Turn::Finished(Some(3)));
}

#[test]
fn a_stopped_locked_message_takes_no_writes() {
    let mut message = SharedMessage::zeroed(8);
    message.add_reader();
    assert_eq!(message.write(b"kept"), Some(1));
    message.stop();
    assert!(message.is_stopped());
    assert_eq!(message.write(b"lost"), None);
    assert_eq!(message.write_waiting_for_readers(b"lost", 1), Turn::Finished(None));
    assert_eq!(message.get_version(), StoppedAndVersion { stopped: true, version: 1 });
    assert_eq!(message.try_read(0), Some(Received { version: 1, data: b"kept".to_vec() }));
}

#[test]
fn a_late_writer_keeps_the_stop() {
    let mut message = SharedMessage::zeroed(8);
    message.stop();
    assert_eq!(message.publish(b"late"), (1 << 63) + 1);
    assert!(message.is_stopped());
    assert_eq!(message.get_version().version, 1);
}

#[test]
fn sleepers_are_woken() {
    let mut message = SharedMessage::zeroed(8);
    assert_eq!(message.take_wakeups(), (0, 0));
    let _ = message.write(b"x");
    assert_eq!(message.take_wakeups(), (u32::MAX, 0));
    let _ = message.try_read(0);
    assert_eq!(message.take_wakeups(), (0, u32::MAX));
    message.add_reader();
    assert_eq!(message.take_wakeups(), (0, u32::MAX));
    message.stop();
    assert_eq!(message.take_wakeups(), (u32::MAX, u32::MAX));
    assert_eq!(message.take_wakeups(), (0, 0));
}
