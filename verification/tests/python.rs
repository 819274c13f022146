use rs_ipc::python::bytes::RustPyBytes;
use rs_ipc::python::cursor::{Cursor, NoRoom};
use rs_ipc::python::guards::{GuardError, Released};
use rs_ipc::python::message::{
    check_name, check_open, check_write, HandleError, PythonSharedMessage, ValueError, WritePath,
};
use rs_ipc::python::operation_mode::{OperationMode, PermissionError};
use rs_ipc::python::queue_data::SenderQueueData;
use rs_ipc::python::read_all::read_all;
use rs_ipc::python::reader_wait_policy::ReaderWaitPolicy;
use rs_ipc::python::threads::{
    ReaderAction, ReaderEvent, ReaderPhase, ReaderThread, WriterAction, WriterEvent, WriterPhase,
    WriterThread,
};
use rs_ipc::python::zero_copy_message::{CreateError, PythonZeroCopySharedMessage};
use rs_ipc::SharedMessage;

const DEFAULT_SIZE: usize = 1024 * 1024;

fn get_test_data() -> Vec<u8> {
    let mut data = vec![0u8; 1024 * 100]; // 100 KB
    for i in 0..data.len() {
        data[i] = (i % 255) as u8;
    }
    data
}

fn init(
    name: &str,
    op_mode: OperationMode,
    reader_wait_policy: ReaderWaitPolicy,
) -> PythonSharedMessage {
    match PythonSharedMessage::create(name.to_string(), DEFAULT_SIZE, op_mode, reader_wait_policy) {
        Ok(memory) => memory,
        Err(error) => panic!("{:?}", error),
    }
}

/// Lets the writer thread go on as far as it can.
fn run_writer(memory: &mut PythonSharedMessage) {
    while memory.advance_writer() {}
}

#[test]
fn sync_write_try_read() {
    let data_vec = (0u8..255u8).collect::<Vec<_>>();

    let mut memory =
        init("sync_write_try_read", OperationMode::WriteSync, ReaderWaitPolicy::Count(0));
    let none = memory.read(false);
    assert!(none.is_none());

    memory.write_sync(&data_vec);
    let version = memory.last_written_version();

    let bytes = memory.read(false).unwrap();
    assert_eq!(bytes.0, data_vec);
    assert_eq!(version, memory.last_read_version());

    assert!(memory.read(false).is_none());
    memory.stop();
    assert!(memory.is_stopped());
    assert!(memory.read(true).is_none());
    assert!(memory.read(false).is_none());
}

#[test]
fn sync_write_blocking_read() {
    let data_vec = (0u8..255u8).collect::<Vec<_>>();

    let mut memory =
        init("sync_write_blocking_read", OperationMode::WriteSync, ReaderWaitPolicy::Count(0));
    assert!(memory.read(false).is_none());

    memory.write_sync(&data_vec);
    let version = memory.last_written_version();

    let bytes = memory.read(true).unwrap();
    assert_eq!(bytes.0, data_vec);
    assert_eq!(version, memory.last_read_version());

    assert!(memory.read(false).is_none());
    memory.stop();
    assert!(memory.is_stopped());
}

#[test]
fn message_async_write() {
    let mut memory = init("async_write", OperationMode::ReadSync, ReaderWaitPolicy::Count(0));

    memory.write_async(&[1]).unwrap();
    memory.write_async(&[2]).unwrap();
    memory.write_async(&[3]).unwrap();
    memory.write_async(&[4]).unwrap();
    run_writer(&mut memory);
    assert_eq!(memory.is_new_version_available(), Ok(true));
    assert_eq!(memory.read(true).unwrap(), RustPyBytes::new(&[4]));
    memory.stop();
}

#[test]
fn message_async_write_try_read() {
    let data = (0u8..255u8).collect::<Vec<_>>();

    let mut memory = init("async_write_try_read", OperationMode::ReadSync, ReaderWaitPolicy::All());
    let none = memory.read(false);
    assert!(none.is_none());

    memory.write_async(&data).unwrap();
    run_writer(&mut memory);
    let version = memory.last_written_version();

    let bytes = memory.read(false).unwrap();
    assert_eq!(bytes.0, data);
    assert_eq!(version, memory.last_read_version());

    assert!(memory.read(false).is_none());
    memory.stop();
}

#[test]
fn message_async_write_blocking_read() {
    let data = get_test_data();

    let mut memory =
        init("async_write_blocking_read", OperationMode::ReadSync, ReaderWaitPolicy::All());

    memory.write_async(&data).unwrap();
    run_writer(&mut memory);
    let version = memory.last_written_version();

    let bytes = memory.read(true).unwrap();
    assert_eq!(bytes.0, data);
    assert_eq!(version, memory.last_read_version());
    memory.stop();
}

#[test]
fn message_multiple_writes() {
    let mut memory =
        init("async_multiple_writes", OperationMode::ReadSync, ReaderWaitPolicy::All());

    for i in 0..255 {
        memory.write_async(&[i]).unwrap();
    }

    for i in 0..255 {
        run_writer(&mut memory);
        assert_eq!(memory.read(true).unwrap().0, &[i]);
    }

    memory.stop();
}

#[test]
fn tests_multiple_writes() {
    let mut memory =
        init("async_multiple_writes", OperationMode::ReadSync, ReaderWaitPolicy::All());

    for i in 0..255 {
        memory.write_async(&[i]).unwrap();
        // The writer thread may also run in between.
        run_writer(&mut memory);
    }

    for i in 0..255 {
        run_writer(&mut memory);
        assert_eq!(memory.read(true).unwrap().as_slice(), &[i]);
    }

    memory.stop();
}

#[test]
fn write_multiple_readers() {
    let data = get_test_data();
    let mut memory =
        init("write_multiple_readers", OperationMode::WriteSync, ReaderWaitPolicy::All());
    let mut versions = [0u64; 5];
    for _ in versions {
        memory.shared_memory.add_reader();
    }

    for _ in 0..100 {
        assert!(!memory.shared_memory.write_would_wait());
        memory.write_sync(&data);
        for version in versions.iter_mut() {
            let guard = memory.shared_memory.read(*version, true).unwrap();
            *version = guard.sequence();
            assert_eq!(guard.data(&memory.shared_memory), data);
            guard.release(&mut memory.shared_memory);
        }
    }

    memory.stop();
}

#[test]
fn a_handle_that_reads_in_the_background() {
    let mut memory = init("background", OperationMode::ReadAsync, ReaderWaitPolicy::All());
    assert!(!memory.advance_reader());
    assert!(memory.read(false).is_none());
    assert!(memory.read_would_wait(true));

    memory.write_sync(b"one");
    assert!(memory.advance_reader());
    memory.write_sync(b"two");
    assert!(memory.advance_reader());
    assert!(!memory.advance_reader());

    // What was queued comes out in order.
    assert_eq!(memory.read(true).unwrap(), RustPyBytes::new(b"one"));
    assert_eq!(memory.last_read_version(), 1);
    assert_eq!(memory.read(false).unwrap(), RustPyBytes::new(b"two"));
    assert_eq!(memory.last_read_version(), 2);

    memory.stop();
    assert!(memory.advance_reader());
    assert!(!memory.read_would_wait(true));
    assert!(memory.read(true).is_none());
    assert!(!memory.advance_reader());
}

#[test]
fn a_stopped_writer_thread_ends() {
    let mut memory = init("ends", OperationMode::WriteAsync, ReaderWaitPolicy::Count(0));
    assert_eq!(memory.write(b"one"), Ok(None));
    assert!(memory.advance_writer());
    assert_eq!(memory.last_written_version(), 1);
    memory.stop();
    assert!(!memory.advance_writer());
    // A new thread finds the message stopped and ends.
    assert_eq!(memory.write(b"two"), Ok(None));
    assert_eq!(memory.write(b"three"), Ok(None));
    assert!(memory.advance_writer());
    assert!(!memory.advance_writer());
    assert_eq!(
        memory.write(b"four"),
        Err(HandleError::Value(ValueError::QueueStopped))
    );
    assert_eq!(memory.last_written_version(), 1);
}

#[test]
fn names_are_checked() {
    assert_eq!(check_name("good"), Ok(()));
    assert_eq!(check_name(""), Err(ValueError::EmptyName));
    assert_eq!(check_name("ba\0d"), Err(ValueError::NulInName));
    assert_eq!(check_open("", OperationMode::CreateOnly), Err(ValueError::EmptyName));
    assert_eq!(check_open("n", OperationMode::CreateOnly), Err(ValueError::CreateMode));
    assert_eq!(check_open("\0", OperationMode::ReadSync), Err(ValueError::NulInName));
    assert_eq!(check_open("n", OperationMode::WriteAsync), Ok(()));
    assert!(PythonSharedMessage::create(
        String::new(),
        8,
        OperationMode::ReadSync,
        ReaderWaitPolicy::All()
    )
    .is_err());
}

#[test]
fn permissions_are_checked() {
    let modes = [
        (OperationMode::CreateOnly, false, false),
        (OperationMode::ReadSync, true, false),
        (OperationMode::ReadAsync, true, false),
        (OperationMode::WriteSync, false, true),
        (OperationMode::WriteAsync, false, true),
    ];
    for (mode, reads, writes) in modes {
        assert_eq!(mode.can_read(), reads);
        assert_eq!(mode.can_write(), writes);
        assert_eq!(mode.read_permission().is_ok(), reads);
        assert_eq!(mode.write_permission().is_ok(), writes);
        if reads {
            mode.check_read_permission();
        }
        if writes {
            mode.check_write_permission();
        }
    }
    assert_eq!(
        OperationMode::WriteSync.read_permission().unwrap_err().message(),
        "Shared memory was opened as write-only"
    );
    assert_eq!(
        OperationMode::ReadSync.write_permission().unwrap_err().message(),
        "Shared memory was opened as read-only"
    );
}

#[test]
fn writes_are_checked() {
    assert_eq!(check_write(OperationMode::WriteSync, 4, 4), Ok(WritePath::Sync));
    assert_eq!(check_write(OperationMode::WriteAsync, 4, 4), Ok(WritePath::Async));
    assert_eq!(
        check_write(OperationMode::WriteSync, 5, 4),
        Err(HandleError::Value(ValueError::TooLarge { max_size: 4, size: 5 }))
    );
    assert_eq!(
        check_write(OperationMode::ReadSync, 5, 4),
        Err(HandleError::Permission(PermissionError::ReadOnly))
    );
    let mut memory = init("checked", OperationMode::ReadSync, ReaderWaitPolicy::All());
    assert_eq!(
        memory.write(b"x"),
        Err(HandleError::Permission(PermissionError::ReadOnly))
    );
    assert!(memory.write_guard().is_err());
    let mut memory = init("checked", OperationMode::WriteSync, ReaderWaitPolicy::All());
    assert_eq!(memory.write(b"x"), Ok(Some(1)));
    assert_eq!(memory.capacity(), DEFAULT_SIZE);
    assert_eq!(memory.name(), "checked");
    assert!(memory.read_py(false).is_err());
    assert!(memory.read_guard(false).is_err());
    assert_eq!(memory.is_new_version_available(), Err(PermissionError::WriteOnly));
}

#[test]
fn wait_policies_become_counts() {
    assert_eq!(ReaderWaitPolicy::All().to_count(), u32::MAX);
    assert_eq!(ReaderWaitPolicy::Count(3).to_count(), 3);
    assert_eq!(ReaderWaitPolicy::All().to_target(), u16::MAX);
    assert_eq!(ReaderWaitPolicy::Count(3).to_target(), 3);
    assert_eq!(ReaderWaitPolicy::Count(65_535).to_target(), u16::MAX);
    assert_eq!(ReaderWaitPolicy::Count(65_536).to_target(), u16::MAX);
}

#[test]
fn a_handle_counts_as_a_reader_while_it_is_open() {
    let memory = init("counted", OperationMode::CreateOnly, ReaderWaitPolicy::Count(1));
    let message = memory.close();
    assert_eq!(message.get_reader_state().consumers, 0);
    let reader = match PythonSharedMessage::open(message, "counted".to_string(), OperationMode::ReadSync) {
        Ok(reader) => reader,
        Err(error) => panic!("{:?}", error),
    };
    assert_eq!(reader.shared_memory.get_reader_state().consumers, 1);
    let message = reader.close();
    assert_eq!(message.get_reader_state().consumers, 0);
    assert!(PythonSharedMessage::open(message, "counted".to_string(), OperationMode::CreateOnly)
        .is_err());
}

#[test]
fn a_read_guard_is_read_like_a_file() {
    let mut memory = init("file", OperationMode::ReadSync, ReaderWaitPolicy::Count(0));
    memory.write_sync(b"hello world");
    let mut guard = memory.read_guard(true).unwrap().unwrap();
    assert_eq!(memory.last_read_version(), 1);
    assert_eq!(guard.len(&memory), 11);
    assert_eq!(guard.sequence(), Ok(1));
    assert!(guard.readable() && guard.seekable() && !guard.writable());
    assert_eq!(guard.read(&memory, Some(5)).unwrap(), RustPyBytes::new(b"hello"));
    assert_eq!(guard.tell(), 5);
    assert_eq!(guard.read(&memory, Some(0)).unwrap(), RustPyBytes::new(b""));
    assert_eq!(guard.read(&memory, Some(-1)).unwrap(), RustPyBytes::new(b" world"));
    assert_eq!(guard.read(&memory, None).unwrap(), RustPyBytes::new(b""));
    assert_eq!(guard.seek(6), 6);
    assert_eq!(guard.read(&memory, Some(100)).unwrap(), RustPyBytes::new(b"world"));
    assert_eq!(guard.seek(100), 100);
    assert_eq!(guard.read(&memory, None).unwrap(), RustPyBytes::new(b""));
    assert_eq!(guard.tell(), 100);
    assert_eq!(guard.to_bytes(&memory).unwrap(), RustPyBytes::new(b"hello world"));
    guard.release(&mut memory);
    guard.release(&mut memory);
    assert_eq!(memory.shared_memory.get_reader_state().active_readers, 0);
    assert_eq!(guard.len(&memory), 0);
    assert_eq!(guard.sequence(), Err(Released));
    assert!(guard.read(&memory, None).is_err());
    assert!(guard.to_bytes(&memory).is_err());
    assert!(memory.read_guard(false).unwrap().is_none());
}

#[test]
fn a_write_guard_is_written_like_a_file() {
    let mut memory =
        match PythonSharedMessage::create("file".to_string(), 8, OperationMode::WriteSync, ReaderWaitPolicy::Count(0)) {
            Ok(memory) => memory,
            Err(error) => panic!("{:?}", error),
        };
    let mut guard = memory.write_guard().unwrap().unwrap();
    assert_eq!(guard.len(&memory), Ok(8));
    assert!(!guard.readable() && guard.seekable() && guard.writable());
    assert_eq!(guard.write(&mut memory, b"abc"), Ok(3));
    assert_eq!(guard.write(&mut memory, b"de"), Ok(2));
    assert_eq!(guard.tell(), 5);
    assert_eq!(
        guard.write(&mut memory, b"fghi"),
        Err(GuardError::NoRoom(NoRoom { cursor: 5, writing: 4, capacity: 8 }))
    );
    assert_eq!(guard.seek(1), 1);
    assert_eq!(guard.write(&mut memory, b"X"), Ok(1));
    assert_eq!(guard.seek(5), 5);
    assert_eq!(guard.publish(&mut memory, None), Ok(Some(1)));
    assert_eq!(memory.last_written_version(), 1);
    assert_eq!(memory.read(false).unwrap(), RustPyBytes::new(b"aXcde"));
    assert_eq!(guard.publish(&mut memory, None), Err(Released));
    assert_eq!(guard.len(&memory), Err(Released));
    assert_eq!(guard.write(&mut memory, b"z"), Err(GuardError::Released(Released)));

    let mut guard = memory.write_guard().unwrap().unwrap();
    assert_eq!(guard.publish(&mut memory, Some(9)), Ok(None));
    let mut guard = memory.write_guard().unwrap().unwrap();
    assert_eq!(guard.publish(&mut memory, Some(2)), Ok(Some(2)));
    assert_eq!(memory.read(false).unwrap(), RustPyBytes::new(b"aX"));
    let mut guard = memory.write_guard().unwrap().unwrap();
    guard.release(&mut memory);
    assert!(!memory.shared_memory.write_would_wait());
    let mut guard = memory.write_guard().unwrap().unwrap();
    memory.stop();
    assert_eq!(guard.publish(&mut memory, Some(1)), Ok(None));
    assert_eq!(memory.last_written_version(), 2);
    assert!(memory.shared_memory.get_sequence_state().writing_in_progress);
    assert!(memory.write_guard().unwrap().is_none());
}

#[test]
fn cursors_move() {
    let mut cursor = Cursor::new();
    assert_eq!(cursor.take(10, Some(4)), (0, 4));
    assert_eq!(cursor.take(10, None), (4, 10));
    assert_eq!(cursor.take(10, None), (10, 10));
    assert_eq!(cursor.seek(2), 2);
    assert_eq!(cursor.room(8, 10), Ok((2, 10)));
    assert_eq!(cursor.room(9, 10), Err(NoRoom { cursor: 2, writing: 9, capacity: 10 }));
    cursor.advance(3);
    assert_eq!(cursor.tell(), 5);
}

#[test]
fn bytes_are_copied() {
    let bytes = RustPyBytes::new(b"abc");
    assert_eq!(bytes.len(), 3);
    assert_eq!(bytes.as_slice(), b"abc");
    assert_eq!(bytes.clone(), bytes);
    assert_eq!(SenderQueueData::new(b"xyz").bytes(), b"xyz");
}

#[test]
fn many_handles_are_read_at_once() {
    let mut readers: Vec<PythonSharedMessage> = Vec::new();
    for i in 0..3u8 {
        let mut memory = init("many", OperationMode::ReadSync, ReaderWaitPolicy::Count(0));
        if i != 1 {
            memory.write_sync(&[i]);
        }
        readers.push(memory);
    }
    let all = read_all(&mut readers);
    assert_eq!(
        all,
        vec![Some(RustPyBytes::new(&[0])), None, Some(RustPyBytes::new(&[2]))]
    );
    assert_eq!(read_all(&mut readers), vec![None, None, None]);
    assert_eq!(readers[2].last_read_version(), 1);
}

#[test]
fn the_reader_thread_reads_until_the_stop() {
    let mut thread = ReaderThread::new();
    assert_eq!(thread.action(), Some(ReaderAction::IsStopped));
    thread.resume(ReaderEvent::Stopped(false));
    assert_eq!(thread.action(), Some(ReaderAction::Read { last_seen: 0 }));
    thread.resume(ReaderEvent::Message(None));
    assert_eq!(thread.action(), Some(ReaderAction::IsStopped));
    thread.resume(ReaderEvent::Stopped(false));
    thread.resume(ReaderEvent::Message(Some(4)));
    assert_eq!(thread.action(), Some(ReaderAction::Send));
    thread.resume(ReaderEvent::Sent(true));
    thread.resume(ReaderEvent::Stopped(false));
    assert_eq!(thread.action(), Some(ReaderAction::Read { last_seen: 4 }));
    thread.resume(ReaderEvent::Message(Some(5)));
    thread.resume(ReaderEvent::Sent(false));
    assert_eq!(thread.phase, ReaderPhase::Finished);
    assert!(thread.is_finished());
    assert_eq!(thread.action(), None);
}

#[test]
fn the_writer_thread_writes_until_the_stop() {
    let mut thread = WriterThread::new();
    assert_eq!(thread.action(), Some(WriterAction::Receive));
    thread.resume(WriterEvent::Received(true));
    assert_eq!(thread.action(), Some(WriterAction::Write));
    thread.resume(WriterEvent::Written(Some(7)));
    assert_eq!(thread.action(), Some(WriterAction::Store { version: 7 }));
    thread.resume(WriterEvent::Stored);
    thread.resume(WriterEvent::Received(true));
    thread.resume(WriterEvent::Written(None));
    assert_eq!(thread.phase, WriterPhase::Finished);
    assert!(thread.is_finished());
    let mut thread = WriterThread::new();
    thread.resume(WriterEvent::Received(false));
    assert_eq!(thread.action(), None);
}

fn init_zero_copy(op_mode: OperationMode) -> PythonZeroCopySharedMessage {
    match PythonZeroCopySharedMessage::create(
        "zero_copy".to_string(),
        17,
        op_mode,
        ReaderWaitPolicy::Count(0),
    ) {
        Ok(memory) => memory,
        Err(_) => panic!("no memory"),
    }
}

#[test]
fn a_zero_copy_handle_is_written_and_read() {
    let writer = init_zero_copy(OperationMode::WriteSync);
    assert_eq!(writer.payload_max_size(), 8);
    assert_eq!(writer.name(), "zero_copy");
    let mut writer = writer;
    assert_eq!(writer.write(b"data"), Ok(Some(1)));
    assert_eq!(
        writer.write(b"too large"),
        Err(HandleError::Value(ValueError::TooLarge { max_size: 8, size: 9 }))
    );
    assert!(writer.read_copy(false).is_err());
    assert!(writer.read_guard(false).is_err());
    assert_eq!(writer.is_new_version_available(), Err(PermissionError::WriteOnly));

    let mut guard = writer.write_guard().unwrap().unwrap();
    assert_eq!(guard.len(&writer), 8);
    assert_eq!(guard.capacity(&writer), Ok(8));
    assert_eq!(guard.publish(&mut writer, 3), Ok(Some(2)));
    assert_eq!(guard.publish(&mut writer, 3), Err(Released));
    assert_eq!(guard.len(&writer), 0);
    assert_eq!(guard.capacity(&writer), Err(Released));
    let mut guard = writer.write_guard().unwrap().unwrap();
    guard.release(&mut writer);
    guard.release(&mut writer);
    assert_eq!(writer.write(b"next"), Ok(Some(3)));

    let mut reader = match PythonZeroCopySharedMessage::open(
        writer.close(),
        "zero_copy".to_string(),
        OperationMode::ReadSync,
    ) {
        Ok(reader) => reader,
        Err(error) => panic!("{:?}", error),
    };
    assert_eq!(reader.is_new_version_available(), Ok(true));
    assert!(!reader.read_would_wait(true));
    let mut held = reader.read_guard(true).unwrap().unwrap();
    assert_eq!(held.sequence(), Ok(3));
    assert_eq!(held.len(&reader), 4);
    assert_eq!(held.to_bytes(&reader).unwrap(), RustPyBytes::new(b"next"));
    held.release(&mut reader);
    assert_eq!(held.sequence(), Err(Released));
    assert_eq!(held.len(&reader), 0);
    assert!(held.to_bytes(&reader).is_err());
    assert_eq!(reader.last_read_version(), 3);
    assert!(reader.read_would_wait(true));
    assert_eq!(reader.read_copy(false), Ok(None));
    reader.stop();
    assert!(reader.is_stopped());
    assert_eq!(reader.read_copy(true), Ok(None));
    assert_eq!(
        reader.write(b"x"),
        Err(HandleError::Permission(PermissionError::ReadOnly))
    );
    assert!(reader.write_guard().is_err());
}

#[test]
fn a_zero_copy_handle_copies() {
    let mut writer = init_zero_copy(OperationMode::WriteSync);
    assert_eq!(writer.write(b"copy"), Ok(Some(1)));
    writer.stop();
    assert_eq!(writer.write(b"late"), Ok(None));
    assert!(writer.write_guard().unwrap().is_none());
    let mut reader = PythonZeroCopySharedMessage::new(
        writer.close(),
        "zero_copy".to_string(),
        OperationMode::ReadAsync,
    );
    assert_eq!(reader.read_copy(true), Ok(Some(RustPyBytes::new(b"copy"))));
    assert_eq!(reader.last_read_version(), 1);
}

#[test]
fn too_little_memory_for_two_buffers() {
    assert!(matches!(
        PythonZeroCopySharedMessage::create(
            "small".to_string(),
            1,
            OperationMode::ReadSync,
            ReaderWaitPolicy::All()
        ),
        Err(CreateError::NoRoom)
    ));
    assert!(matches!(
        PythonZeroCopySharedMessage::create(
            String::new(),
            8,
            OperationMode::ReadSync,
            ReaderWaitPolicy::All()
        ),
        Err(CreateError::Value(ValueError::EmptyName))
    ));
}

#[test]
fn a_handle_on_a_message_of_ones_own() {
    let mut message = SharedMessage::zeroed(4);
    message.write(b"old").unwrap();
    let mut memory =
        PythonSharedMessage::new(message, "own".to_string(), OperationMode::ReadSync);
    let bytes = memory.read_py(true).unwrap().unwrap();
    assert_eq!(bytes, RustPyBytes::new(b"old"));
}
