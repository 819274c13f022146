use rs_ipc::primitives::shared_futex::{LockAction, CONTENDED};
use rs_ipc::shared_message::guard::{MessageReadGuard, MessageWriteGuard};
use rs_ipc::shared_message::operation::{
    Action, Channel, Event, ReadOperation, ReadPhase, ReaderChange, ReleaseOperation,
    ReleasePhase, UpdateOperation, UpdatePhase,
};
use rs_ipc::shared_message::packed::{next_sequence, ReadersStateCount, SequenceState};
use rs_ipc::shared_message::write_operation::{
    Publish, PublishPhase, StartPhase, StartWrite, StopOperation,
};
use rs_ipc::SharedMessage;

/// Runs a reader until it is finished or sleeps.
fn run_reader(op: &mut ReadOperation, message: &mut SharedMessage) -> bool {
    while let Some(action) = op.action() {
        match message.perform(action) {
            Some(event) => op.resume(event),
            None => return false,
        }
    }
    true
}

/// Runs a writer until it may write or sleeps.
fn run_start(op: &mut StartWrite, message: &mut SharedMessage) -> bool {
    while let Some(action) = op.action() {
        match message.perform(action) {
            Some(event) => op.resume(event),
            None => return false,
        }
    }
    true
}

fn run_publish(op: &mut Publish, message: &mut SharedMessage) {
    while let Some(action) = op.action() {
        let event = message.perform(action).unwrap();
        op.resume(event);
    }
}

/// Goes on with a write whose start is finished.
fn write_granted(op: StartWrite, data: &[u8], message: &mut SharedMessage) {
    let mut guard = MessageWriteGuard::granted(op).unwrap();
    guard.data_mut(message)[..data.len()].copy_from_slice(data);
    run_publish(&mut Publish::new(data.len()), message);
}

fn run_release(message: &mut SharedMessage) {
    let mut op = ReleaseOperation::new();
    while let Some(action) = op.action() {
        let event = message.perform(action).unwrap();
        op.resume(event);
    }
    assert_eq!(op.phase, ReleasePhase::Finished);
}

#[test]
fn test_shared_message_basic() {
    let mut msg = SharedMessage::zeroed(1024);

    let data = b"hello world";
    msg.write_slice(data);
    assert_eq!(msg.current_sequence(), 1);

    let read_guard = msg.read(0, false).unwrap();
    assert_eq!(read_guard.data(&msg), data);
    assert_eq!(read_guard.sequence(), 1);
}

#[test]
fn test_sync_write_try_read() {
    let mut msg = SharedMessage::zeroed(1024);
    let data = (0u8..255u8).collect::<Vec<_>>();

    assert!(msg.read(0, false).is_none());

    msg.write_slice(&data);
    let seq = msg.current_sequence();

    let guard = msg.read(0, false).expect("Should have data");
    assert_eq!(guard.data(&msg), data);
    assert_eq!(guard.sequence(), seq);

    assert!(msg.read(seq, false).is_none());
    msg.stop();
    assert!(msg.is_stopped());
    assert!(msg.read(seq, true).is_none());
}

#[test]
fn test_sync_write_blocking_read() {
    let mut msg = SharedMessage::zeroed(1024);
    let data = (0u8..100u8).collect::<Vec<_>>();

    let mut reader = ReadOperation::new(0, true);
    assert!(!run_reader(&mut reader, &mut msg));
    assert!(msg.read_would_wait(0, true));

    msg.write_slice(&data);
    assert!(run_reader(&mut reader, &mut msg));
    assert_eq!(reader.phase, ReadPhase::Finished(Some(1)));

    let guard = msg.read(0, true).expect("Should unblock and read");
    assert_eq!(guard.data(&msg), data);
}

#[test]
fn test_write_multiple_readers() {
    let mut msg = SharedMessage::zeroed(1024);
    let num_writes = 100;

    let mut last_seq = [0u64; 5];
    for i in 0..num_writes {
        msg.write_slice(&[i as u8]).unwrap();
        for last in last_seq.iter_mut() {
            let guard = msg.read(*last, true).unwrap();
            *last = guard.sequence();
            assert_eq!(guard.data(&msg), [i as u8]);
            guard.release(&mut msg);
        }
    }
    msg.stop();
    for last in last_seq {
        assert_eq!(last, 100);
        assert!(msg.read(last, true).is_none());
    }
}

#[test]
fn test_stop_signal_wakeups() {
    let mut msg = SharedMessage::zeroed(1024);
    let mut reader = ReadOperation::new(0, true);
    assert!(!run_reader(&mut reader, &mut msg));

    let mut stop = StopOperation::SetStopped;
    while let Some(action) = stop.action() {
        let event = msg.perform(action).unwrap();
        stop.resume(event);
    }
    assert!(run_reader(&mut reader, &mut msg));
    assert_eq!(reader.phase, ReadPhase::Finished(None), "Should return None after stop");
}

#[test]
fn test_reader_wait_policies() {
    let mut msg = SharedMessage::zeroed(1024);

    msg.set_target_read_count(1);
    msg.add_reader();

    msg.write_slice(b"first").unwrap();
    // The second write waits until a reader has consumed the first.
    let mut writer = StartWrite::new();
    assert!(!run_start(&mut writer, &mut msg));
    assert!(msg.write_would_wait());
    assert_eq!(msg.current_sequence(), 1, "Writer should be blocked on backpressure");
    {
        let guard = msg.read(0, true).unwrap();
        assert_eq!(guard.data(&msg), b"first");
        guard.release(&mut msg);
    }
    // Now the second write goes on where it stopped.
    assert!(run_start(&mut writer, &mut msg));
    write_granted(writer, b"second", &mut msg);

    let guard = msg.read(1, true).unwrap();
    assert_eq!(guard.data(&msg), b"second");
}

#[test]
fn test_concurrent_simultaneous_reads() {
    let mut msg = SharedMessage::zeroed(1024);
    msg.write_slice(b"data").unwrap();
    let seq = msg.current_sequence();

    // All readers make their accesses in turn.
    let mut readers = vec![ReadOperation::new(seq - 1, true); 20];
    let mut busy = true;
    while busy {
        busy = false;
        for reader in readers.iter_mut() {
            if let Some(action) = reader.action() {
                busy = true;
                let event = msg.perform(action).unwrap();
                reader.resume(event);
            }
        }
    }
    assert_eq!(msg.get_reader_state().active_readers, 20);
    // Each finds the message while the others hold it.
    let guards: Vec<MessageReadGuard> =
        readers.iter().map(|reader| MessageReadGuard::granted(*reader).unwrap()).collect();
    for guard in &guards {
        assert_eq!(guard.sequence(), seq);
        assert_eq!(guard.data(&msg), b"data");
    }
    for guard in guards {
        guard.release(&mut msg);
    }
    assert_eq!(msg.get_reader_state().active_readers, 0);
    assert_eq!(msg.get_reader_state().data_consumed, 20);
}

#[test]
fn test_writer_writer_contention() {
    let mut msg = SharedMessage::zeroed(1024);
    let num_writes_per_thread = 50;

    for i in 0..num_writes_per_thread {
        // Two writers start at the same time: one gets the lock, the other
        // sleeps until it is free.
        let mut first = StartWrite::new();
        let mut second = StartWrite::new();
        assert!(run_start(&mut first, &mut msg));
        assert!(!run_start(&mut second, &mut msg));
        write_granted(first, &[0, i], &mut msg);
        assert!(run_start(&mut second, &mut msg));
        write_granted(second, &[1, i], &mut msg);
        let guard = msg.read(0, false).unwrap();
        assert_eq!(guard.data(&msg), [1, i]);
        guard.release(&mut msg);
    }
    assert_eq!(msg.current_sequence(), 100);
}

#[test]
fn test_read_during_write_retry() {
    let mut msg = SharedMessage::zeroed(1024);
    msg.write_slice(b"initial");

    let mut readers = vec![ReadOperation::new(1, true); 10];
    for reader in readers.iter_mut() {
        assert!(!run_reader(reader, &mut msg));
    }

    let mut guard = msg.acquire_write_guard().unwrap();
    for reader in readers.iter_mut() {
        assert!(!run_reader(reader, &mut msg));
    }
    guard.data_mut(&mut msg)[..5].copy_from_slice(b"final");
    assert_eq!(guard.publish(&mut msg, 5), Some(2));

    for reader in readers.iter_mut() {
        assert!(run_reader(reader, &mut msg));
        assert_eq!(reader.phase, ReadPhase::Finished(Some(2)));
    }
    let guard = msg.read(1, true).unwrap();
    assert_eq!(guard.data(&msg), b"final");
}

#[test]
fn a_reader_that_meets_a_writer_withdraws() {
    let mut msg = SharedMessage::zeroed(4);
    msg.write(b"one").unwrap();
    let mut reader = ReadOperation::new(0, false);
    // The reader has seen the message but has not registered yet.
    for _ in 0..2 {
        let event = msg.perform(reader.action().unwrap()).unwrap();
        reader.resume(event);
    }
    let mut writer = StartWrite::new();
    assert!(run_start(&mut writer, &mut msg));
    // Now it registers, finds the writer and withdraws.
    assert!(!run_reader(&mut reader, &mut msg));
    assert_eq!(msg.get_reader_state().active_readers, 0);
    run_publish(&mut Publish::new(3), &mut msg);
    assert!(run_reader(&mut reader, &mut msg));
    assert_eq!(reader.phase, ReadPhase::Finished(Some(2)));
}

#[test]
fn a_writer_waits_for_active_readers() {
    let mut msg = SharedMessage::zeroed(8);
    msg.write(b"held").unwrap();
    let guard = msg.read(0, true).unwrap();
    assert!(msg.write_would_wait());
    let mut writer = StartWrite::new();
    assert!(!run_start(&mut writer, &mut msg));
    assert_eq!(guard.data(&msg), b"held");
    guard.release(&mut msg);
    assert!(run_start(&mut writer, &mut msg));
    assert_eq!(writer.phase, StartPhase::Finished(true));
}

#[test]
fn a_stop_frees_a_waiting_writer() {
    let mut msg = SharedMessage::zeroed(8);
    msg.write(b"held").unwrap();
    let _guard = msg.read(0, true).unwrap();
    let mut writer = StartWrite::new();
    assert!(!run_start(&mut writer, &mut msg));
    msg.stop();
    assert!(run_start(&mut writer, &mut msg));
    assert_eq!(writer.phase, StartPhase::Finished(false));
    assert!(!msg.get_sequence_state().writing_in_progress);
    assert!(msg.write(b"more").is_none());
}

#[test]
fn a_stopped_message_can_still_be_read() {
    let mut msg = SharedMessage::zeroed(8);
    msg.write(b"last").unwrap();
    msg.stop();
    assert!(msg.has_new_data(0));
    let guard = msg.read(0, true).unwrap();
    assert_eq!(guard.data(&msg), b"last");
    guard.release(&mut msg);
    assert!(msg.write(b"never").is_none());
    assert!(msg.acquire_write_guard().is_none());
    assert_eq!(msg.current_sequence(), 1);
    assert!(!msg.has_new_data(1));
}

#[test]
fn a_guard_is_not_published_after_a_stop() {
    let mut msg = SharedMessage::zeroed(8);
    let guard = msg.acquire_write_guard().unwrap();
    msg.stop();
    assert_eq!(guard.publish(&mut msg, 3), None);
    assert_eq!(msg.current_sequence(), 0);
    assert!(!msg.set_target_would_wait());
}

#[test]
fn a_guard_refused_after_a_stop_is_not_read() {
    let mut msg = SharedMessage::zeroed(8);
    msg.write_slice(b"first").unwrap();
    let mut guard = msg.acquire_write_guard().unwrap();
    guard.data_mut(&mut msg)[..2].copy_from_slice(b"FI");
    msg.stop();
    // On a stopped message nobody waits to write, though the lock is taken.
    assert!(!msg.write_would_wait());
    assert!(msg.set_target_would_wait());

    assert_eq!(guard.publish(&mut msg, 5), None);
    assert!(!msg.set_target_would_wait());
    assert_eq!(msg.current_sequence(), 1);
    assert!(msg.get_sequence_state().writing_in_progress);
    // Nobody gets the first message with the bytes of the second.
    let mut reader = ReadOperation::new(0, false);
    assert!(!run_reader(&mut reader, &mut msg));
    assert!(MessageReadGuard::granted(reader).is_none());
    assert!(msg.read(1, true).is_none());
}

#[test]
fn an_abandoned_write_is_not_read() {
    let mut msg = SharedMessage::zeroed(8);
    msg.write_slice(b"first").unwrap();
    let mut guard = msg.acquire_write_guard().unwrap();
    guard.data_mut(&mut msg)[..5].copy_from_slice(b"never");
    guard.abandon(&mut msg);
    assert!(!msg.write_would_wait());
    assert_eq!(msg.current_sequence(), 1);

    // Who has not seen the first message waits, who has gets nothing.
    let mut waiting = ReadOperation::new(0, true);
    let mut polling = ReadOperation::new(0, false);
    assert!(!run_reader(&mut waiting, &mut msg));
    assert!(!run_reader(&mut polling, &mut msg));
    assert!(msg.read_would_wait(0, true));
    assert!(msg.read_would_wait(0, false));
    assert!(msg.read(1, false).is_none());
    assert_eq!(msg.get_reader_state().active_readers, 0);

    // The next publication brings its own bytes.
    assert_eq!(msg.write_slice(b"second"), Some(2));
    for mut reader in [waiting, polling] {
        assert!(run_reader(&mut reader, &mut msg));
        let read = MessageReadGuard::granted(reader).unwrap();
        assert_eq!(read.sequence(), 2);
        assert_eq!(read.data(&msg), b"second");
        read.release(&mut msg);
    }
}

#[test]
fn a_stop_does_not_refuse_a_write_that_needs_no_guard() {
    let mut msg = SharedMessage::zeroed(8);
    let mut writer = StartWrite::new();
    assert!(run_start(&mut writer, &mut msg));
    msg.stop();
    let mut publish = Publish::new(2);
    run_publish(&mut publish, &mut msg);
    assert_eq!(publish.phase, PublishPhase::Finished(1));
    let mut late = Publish::guarded(2);
    run_publish(&mut late, &mut msg);
    assert_eq!(late.phase, PublishPhase::Refused);
    assert_eq!(msg.current_sequence(), 1);
}

#[test]
fn a_guard_does_not_publish_more_than_fits() {
    let mut msg = SharedMessage::zeroed(8);
    let guard = msg.acquire_write_guard().unwrap();
    assert_eq!(guard.capacity(&msg), 8);
    assert_eq!(guard.publish(&mut msg, 9), None);
    assert_eq!(msg.current_sequence(), 0);
    assert!(!msg.write_would_wait());
    let guard = msg.acquire_write_guard().unwrap();
    assert_eq!(guard.publish(&mut msg, 8), Some(1));
}

#[test]
fn an_abandoned_guard_frees_the_lock() {
    let mut msg = SharedMessage::zeroed(8);
    let guard = msg.acquire_write_guard().unwrap();
    assert!(msg.write_would_wait());
    guard.abandon(&mut msg);
    assert!(!msg.write_would_wait());
    assert_eq!(msg.write(b"ok"), Some(1));
}

#[test]
fn readers_are_counted() {
    let mut msg = SharedMessage::zeroed(8);
    msg.set_target_read_count(2);
    msg.add_reader();
    msg.add_reader();
    msg.add_reader();
    msg.remove_reader();
    let state = msg.get_reader_state();
    assert_eq!(state.target_read, 2);
    assert_eq!(state.consumers, 2);
    assert_eq!(state.get_target_consumed(), 2);
    msg.remove_reader();
    assert_eq!(msg.get_reader_state().get_target_consumed(), 1);
    msg.update_reader_state(ReaderChange::SetTarget(0));
    assert_eq!(msg.get_reader_state().get_target_consumed(), 0);
}

#[test]
fn each_write_counts_readers_anew() {
    let mut msg = SharedMessage::zeroed(8);
    msg.write(b"a").unwrap();
    let guard = msg.read(0, false).unwrap();
    guard.release(&mut msg);
    assert_eq!(msg.get_reader_state().data_consumed, 1);
    msg.write(b"b").unwrap();
    assert_eq!(msg.get_reader_state().data_consumed, 0);
}

#[test]
fn an_empty_message_is_a_message() {
    let mut msg = SharedMessage::zeroed(8);
    assert_eq!(msg.write(b""), Some(1));
    let guard = msg.read(0, false).unwrap();
    assert_eq!(guard.data(&msg), b"");
}

#[test]
fn a_message_may_fill_the_payload() {
    let mut msg = SharedMessage::zeroed(4);
    assert_eq!(msg.capacity(), 4);
    assert_eq!(msg.write(b"full"), Some(1));
    let guard = msg.read(0, false).unwrap();
    assert_eq!(guard.data(&msg), b"full");
}

#[test]
fn counters_out_of_range_are_faults() {
    let none = ReadersStateCount { target_read: 0, consumers: 0, active_readers: 0, data_consumed: 0 };
    assert_eq!(none.change(ReaderChange::Release), None);
    assert_eq!(none.change(ReaderChange::Withdraw), None);
    assert_eq!(none.change(ReaderChange::RemoveConsumer), None);
    let most = ReadersStateCount {
        target_read: 0,
        consumers: u16::MAX,
        active_readers: u16::MAX,
        data_consumed: u16::MAX,
    };
    assert_eq!(most.change(ReaderChange::Register), None);
    assert_eq!(most.change(ReaderChange::AddConsumer), None);
    assert_eq!(most.change(ReaderChange::Release), None);

    let mut update = UpdateOperation::new(ReaderChange::RemoveConsumer);
    assert_eq!(update.action(), Some(Action::LoadReaders));
    update.resume(Event::Word(0));
    assert_eq!(update.phase, UpdatePhase::Fault);
    assert_eq!(update.action(), None);
}

#[test]
fn an_update_tries_again_when_another_came_first() {
    let mut update = UpdateOperation::new(ReaderChange::AddConsumer);
    update.resume(Event::Word(0));
    assert_eq!(update.action(), Some(Action::SwapReaders { expected: 0, new: 0x1_0000 }));
    update.resume(Event::Swapped { done: false, found: 5 });
    assert_eq!(update.action(), Some(Action::SwapReaders { expected: 5, new: 0x1_0005 }));
    update.resume(Event::Swapped { done: true, found: 5 });
    assert_eq!(update.phase, UpdatePhase::Finished);
}

#[test]
fn a_publication_that_meets_a_stop_keeps_it() {
    let mut msg = SharedMessage::zeroed(8);
    let mut writer = StartWrite::new();
    assert!(run_start(&mut writer, &mut msg));
    msg.stop();
    let mut publish = Publish::new(2);
    run_publish(&mut publish, &mut msg);
    assert_eq!(publish.phase, PublishPhase::Finished(1));
    assert!(msg.is_stopped());
    assert_eq!(msg.current_sequence(), 1);
}

#[test]
fn a_notification_wakes_a_sleeper() {
    let mut msg = SharedMessage::zeroed(8);
    let sleep = Action::Sleep { channel: Channel::Writer, ticket: 0 };
    assert_eq!(msg.perform(sleep), None);
    assert_eq!(msg.perform(Action::Notify(Channel::Writer)), Some(Event::Done));
    assert_eq!(msg.perform(sleep), Some(Event::Done));
    assert_eq!(
        msg.perform(Action::LoadTicket(Channel::Writer)),
        Some(Event::Ticket(1))
    );
    assert_eq!(
        msg.perform(Action::LoadTicket(Channel::ReaderDone)),
        Some(Event::Ticket(0))
    );
}

#[test]
fn a_contended_lock_lets_sleep() {
    let mut msg = SharedMessage::zeroed(8);
    let mark = Action::Lock(LockAction::MarkContended);
    assert_eq!(msg.perform(mark), Some(Event::Lock(0)));
    assert_eq!(msg.perform(mark), Some(Event::Lock(CONTENDED)));
    assert_eq!(msg.perform(Action::Lock(LockAction::Sleep)), None);
    let _ = msg.perform(Action::Unlock);
    assert_eq!(msg.perform(Action::Lock(LockAction::TakeFree)), Some(Event::Lock(0)));
}

#[test]
fn sequence_words_are_packed() {
    let state = SequenceState { sequence: 7, stopped: true, writing_in_progress: false };
    assert_eq!(state.to_packed(), 0x8000_0000_0000_0007);
    assert_eq!(SequenceState::from(0x8000_0000_0000_0007), state);
    let state = SequenceState { sequence: 9, stopped: false, writing_in_progress: true };
    assert_eq!(state.to_packed(), 0x4000_0000_0000_0009);
    assert_eq!(SequenceState::from(0x4000_0000_0000_0009), state);
}

#[test]
fn reader_words_are_packed() {
    let state = ReadersStateCount { target_read: 1, consumers: 2, active_readers: 3, data_consumed: 4 };
    assert_eq!(state.to_packed(), 0x0004_0003_0002_0001);
    assert_eq!(ReadersStateCount::from(0x0004_0003_0002_0001), state);
}

#[test]
fn sequences_wrap_around() {
    assert_eq!(next_sequence(0), 1);
    assert_eq!(next_sequence(41), 42);
    let largest = (1u64 << 62) - 1;
    assert_eq!(next_sequence(largest - 1), largest);
    assert_eq!(next_sequence(largest), 1);
}

#[test]
fn only_a_finished_start_grants_the_payload() {
    let mut msg = SharedMessage::zeroed(8);
    assert!(MessageWriteGuard::granted(StartWrite::new()).is_none());
    msg.stop();
    let mut writer = StartWrite::new();
    assert!(run_start(&mut writer, &mut msg));
    assert_eq!(writer.phase, StartPhase::Finished(false));
    assert!(MessageWriteGuard::granted(writer).is_none());
}

#[test]
fn nobody_else_publishes_while_a_guard_is_held() {
    let mut msg = SharedMessage::zeroed(8);
    msg.write_slice(b"old").unwrap();
    let mut guard = msg.acquire_write_guard().unwrap();
    let mut other = StartWrite::new();
    let mut reader = ReadOperation::new(0, true);
    for _ in 0..3 {
        assert!(!run_start(&mut other, &mut msg));
        assert!(!run_reader(&mut reader, &mut msg));
        assert_eq!(msg.current_sequence(), 1);
        assert_eq!(guard.capacity(&msg), 8);
    }
    guard.data_mut(&mut msg)[..3].copy_from_slice(b"new");
    assert_eq!(guard.publish(&mut msg, 3), Some(2));
    assert!(run_reader(&mut reader, &mut msg));
    assert_eq!(reader.phase, ReadPhase::Finished(Some(2)));
    run_release(&mut msg);
    assert!(run_start(&mut other, &mut msg));
    write_granted(other, b"other", &mut msg);
    assert_eq!(msg.current_sequence(), 3);
}

#[test]
fn from_its_second_turn_on_a_writer_misses_no_consumer() {
    // The last consumer comes before the ticket of the second turn, between
    // ticket and look, or between look and sleep.
    for accesses in 1..6 {
        let mut msg = SharedMessage::zeroed(8);
        msg.set_target_read_count(2);
        msg.add_reader();
        msg.add_reader();
        msg.write_slice(b"one").unwrap();
        let mut writer = StartWrite::new();
        assert!(!run_start(&mut writer, &mut msg));
        msg.read(0, false).unwrap().release(&mut msg);
        for _ in 0..accesses {
            let event = msg.perform(writer.action().unwrap()).unwrap();
            writer.resume(event);
        }
        msg.read(0, false).unwrap().release(&mut msg);
        assert!(run_start(&mut writer, &mut msg));
        assert_eq!(writer.phase, StartPhase::Finished(true));
    }
}

#[test]
fn on_its_first_turn_a_writer_may_miss_a_consumer() {
    let mut msg = SharedMessage::zeroed(8);
    msg.set_target_read_count(1);
    msg.add_reader();
    msg.write_slice(b"one").unwrap();
    let mut writer = StartWrite::new();
    while !matches!(writer.phase, StartPhase::ConsumedTicket { .. }) {
        let event = msg.perform(writer.action().unwrap()).unwrap();
        writer.resume(event);
    }
    // The reader notifies before the writer takes its ticket.
    msg.read(0, false).unwrap().release(&mut msg);
    assert!(!run_start(&mut writer, &mut msg));
    assert!(matches!(writer.phase, StartPhase::ConsumedSleep { .. }));
    // The next notification wakes it.
    msg.read(0, false).unwrap().release(&mut msg);
    assert!(run_start(&mut writer, &mut msg));
    assert_eq!(writer.phase, StartPhase::Finished(true));
}
