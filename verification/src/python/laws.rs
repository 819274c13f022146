//! What holds of handles, whatever is done with them.
use crate::primitives::shared_futex::UNLOCKED;
use crate::python::message::{has_room, read_once, Handle};
use crate::shared_message::operation::ReaderChange;
use crate::shared_message::packed::{
    law_readers_round_trip, law_sequence_after, law_sequence_round_trip, sequence_after,
    SequenceState,
};
use crate::shared_message::write_operation::published;
use vstd::prelude::*;

verus! {

/// What is written through a handle is read through it: the next read gives the
/// bytes, and the versions agree.
pub proof fn law_read_back(handle: Handle, data: Seq<u8>)
    requires
        handle.wf(),
        handle.receiver is None,
        !handle.region.stopped(),
        data.len() <= handle.region.payload.len() <= usize::MAX,
        handle.last_read != sequence_after(handle.region.sequence()),
    ensures
        handle.written(data).read_result() == Some(data),
        handle.written(data).read().last_read == handle.written(data).last_written,
        handle.written(data).read().read_result() is None,
        !handle.written(data).read_waits(true),
{
    lemma_written(handle, data);
}

proof fn lemma_written(handle: Handle, data: Seq<u8>)
    requires
        handle.region.wf(),
        !handle.region.stopped(),
        data.len() <= handle.region.payload.len() <= usize::MAX,
    ensures
        ({
            let after = handle.written(data).region;
            &&& after.data() == data
            &&& after.sequence() == sequence_after(handle.region.sequence())
            &&& !after.writing()
            &&& !after.stopped()
            &&& after.writer_lock == UNLOCKED
            &&& after.counts() == handle.region.counts().changed(
                ReaderChange::ResetConsumed,
            )->Some_0
        }),
{
    let region = handle.region;
    law_sequence_after(region.sequence());
    law_readers_round_trip(region.counts().changed(ReaderChange::ResetConsumed)->Some_0);
    let started = SequenceState { writing_in_progress: true, ..region.state() };
    law_sequence_round_trip(started);
    law_sequence_round_trip(published(started));
    assert(handle.written(data).region.data() =~= data);
}

/// Backpressure reaches the queue: where the writer waits for readers, what the
/// writer thread has written stays until it is read, and a read gives it.
pub proof fn law_queued_message_is_not_lost(handle: Handle)
    requires
        handle.wf(),
        handle.receiver is None,
        handle.writer_ready(),
        !handle.region.stopped(),
        handle.region.payload.len() <= usize::MAX,
        handle.region.counts().target_read > 0,
        handle.region.counts().consumers > 0,
        handle.last_read != sequence_after(handle.region.sequence()),
    ensures
        !handle.writer_turn().writer_ready(),
        handle.writer_turn().read_result() == Some(handle.sender->Some_0.pending[0]),
        handle.writer_turn().sender->Some_0.pending == handle.sender->Some_0.pending.skip(1),
{
    lemma_written(handle, handle.sender->Some_0.pending[0]);
    law_sequence_after(handle.region.sequence());
}

/// When it was read the writer thread can go on, if that was all it waited for.
pub proof fn law_read_lets_writer_go_on(handle: Handle)
    requires
        handle.wf(),
        handle.receiver is None,
        has_room(handle.region),
        handle.region.writer_lock == UNLOCKED,
        handle.region.counts().active_readers == 0,
        handle.region.counts().data_consumed + 1 == handle.region.counts().target_consumed(),
    ensures
        !read_once(handle.region).write_sleeps(),
{
    let region = handle.region;
    let registered = region.counts().changed(ReaderChange::Register)->Some_0;
    law_readers_round_trip(registered);
    law_readers_round_trip(registered.changed(ReaderChange::Release)->Some_0);
}

/// What was queued first is written first.
pub proof fn law_queue_keeps_order(handle: Handle, data: Seq<u8>)
    requires
        handle.wf(),
        handle.writer_ready(),
        !handle.region.stopped(),
    ensures
        handle.enqueued(data).writer_turn().sender == handle.writer_turn().enqueued(data).sender,
        handle.enqueued(data).writer_turn().region == handle.writer_turn().region,
{
    let pending = handle.sender->Some_0.pending;
    assert(pending.push(data).skip(1) =~= pending.skip(1).push(data));
}

/// One reader, which has read all there is, and a writer thread that waits for
/// it.
pub open spec fn in_step(handle: Handle) -> bool {
    &&& handle.wf()
    &&& handle.receiver is None
    &&& handle.sender is Some
    &&& handle.sender->Some_0.thread.phase is Receive
    &&& !handle.region.stopped()
    &&& handle.region.payload.len() <= usize::MAX
    &&& handle.region.writer_lock == UNLOCKED
    &&& handle.region.counts().active_readers == 0
    &&& handle.region.counts().target_consumed() == 1
    &&& handle.region.sequence() > 0 ==> handle.region.counts().data_consumed == 1
    &&& handle.last_read == handle.region.sequence()
}

/// What reads give that alternate with the turns of the writer thread.
pub open spec fn stream(handle: Handle) -> Seq<Option<Seq<u8>>>
    decreases handle.sender->Some_0.pending.len(),
    when handle.sender is Some
{
    if handle.sender->Some_0.pending.len() == 0 || !handle.writer_ready() {
        Seq::empty()
    } else {
        let after = handle.writer_turn();
        seq![after.read_result()] + stream(after.read())
    }
}

/// Whatever is queued is read, each message once, in the order in which they
/// were queued.
pub proof fn law_every_queued_message_is_read(handle: Handle)
    requires
        in_step(handle),
    ensures
        stream(handle).len() == handle.sender->Some_0.pending.len(),
        forall|i: int|
            0 <= i < stream(handle).len() ==> #[trigger] stream(handle)[i] == Some(
                handle.sender->Some_0.pending[i],
            ),
    decreases handle.sender->Some_0.pending.len(),
{
    let pending = handle.sender->Some_0.pending;
    if pending.len() > 0 {
        let after = handle.writer_turn();
        lemma_written(handle, pending[0]);
        law_sequence_after(handle.region.sequence());
        let registered = after.region.counts().changed(ReaderChange::Register)->Some_0;
        law_readers_round_trip(registered);
        law_readers_round_trip(registered.changed(ReaderChange::Release)->Some_0);
        assert(in_step(after.read()));
        law_every_queued_message_is_read(after.read());
    }
}

/// After a stop nothing more is written, and no reader waits for a message.
pub proof fn law_stop_ends_everything(handle: Handle, data: Seq<u8>, block: bool)
    requires
        handle.wf(),
        !handle.region.writing(),
    ensures
        handle.stop().region.stopped(),
        handle.stop().write_result() is None,
        handle.stop().written(data) == handle.stop(),
        !handle.stop().writer_ready(),
        handle.receiver is None ==> !handle.stop().read_waits(block),
        handle.receiver is Some ==> handle.stop().reader_ready() || !handle.stop().read_waits(
            block,
        ),
{
    law_sequence_round_trip(SequenceState { stopped: true, ..handle.region.state() });
}

} // verus!
