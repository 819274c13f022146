//! What each use of a handle on a double-buffered message does.
use crate::python::message::name_error;
use crate::python::operation_mode::OperationMode;
use crate::python::reader_wait_policy::ReaderWaitPolicy;
use crate::python::zero_copy_message::{
    CreateError, PythonZeroCopySharedMessage, ZeroCopyHandle,
};
use crate::zero_copy::effect_laws::{law_read_effect, law_write_effect};
use crate::zero_copy::message::ZeroCopySharedMessage;
use crate::zero_copy::region::Region;
use vstd::prelude::*;

verus! {

/// Opening a handle registers one more reader if its mode may read, in the
/// foreground or in the background, and none otherwise; nothing else changes.
pub proof fn law_open_registers_reader(region: Region, name: Seq<char>, mode: OperationMode)
    requires
        region.consumers < 65535,
    ensures
        ({
            let handle = ZeroCopyHandle::new(region, name, mode);
            &&& handle.region.consumers == region.consumers + (if mode == OperationMode::ReadSync
                || mode == OperationMode::ReadAsync {
                1int
            } else {
                0
            })
            &&& handle.region == (Region { consumers: handle.region.consumers, ..region })
            &&& handle.name == name
            &&& handle.op_mode == mode
            &&& handle.last_read == 0
        }),
{
}

/// Opening a handle on a memory and closing it gives the memory back as it was.
pub proof fn law_open_and_close(
    memory: ZeroCopySharedMessage,
    name: String,
    mode: OperationMode,
    handle: PythonZeroCopySharedMessage,
    given_back: ZeroCopySharedMessage,
)
    requires
        memory@.consumers < 65535,
        call_ensures(PythonZeroCopySharedMessage::new, (memory, name, mode), handle),
        call_ensures(PythonZeroCopySharedMessage::close, (handle,), given_back),
    ensures
        mode == OperationMode::ReadSync || mode == OperationMode::ReadAsync
            ==> handle@.region.consumers == memory@.consumers + 1,
        given_back@ == memory@,
{
    law_open_registers_reader(memory@, name@, mode);
}

/// A message that was created has two buffers that share the room evenly, the
/// target of its policy, one reader if its handle may read, and no message yet.
pub proof fn law_created(
    name: String,
    size: usize,
    mode: OperationMode,
    policy: ReaderWaitPolicy,
    created: Result<PythonZeroCopySharedMessage, CreateError>,
)
    requires
        size > 0,
        call_ensures(PythonZeroCopySharedMessage::create, (name, size, mode, policy), created),
    ensures
        created is Ok <==> name_error(name@) is None && size >= 2,
        created matches Ok(handle) ==> {
            let region = handle@.region;
            &&& 0 <= size - 2 * region.buffer_size <= 1
            &&& region.sequence() == 0
            &&& !region.stopped()
            &&& region.target == (match policy {
                ReaderWaitPolicy::All() => 65535int,
                ReaderWaitPolicy::Count(count) => if count > 65535 {
                    65535int
                } else {
                    count as int
                },
            })
            &&& region.consumers == (if mode == OperationMode::ReadSync || mode
                == OperationMode::ReadAsync {
                1int
            } else {
                0
            })
            &&& !region.acquire_sleeps()
            &&& !region.publish_sleeps()
        },
{
}

/// A write through a handle leaves its bytes as the latest message, in the other
/// buffer, under the next sequence; once the message is stopped it does nothing.
pub proof fn law_handle_write(handle: ZeroCopyHandle, data: Seq<u8>)
    requires
        handle.wf(),
        data.len() <= handle.region.buffer_size,
    ensures
        handle.region.stopped() ==> handle.written(data) == handle,
        !handle.region.stopped() ==> {
            let after = handle.written(data);
            &&& after.region.latest() != handle.region.latest()
            &&& after.region.data(after.region.latest()) == data
            &&& after.region.data(handle.region.latest()) == handle.region.data(
                handle.region.latest(),
            )
            &&& after.region.sequence() == if handle.region.sequence() == 0x3fff_ffff_ffff_ffff {
                1
            } else {
                handle.region.sequence() + 1
            }
            &&& after.region.of(after.region.latest()).consumed == 0
            &&& after == (ZeroCopyHandle { region: after.region, ..handle })
            &&& handle.last_read != after.region.sequence() ==> after.has_new()
        },
{
    if !handle.region.stopped() {
        law_write_effect(handle.region, data);
    }
}

/// A read takes the latest message if it is another than the last, notes its
/// version, and counts as one that consumed it when it is given back. Then there
/// is nothing new.
pub proof fn law_handle_read(handle: ZeroCopyHandle)
    requires
        handle.wf(),
        handle.region.of(handle.region.latest()).readers < 65535,
        handle.region.of(handle.region.latest()).consumed < 65535,
    ensures
        handle.has_new() <==> handle.region.sequence() != handle.last_read,
        ({
            let idx = handle.region.latest();
            let held = handle.taken();
            let after = handle.read();
            &&& held.last_read == handle.region.sequence()
            &&& held.region.of(idx).readers == handle.region.of(idx).readers + 1
            &&& held == (ZeroCopyHandle {
                region: held.region,
                last_read: held.last_read,
                ..handle
            })
            &&& held.region.sequence_word == handle.region.sequence_word
            &&& held.region.buffers == handle.region.buffers
            &&& after.last_read == handle.region.sequence()
            &&& after.region.of(idx).readers == handle.region.of(idx).readers
            &&& after.region.of(idx).consumed == handle.region.of(idx).consumed + 1
            &&& after.region.of(!idx) == handle.region.of(!idx)
            &&& after.region.sequence_word == handle.region.sequence_word
            &&& after.region.buffers == handle.region.buffers
            &&& after == (ZeroCopyHandle {
                region: after.region,
                last_read: after.last_read,
                ..handle
            })
            &&& !after.has_new()
        }),
{
    law_read_effect(handle.region);
}

} // verus!
