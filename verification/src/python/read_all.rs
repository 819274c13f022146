//! Reading many messages at once.
use crate::python::bytes::RustPyBytes;
use crate::python::message::PythonSharedMessage;
use vstd::prelude::*;

verus! {

/// Whether `bytes` is what a read of a handle gives.
pub open spec fn is_read(bytes: Option<RustPyBytes>, result: Option<Seq<u8>>) -> bool {
    match bytes {
        Some(bytes) => result == Some(bytes@),
        None => result is None,
    }
}

/// Reads from each handle what was not read before, without waiting for more.
pub fn read_all(readers: &mut Vec<PythonSharedMessage>) -> (all: Vec<Option<RustPyBytes>>)
    requires
        forall|i: int|
            0 <= i < old(readers).len() ==> (#[trigger] old(readers)[i])@.wf() && !old(
                readers,
            )[i]@.read_waits(false) && old(readers)[i]@.read_fits(),
    ensures
        all.len() == old(readers).len(),
        final(readers).len() == old(readers).len(),
        forall|i: int|
            0 <= i < all.len() ==> is_read(#[trigger] all[i], old(readers)[i]@.read_result()),
        forall|i: int|
            0 <= i < final(readers).len() ==> (#[trigger] final(readers)[i])@ == old(
                readers,
            )[i]@.read(),
{
    let mut all: Vec<Option<RustPyBytes>> = Vec::new();
    let mut n: usize = 0;
    while n < readers.len()
        invariant
            n <= readers.len() == old(readers).len(),
            all.len() == n,
            forall|i: int|
                0 <= i < old(readers).len() ==> (#[trigger] old(readers)[i])@.wf() && !old(
                    readers,
                )[i]@.read_waits(false) && old(readers)[i]@.read_fits(),
            forall|i: int|
                0 <= i < n ==> is_read(#[trigger] all[i], old(readers)[i]@.read_result()),
            forall|i: int| 0 <= i < n ==> (#[trigger] readers[i])@ == old(readers)[i]@.read(),
            forall|i: int|
                n <= i < old(readers).len() ==> #[trigger] readers[i] == old(readers)[i],
        decreases readers.len() - n,
    {
        let bytes = readers[n].read(false);
        all.push(bytes);
        n = n + 1;
    }
    all
}

} // verus!
