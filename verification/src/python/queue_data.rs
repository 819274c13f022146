//! What the queues between a handle and its background threads carry.
use crate::python::bytes::RustPyBytes;
use vstd::prelude::*;
use vstd::slice::slice_to_vec;

verus! {

/// A message that the reader thread has read.
#[derive(Debug, PartialEq, Eq)]
pub struct ReceiverQueueData {
    pub sequence: u64,
    pub data: RustPyBytes,
}

impl View for ReceiverQueueData {
    type V = (u64, Seq<u8>);

    open spec fn view(&self) -> (u64, Seq<u8>) {
        (self.sequence, self.data@)
    }
}

/// A message that the writer thread shall write.
#[derive(Debug, PartialEq, Eq)]
pub struct SenderQueueData {
    bytes: Vec<u8>,
}

impl View for SenderQueueData {
    type V = Seq<u8>;

    closed spec fn view(&self) -> Seq<u8> {
        self.bytes@
    }
}

impl SenderQueueData {
    pub fn new(data: &[u8]) -> (queued: Self)
        ensures
            queued@ == data@,
    {
        SenderQueueData { bytes: slice_to_vec(data) }
    }

    pub fn bytes(&self) -> (bytes: &[u8])
        ensures
            bytes@ == self@,
    {
        self.bytes.as_slice()
    }
}

} // verus!
