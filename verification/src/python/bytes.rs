//! Bytes that were copied out of a message.
use vstd::prelude::*;
use vstd::slice::slice_to_vec;

verus! {

#[derive(Debug, PartialEq, Eq)]
pub struct RustPyBytes(pub Vec<u8>);

impl View for RustPyBytes {
    type V = Seq<u8>;

    open spec fn view(&self) -> Seq<u8> {
        self.0@
    }
}

impl RustPyBytes {
    pub fn new(slice: &[u8]) -> (bytes: Self)
        ensures
            bytes@ == slice@,
    {
        RustPyBytes(slice_to_vec(slice))
    }

    /// The number of bytes.
    pub fn len(&self) -> (len: usize)
        ensures
            len == self@.len(),
    {
        self.0.len()
    }

    pub fn as_slice(&self) -> (slice: &[u8])
        ensures
            slice@ == self@,
    {
        self.0.as_slice()
    }
}

impl Clone for RustPyBytes {
    fn clone(&self) -> (bytes: Self)
        ensures
            bytes@ == self@,
    {
        RustPyBytes::new(self.as_slice())
    }
}

} // verus!
