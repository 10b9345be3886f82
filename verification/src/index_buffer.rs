//! Index buffers handed over by the host.

use vstd::prelude::*;

verus! {

/// A buffer of vertex indices, copied in from the host.
pub struct IndexBuffer {
    pub data: Vec<i32>,
}

impl IndexBuffer {
    /// Wrap an index list the host has already validated and copied.
    pub fn new(data: Vec<i32>) -> (r: Self)
        ensures
            r.data@ == data@,
    {
        IndexBuffer { data }
    }
}

} // verus!
