//! Command-buffer interface consumed by the device layer. The encoding of
//! commands lives outside this core: a backend's command buffer is submitted
//! as an opaque value together with its data buffer.

use vstd::prelude::*;

verus! {

/// An opaque, backend-specific buffer of encoded commands.
pub trait CommandBuffer: Sized {
    /// The resource family the commands refer to.
    type Resources: crate::Resources;
}

/// Plain data accompanying a command buffer.
#[derive(Clone, PartialEq, Debug)]
pub struct DataBuffer {
    /// The raw bytes the commands refer to.
    pub data: Vec<u8>,
}

impl DataBuffer {
    /// An empty data buffer.
    pub fn new() -> (r: DataBuffer)
        ensures
            r.data@.len() == 0,
    {
        DataBuffer { data: Vec::new() }
    }
}

} // verus!
