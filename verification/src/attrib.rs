//! Vertex attribute descriptions consumed by the device layer.

use vstd::prelude::*;

verus! {

/// The size of an index element.
#[derive(Clone, Copy, PartialEq, Eq, Debug)]
pub enum IntSize {
    /// 8 bits.
    U8,
    /// 16 bits.
    U16,
    /// 32 bits.
    U32,
}

} // verus!
