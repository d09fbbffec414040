//! The fixed-layout records that describe a buffer to native callers.

use vstd::prelude::*;

verus! {

/// Descriptor of a region buffer: three machine words, in this order.
///
/// `size` is the number of bytes reserved, `base` the address of the first
/// of them, and `offset` the number of bytes handed out so far.
#[derive(Debug, Copy, Clone, PartialEq, Eq, Structural)]
pub struct RegionMemoryBuffer {
    pub size: u64,
    pub base: usize,
    pub offset: usize,
}

/// Descriptor of a stack buffer. It has the shape of a region descriptor;
/// `offset` is the top of the stack.
#[derive(Debug, Copy, Clone, PartialEq, Eq, Structural)]
pub struct StackMemoryBuffer {
    pub size: u64,
    pub base: usize,
    pub offset: usize,
}

impl RegionMemoryBuffer {
    /// A descriptor is consistent when the cursor lies inside the buffer and
    /// the buffer's last address is representable.
    pub open spec fn wf(self) -> bool {
        &&& self.offset <= self.size
        &&& self.base + self.size <= usize::MAX
    }
}

} // verus!
