//! The mathematical model of a region: what a region is, and what each
//! operation does to it, stated over integers and sequences of bytes.

use vstd::prelude::*;

verus! {

/// A region as a mathematical value.
pub struct RegionView {
    /// Address of the first byte of the region.
    pub base: nat,
    /// Number of bytes reserved for the region.
    pub capacity: nat,
    /// Number of bytes handed out so far.
    pub offset: nat,
    /// The bytes of the region, the one at `base` first.
    pub memory: Seq<u8>,
}

impl RegionView {
    /// The cursor never leaves the region, and the region holds exactly
    /// `capacity` bytes.
    pub open spec fn wf(self) -> bool {
        &&& self.offset <= self.capacity
        &&& self.memory.len() == self.capacity
    }

    /// The empty region over `memory`, placed at `base`.
    pub open spec fn fresh(base: nat, memory: Seq<u8>) -> RegionView {
        RegionView { base, capacity: memory.len(), offset: 0, memory }
    }

    /// The address that the next allocation returns.
    pub open spec fn cursor(self) -> nat {
        self.base + self.offset
    }

    /// Whether a request for `size` bytes can be served.
    pub open spec fn fits(self, size: nat) -> bool {
        self.offset + size <= self.capacity
    }

    /// The region after a request for `size` bytes: the cursor advances by
    /// `size` where the request fits, and nothing changes where it does not.
    pub open spec fn allocate(self, size: nat) -> RegionView {
        if self.fits(size) {
            RegionView { offset: self.offset + size, ..self }
        } else {
            self
        }
    }

    /// The region's bytes with `bytes` written at the cursor.
    pub open spec fn written(self, bytes: Seq<u8>) -> Seq<u8> {
        Seq::new(
            self.memory.len(),
            |i: int|
                if self.offset <= i < self.offset + bytes.len() {
                    bytes[i - self.offset]
                } else {
                    self.memory[i]
                },
        )
    }

    /// The region after `bytes` are emplaced: an allocation of their length,
    /// filled with them. Nothing changes where they do not fit.
    pub open spec fn emplace(self, bytes: Seq<u8>) -> RegionView {
        if self.fits(bytes.len()) {
            RegionView {
                offset: self.offset + bytes.len(),
                memory: self.written(bytes),
                ..self
            }
        } else {
            self
        }
    }

    /// The region after a release: the cursor is back at the start. Base,
    /// capacity and the bytes themselves stay as they are.
    pub open spec fn clear(self) -> RegionView {
        RegionView { offset: 0, ..self }
    }

    /// Whether the `size` bytes from `address` on all lie in the part of
    /// the region that has been handed out.
    pub open spec fn allocated(self, address: nat, size: nat) -> bool {
        self.base <= address && address + size <= self.base + self.offset
    }

    /// The `size` bytes from `address` on.
    pub open spec fn read(self, address: nat, size: nat) -> Seq<u8>
        recommends
            self.wf(),
            self.allocated(address, size),
    {
        self.memory.subrange(address - self.base, address - self.base + size)
    }

    /// The region after one request for each of `sizes`, in order.
    pub open spec fn allocate_all(self, sizes: Seq<nat>) -> RegionView
        decreases sizes.len(),
    {
        if sizes.len() == 0 {
            self
        } else {
            self.allocate(sizes[0]).allocate_all(sizes.drop_first())
        }
    }

    /// Whether each of the requests `sizes`, made in order, is served.
    pub open spec fn all_fit(self, sizes: Seq<nat>) -> bool
        decreases sizes.len(),
    {
        if sizes.len() == 0 {
            true
        } else {
            self.fits(sizes[0]) && self.allocate(sizes[0]).all_fit(sizes.drop_first())
        }
    }
}

/// The sum of `sizes`.
pub open spec fn total(sizes: Seq<nat>) -> nat
    decreases sizes.len(),
{
    if sizes.len() == 0 {
        0
    } else {
        sizes[0] + total(sizes.drop_first())
    }
}

} // verus!
