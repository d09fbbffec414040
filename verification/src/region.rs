//! The region allocator: one owned block of bytes and a cursor into it.

use vstd::prelude::*;
use crate::buffer::RegionMemoryBuffer;
use crate::error::AllocError;
use crate::image::ByteImage;
use crate::model::RegionView;

verus! {

/// Simple region based allocator.
///
/// It owns a contiguous block of bytes of a fixed size and a cursor into
/// it. An allocation returns the address at the cursor and moves the cursor
/// forward by the size asked for. Single allocations are never given back:
/// the whole region is released at once.
///
/// Addresses are positions in the region's own address space, which starts
/// at the region's base. An address is good until the next release; after
/// it, the same address may come to stand for a later allocation.
pub struct RegionAllocator {
    region: RegionMemoryBuffer,
    memory: Vec<u8>,
}

impl View for RegionAllocator {
    type V = RegionView;

    closed spec fn view(&self) -> RegionView {
        RegionView {
            base: self.region.base as nat,
            capacity: self.region.size as nat,
            offset: self.region.offset as nat,
            memory: self.memory@,
        }
    }
}

/// Asks the host for `byte_count` bytes of backing memory.
///
/// The host decides whether the request is served, except that a request
/// for no bytes always is. A block that is handed out has exactly
/// `byte_count` bytes, all zero; a request is never served in part.
pub fn reserve(byte_count: usize) -> (block: Option<Vec<u8>>)
    ensures
        block matches Some(memory) ==> memory@ == Seq::new(byte_count as nat, |i: int| 0u8),
        byte_count == 0 ==> block is Some,
{
    let mut memory: Vec<u8> = Vec::new();
    if byte_count == 0 {
        assert(memory@ =~= Seq::new(0, |i: int| 0u8));
        return Some(memory);
    }
    match memory.try_reserve(byte_count) {
        Ok(()) => {
            memory.resize(byte_count, 0u8);
            assert(memory@ =~= Seq::new(byte_count as nat, |i: int| 0u8));
            Some(memory)
        },
        Err(_) => None,
    }
}

impl RegionAllocator {
    #[verifier::type_invariant]
    spec fn inv(self) -> bool {
        &&& self.region.size == self.memory@.len()
        &&& self.region.offset <= self.region.size
        &&& self.region.base + self.region.size <= usize::MAX
    }

    /// Builds the region over what the host handed out: the empty region
    /// over the block, at base 0, or the failure to reserve it.
    pub fn from_reservation(block: Option<Vec<u8>>) -> (result: Result<RegionAllocator, AllocError>)
        ensures
            match block {
                Some(memory) => result matches Ok(allocator)
                    && allocator@ == RegionView::fresh(0, memory@),
                None => result == Err::<RegionAllocator, AllocError>(AllocError::ReservationFailed),
            },
    {
        match block {
            Some(memory) => {
                let size: u64 = memory.len() as u64;
                Ok(RegionAllocator { region: RegionMemoryBuffer { size, base: 0, offset: 0 }, memory })
            },
            None => Err(AllocError::ReservationFailed),
        }
    }

    /// Creates an allocator over a region of `size` bytes.
    ///
    /// The region is empty, starts at base 0 and holds `size` zero bytes. The
    /// only failure is that of the host to reserve the memory; a region of
    /// size 0 is always built, and serves requests for no bytes only.
    pub fn new(size: usize) -> (result: Result<RegionAllocator, AllocError>)
        ensures
            match result {
                Ok(allocator) => allocator@ == RegionView::fresh(
                    0,
                    Seq::new(size as nat, |i: int| 0u8),
                ),
                Err(error) => error == AllocError::ReservationFailed && size != 0,
            },
    {
        Self::from_reservation(reserve(size))
    }

    /// Allocates a chunk of `size` bytes and returns the address of its
    /// first byte.
    ///
    /// The request is served exactly when `size` bytes are left in the
    /// region. The address is then the one at the cursor, and the cursor
    /// moves forward by exactly `size`: sizes are not rounded up, so a caller
    /// that needs alignment asks for a size that provides it. Otherwise the
    /// region is out of capacity for this request and stays as it was, fit
    /// for smaller requests. A request for no bytes is always served and
    /// changes nothing.
    pub fn allocate(&mut self, size: usize) -> (result: Result<usize, AllocError>)
        ensures
            final(self)@.wf(),
            final(self)@ == old(self)@.allocate(size as nat),
            match result {
                Ok(address) => old(self)@.fits(size as nat) && address == old(self)@.cursor(),
                Err(error) => !old(self)@.fits(size as nat) && error
                    == AllocError::CapacityExhausted,
            },
    {
        proof {
            use_type_invariant(&*self);
        }
        let offset: usize = self.region.offset;
        let left: usize = self.memory.len() - offset;
        if size <= left {
            let address: usize = self.region.base + offset;
            self.region.offset = offset + size;
            Ok(address)
        } else {
            Err(AllocError::CapacityExhausted)
        }
    }

    /// Allocates `size` bytes and copies the `size` bytes of `base` into
    /// them. Returns the address of the copy.
    ///
    /// The request is served exactly when an allocation of `size` bytes is;
    /// the copy then holds the bytes of `base`, and every other byte of the
    /// region is as it was. Where the request is not served, nothing is
    /// copied and the region stays as it was.
    pub fn emplace_buffer(&mut self, base: &[u8], size: u64) -> (result: Result<usize, AllocError>)
        requires
            size == base@.len(),
        ensures
            final(self)@.wf(),
            final(self)@ == old(self)@.emplace(base@),
            match result {
                Ok(address) => old(self)@.fits(size as nat) && address == old(self)@.cursor(),
                Err(error) => !old(self)@.fits(size as nat) && error
                    == AllocError::CapacityExhausted,
            },
    {
        proof {
            use_type_invariant(&*self);
        }
        let count: usize = base.len();
        let offset: usize = self.region.offset;
        let left: usize = self.memory.len() - offset;
        if count <= left {
            let address: usize = self.region.base + offset;
            let mut done: usize = 0;
            while done < count
                invariant
                    count == base@.len(),
                    done <= count,
                    offset + count <= usize::MAX,
                    self.inv(),
                    self.region == old(self).region,
                    self.memory@.len() == old(self).memory@.len(),
                    offset + count <= self.memory@.len(),
                    forall|i: int|
                        0 <= i < self.memory@.len() ==> #[trigger] self.memory@[i] == if offset
                            <= i < offset + done {
                            base@[i - offset]
                        } else {
                            old(self).memory@[i]
                        },
                decreases count - done,
            {
                let byte: u8 = base[done];
                self.memory[offset + done] = byte;
                done = done + 1;
            }
            self.region.offset = offset + count;
            assert(self.memory@ =~= old(self)@.written(base@));
            Ok(address)
        } else {
            Err(AllocError::CapacityExhausted)
        }
    }

    /// Emplaces the byte image of `value`, as `emplace_buffer` emplaces
    /// bytes. Returns the address of the image.
    pub fn emplace_struct<T: ByteImage>(&mut self, value: &T) -> (result: Result<usize, AllocError>)
        ensures
            final(self)@.wf(),
            final(self)@ == old(self)@.emplace(value.byte_image()),
            match result {
                Ok(address) => old(self)@.fits(value.byte_image().len()) && address == old(
                    self,
                )@.cursor(),
                Err(error) => !old(self)@.fits(value.byte_image().len()) && error
                    == AllocError::CapacityExhausted,
            },
    {
        let image: Vec<u8> = value.to_bytes();
        let size: u64 = image.len() as u64;
        self.emplace_buffer(image.as_slice(), size)
    }

    /// Releases everything that was allocated, in one step.
    ///
    /// The cursor returns to the start of the region, so every address
    /// handed out before is no longer good. The region keeps its base, its
    /// capacity and its bytes, and can be allocated from again, up to its
    /// whole capacity. Releasing an empty region changes nothing. A release
    /// never fails.
    pub fn clear(&mut self) -> (result: Result<(), AllocError>)
        ensures
            final(self)@.wf(),
            final(self)@ == old(self)@.clear(),
            result is Ok,
    {
        proof {
            use_type_invariant(&*self);
        }
        self.region.offset = 0;
        Ok(())
    }

    /// Reads `size` bytes at `address`.
    ///
    /// The bytes are returned exactly when all of them lie in the part of
    /// the region that has been handed out since the last release.
    pub fn read(&self, address: usize, size: usize) -> (bytes: Option<Vec<u8>>)
        ensures
            self@.wf(),
            match bytes {
                Some(found) => self@.allocated(address as nat, size as nat) && found@
                    == self@.read(address as nat, size as nat),
                None => !self@.allocated(address as nat, size as nat),
            },
    {
        proof {
            use_type_invariant(self);
        }
        let base: usize = self.region.base;
        let end: usize = base + self.region.offset;
        if address < base || address > end || size > end - address {
            return None;
        }
        let start: usize = address - base;
        let mut found: Vec<u8> = Vec::new();
        let mut done: usize = 0;
        while done < size
            invariant
                done <= size,
                start + size <= usize::MAX,
                start + size <= self.memory@.len(),
                found@ == self.memory@.subrange(start as int, start + done),
            decreases size - done,
        {
            found.push(self.memory[start + done]);
            done = done + 1;
            assert(found@ =~= self.memory@.subrange(start as int, start + done));
        }
        Some(found)
    }

    /// The descriptor of this region, as native callers see it.
    pub fn region(&self) -> (descriptor: RegionMemoryBuffer)
        ensures
            self@.wf(),
            descriptor.wf(),
            descriptor.size == self@.capacity,
            descriptor.base == self@.base,
            descriptor.offset == self@.offset,
    {
        proof {
            use_type_invariant(self);
        }
        self.region
    }
}

} // verus!
