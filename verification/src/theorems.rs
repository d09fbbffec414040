//! What holds of every region, proved over the model that the contracts of
//! the allocator are stated in.

use vstd::prelude::*;
use crate::model::{total, RegionView};

verus! {

/// A region that was just created is empty, and serves a request for its
/// whole capacity exactly once: the first such request returns the base, the
/// second is refused.
pub proof fn lemma_fresh_serves_capacity_once(base: nat, memory: Seq<u8>)
    requires
        memory.len() > 0,
    ensures
        RegionView::fresh(base, memory).wf(),
        RegionView::fresh(base, memory).offset == 0,
        RegionView::fresh(base, memory).capacity == memory.len(),
        RegionView::fresh(base, memory).fits(memory.len()),
        RegionView::fresh(base, memory).cursor() == base,
        !RegionView::fresh(base, memory).allocate(memory.len()).fits(memory.len()),
{
}

/// A request that is served gets a range of bytes that lies in the region,
/// and moves the cursor forward by its size. Whether served or not, a
/// request leaves a valid region with the same base, capacity and bytes, and
/// never moves the cursor back.
pub proof fn lemma_allocate_in_bounds(region: RegionView, size: nat)
    requires
        region.wf(),
    ensures
        region.allocate(size).wf(),
        region.allocate(size).base == region.base,
        region.allocate(size).capacity == region.capacity,
        region.allocate(size).memory == region.memory,
        region.allocate(size).offset >= region.offset,
        region.fits(size) ==> {
            &&& region.base <= region.cursor()
            &&& region.cursor() + size <= region.base + region.capacity
            &&& region.allocate(size).offset == region.offset + size
            &&& region.allocate(size).allocated(region.cursor(), size)
        },
{
}

/// Requests whose sizes add up to exactly what is left of a region are all
/// served, and leave the region full: one more request for a single byte is
/// refused for want of capacity.
pub proof fn lemma_exact_fill(region: RegionView, sizes: Seq<nat>)
    requires
        region.wf(),
        region.offset + total(sizes) == region.capacity,
    ensures
        region.all_fit(sizes),
        region.allocate_all(sizes).wf(),
        region.allocate_all(sizes).offset == region.capacity,
        region.allocate_all(sizes).capacity == region.capacity,
        !region.allocate_all(sizes).fits(1),
    decreases sizes.len(),
{
    if sizes.len() > 0 {
        lemma_exact_fill(region.allocate(sizes[0]), sizes.drop_first());
    }
}

/// A request that does not fit is refused and changes nothing: a smaller
/// request made next is served at the address where the cursor stood before
/// the refusal.
pub proof fn lemma_refusal_changes_nothing(region: RegionView, size: nat, smaller: nat)
    requires
        region.wf(),
        !region.fits(size),
        region.fits(smaller),
    ensures
        region.allocate(size) == region,
        region.allocate(size).fits(smaller),
        region.allocate(size).cursor() == region.cursor(),
{
}

/// Bytes that were emplaced are read back unchanged at the address that the
/// emplacement returned, whatever their number.
pub proof fn lemma_emplace_read_round_trip(region: RegionView, bytes: Seq<u8>)
    requires
        region.wf(),
        region.fits(bytes.len()),
    ensures
        region.emplace(bytes).wf(),
        region.emplace(bytes).offset == region.offset + bytes.len(),
        region.emplace(bytes).allocated(region.cursor(), bytes.len()),
        region.emplace(bytes).read(region.cursor(), bytes.len()) == bytes,
{
    assert(region.emplace(bytes).read(region.cursor(), bytes.len()) =~= bytes);
}

/// An emplacement moves the cursor as an allocation of the same size does,
/// and leaves what was handed out before as it was: a range allocated
/// earlier reads the same bytes afterwards.
pub proof fn lemma_emplace_keeps_earlier(
    region: RegionView,
    bytes: Seq<u8>,
    address: nat,
    size: nat,
)
    requires
        region.wf(),
        region.allocated(address, size),
    ensures
        region.emplace(bytes).wf(),
        region.emplace(bytes).base == region.base,
        region.emplace(bytes).capacity == region.capacity,
        region.emplace(bytes).offset == region.allocate(bytes.len()).offset,
        region.emplace(bytes).allocated(address, size),
        region.emplace(bytes).read(address, size) == region.read(address, size),
{
    assert(region.emplace(bytes).read(address, size) =~= region.read(address, size));
}

/// A request for no bytes is always served, at the cursor, and changes
/// nothing.
pub proof fn lemma_empty_request(region: RegionView)
    requires
        region.wf(),
    ensures
        region.fits(0),
        region.allocate(0) == region,
        region.emplace(Seq::<u8>::empty()) == region,
{
    assert(region.written(Seq::<u8>::empty()) =~= region.memory);
}

/// A release puts the region back where it was when it was created: every
/// request up to the whole capacity is served again, at the base. A second
/// release changes nothing more.
pub proof fn lemma_release_resets(region: RegionView, size: nat)
    requires
        region.wf(),
        size <= region.capacity,
    ensures
        region.clear() == RegionView::fresh(region.base, region.memory),
        region.clear().wf(),
        region.clear().fits(size),
        region.clear().cursor() == region.base,
        region.clear().allocate(size).offset == size,
        region.clear().clear() == region.clear(),
{
}

} // verus!
