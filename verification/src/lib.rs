//! A region (arena) allocator for virtual-machine runtimes.
//!
//! A region owns one contiguous block of bytes and a cursor. Sub-allocations
//! are carved off at the cursor, which only ever moves forward, and the whole
//! region is reclaimed in a single step.

pub mod buffer;
pub mod error;
pub mod image;
pub mod model;
pub mod region;
pub mod theorems;

pub use buffer::{RegionMemoryBuffer, StackMemoryBuffer};
pub use error::AllocError;
pub use image::ByteImage;
pub use region::{reserve, RegionAllocator};
