//! Byte images: the bytes that stand for a value in a region.

use vstd::prelude::*;
use vstd::bytes::{
    spec_u16_to_le_bytes, spec_u32_to_le_bytes, spec_u64_to_le_bytes, u16_to_le_bytes,
    u32_to_le_bytes, u64_to_le_bytes,
};

verus! {

/// A value with a byte image: the bytes that are copied into a region when
/// the value is emplaced.
pub trait ByteImage {
    /// The byte image of this value.
    spec fn byte_image(&self) -> Seq<u8>;

    /// Returns the byte image of this value.
    fn to_bytes(&self) -> (bytes: Vec<u8>)
        ensures
            bytes@ == self.byte_image(),
    ;
}

/// A byte is its own image.
impl ByteImage for u8 {
    open spec fn byte_image(&self) -> Seq<u8> {
        seq![*self]
    }

    fn to_bytes(&self) -> (bytes: Vec<u8>) {
        let mut bytes: Vec<u8> = Vec::new();
        bytes.push(*self);
        assert(bytes@ =~= seq![*self]);
        bytes
    }
}

/// Two bytes, the least significant first.
impl ByteImage for u16 {
    open spec fn byte_image(&self) -> Seq<u8> {
        spec_u16_to_le_bytes(*self)
    }

    fn to_bytes(&self) -> (bytes: Vec<u8>) {
        u16_to_le_bytes(*self)
    }
}

/// Four bytes, the least significant first.
impl ByteImage for u32 {
    open spec fn byte_image(&self) -> Seq<u8> {
        spec_u32_to_le_bytes(*self)
    }

    fn to_bytes(&self) -> (bytes: Vec<u8>) {
        u32_to_le_bytes(*self)
    }
}

/// Eight bytes, the least significant first.
impl ByteImage for u64 {
    open spec fn byte_image(&self) -> Seq<u8> {
        spec_u64_to_le_bytes(*self)
    }

    fn to_bytes(&self) -> (bytes: Vec<u8>) {
        u64_to_le_bytes(*self)
    }
}

/// The image of the unsigned number with the same bits.
impl ByteImage for i32 {
    open spec fn byte_image(&self) -> Seq<u8> {
        spec_u32_to_le_bytes(*self as u32)
    }

    fn to_bytes(&self) -> (bytes: Vec<u8>) {
        u32_to_le_bytes(*self as u32)
    }
}

/// The image of the unsigned number with the same bits.
impl ByteImage for i64 {
    open spec fn byte_image(&self) -> Seq<u8> {
        spec_u64_to_le_bytes(*self as u64)
    }

    fn to_bytes(&self) -> (bytes: Vec<u8>) {
        u64_to_le_bytes(*self as u64)
    }
}

} // verus!
