use vstd::prelude::*;

use crate::phys::{le_u16_at, le_u32_at, le_u64_at, read_le_u16, read_le_u32, read_le_u64};

verus! {

/// A plain-old-data type: a value of it is its fixed little-endian bytes.
pub trait Pod: Sized {
    /// Number of bytes of a value.
    spec fn spec_size() -> nat;

    /// The value that the bytes `b` hold.
    spec fn spec_from_le(b: Seq<u8>) -> Self;

    fn byte_size() -> (r: usize)
        ensures
            r == Self::spec_size(),
    ;

    fn from_le(b: &Vec<u8>) -> (r: Self)
        requires
            b@.len() == Self::spec_size(),
        ensures
            r == Self::spec_from_le(b@),
    ;
}

/// Four little-endian bytes fit in 32 bits.
pub(crate) proof fn lemma_le_u32_fits(b: Seq<u8>)
    requires
        b.len() >= 4,
    ensures
        le_u32_at(b, 0) <= 0xffff_ffff,
{
    let (b0, b1, b2, b3) = (b[0], b[1], b[2], b[3]);
    assert((b0 as u64) | ((b1 as u64) << 8u64) | ((b2 as u64) << 16u64) | ((b3 as u64) << 24u64)
        <= 0xffff_ffff) by (bit_vector);
}

impl Pod for u8 {
    open spec fn spec_size() -> nat {
        1
    }

    open spec fn spec_from_le(b: Seq<u8>) -> u8 {
        b[0]
    }

    fn byte_size() -> (r: usize) {
        1
    }

    fn from_le(b: &Vec<u8>) -> (r: u8) {
        b[0]
    }
}

impl Pod for u16 {
    open spec fn spec_size() -> nat {
        2
    }

    open spec fn spec_from_le(b: Seq<u8>) -> u16 {
        le_u16_at(b, 0)
    }

    fn byte_size() -> (r: usize) {
        2
    }

    fn from_le(b: &Vec<u8>) -> (r: u16) {
        read_le_u16(b, 0)
    }
}

impl Pod for u32 {
    open spec fn spec_size() -> nat {
        4
    }

    open spec fn spec_from_le(b: Seq<u8>) -> u32 {
        le_u32_at(b, 0) as u32
    }

    fn byte_size() -> (r: usize) {
        4
    }

    fn from_le(b: &Vec<u8>) -> (r: u32) {
        proof {
            lemma_le_u32_fits(b@);
        }
        read_le_u32(b, 0) as u32
    }
}

impl Pod for u64 {
    open spec fn spec_size() -> nat {
        8
    }

    open spec fn spec_from_le(b: Seq<u8>) -> u64 {
        le_u64_at(b, 0)
    }

    fn byte_size() -> (r: usize) {
        8
    }

    fn from_le(b: &Vec<u8>) -> (r: u64) {
        read_le_u64(b, 0)
    }
}

} // verus!
