//! Byte layout of the account records: fields one after the other, integers
//! little-endian, addresses as their 32 bytes, a flag as one byte.
use vstd::prelude::*;
use vstd::arithmetic::power2::pow2;

verus! {

/// Bytes written before a record's fields: the record type's tag.
pub const TAG_LEN: usize = 8;

/// The little-endian bytes of an unsigned integer `width` bytes wide.
pub open spec fn le_bytes(v: nat, width: nat) -> Seq<u8> {
    Seq::new(width, |i: int| ((v / pow2((8 * i) as nat)) % 256) as u8)
}

pub open spec fn u64_bytes(v: u64) -> Seq<u8> {
    le_bytes(v as nat, 8)
}

pub open spec fn u16_bytes(v: u16) -> Seq<u8> {
    le_bytes(v as nat, 2)
}

pub open spec fn u8_bytes(v: u8) -> Seq<u8> {
    seq![v]
}

pub open spec fn bool_bytes(b: bool) -> Seq<u8> {
    seq![if b { 1u8 } else { 0u8 }]
}

} // verus!
