//! Little-endian byte views of the record's integer fields.
//!
//! The unlock time is a signed count of seconds; on the wire and in the
//! address derivation it travels as the two's-complement little-endian
//! bytes of that count.  `vstd::bytes` covers the unsigned widths; this
//! module adds the signed 64-bit conversion on top of it.

use vstd::prelude::*;
use vstd::bytes::spec_u64_to_le_bytes;
use vstd::bytes::spec_u64_from_le_bytes;
use vstd::bytes::u64_to_le_bytes;
use vstd::bytes::u64_from_le_bytes;
use vstd::bytes::lemma_auto_spec_u64_to_from_le_bytes;

verus! {

/// The two's-complement 64-bit image of a signed count.
pub open spec fn spec_i64_to_u64_wrap(v: i64) -> u64 {
    if v >= 0 {
        v as u64
    } else {
        (v + 0x1_0000_0000_0000_0000) as u64
    }
}

/// The signed count whose two's-complement 64-bit image is `x`.
pub open spec fn spec_u64_to_i64_wrap(x: u64) -> i64 {
    if x < 0x8000_0000_0000_0000 {
        x as i64
    } else {
        (x - 0x1_0000_0000_0000_0000) as i64
    }
}

/// The two conversions invert each other.
pub proof fn lemma_i64_u64_wrap_inverse(v: i64)
    ensures
        spec_u64_to_i64_wrap(spec_i64_to_u64_wrap(v)) == v,
{
}

pub fn i64_to_u64_wrap(v: i64) -> (r: u64)
    ensures
        r == spec_i64_to_u64_wrap(v),
{
    if v >= 0 {
        v as u64
    } else {
        let w: i128 = (v as i128) + 0x1_0000_0000_0000_0000i128;
        w as u64
    }
}

pub fn u64_to_i64_wrap(x: u64) -> (r: i64)
    ensures
        r == spec_u64_to_i64_wrap(x),
{
    if x < 0x8000_0000_0000_0000 {
        x as i64
    } else {
        let w: i128 = (x as i128) - 0x1_0000_0000_0000_0000i128;
        w as i64
    }
}

/// The little-endian bytes of a signed 64-bit count, in two's complement.
pub open spec fn spec_i64_to_le_bytes(v: i64) -> Seq<u8> {
    spec_u64_to_le_bytes(spec_i64_to_u64_wrap(v))
}

/// The signed 64-bit count read from eight little-endian bytes.
pub open spec fn spec_i64_from_le_bytes(s: Seq<u8>) -> i64
    recommends
        s.len() == 8,
{
    spec_u64_to_i64_wrap(spec_u64_from_le_bytes(s))
}

/// Writing a signed count and reading it back yields the count.
pub proof fn lemma_i64_to_from_le_bytes(v: i64)
    ensures
        spec_i64_to_le_bytes(v).len() == 8,
        spec_i64_from_le_bytes(spec_i64_to_le_bytes(v)) == v,
{
    lemma_auto_spec_u64_to_from_le_bytes();
    lemma_i64_u64_wrap_inverse(v);
}

pub fn i64_to_le_bytes(v: i64) -> (r: Vec<u8>)
    ensures
        r@ == spec_i64_to_le_bytes(v),
        r@.len() == 8,
{
    u64_to_le_bytes(i64_to_u64_wrap(v))
}

pub fn i64_from_le_bytes(s: &[u8]) -> (r: i64)
    requires
        s@.len() == 8,
    ensures
        r == spec_i64_from_le_bytes(s@),
{
    u64_to_i64_wrap(u64_from_le_bytes(s))
}

} // verus!
