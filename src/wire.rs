use vstd::prelude::*;
use vstd::arithmetic::power2::pow2;
use byteorder::{ByteOrder, LittleEndian};

verus! {

/// The unsigned value of `b` read least significant byte first.
pub open spec fn le_value(b: Seq<u8>) -> nat
    decreases b.len(),
{
    if b.len() == 0 {
        0
    } else {
        b[0] as nat + 256 * le_value(b.drop_first())
    }
}

/// The two's complement reading of a `width`-bit unsigned value.
pub open spec fn to_signed(v: nat, width: nat) -> int {
    if v < pow2((width - 1) as nat) {
        v as int
    } else {
        v - pow2(width)
    }
}

/// Relies on byteorder's `LittleEndian::read_u16`: the first two bytes, low byte first.
#[verifier::external_body]
pub(crate) fn le_u16(b: &[u8]) -> (r: u16)
    requires
        b@.len() >= 2,
    ensures
        r as nat == le_value(b@.subrange(0, 2)),
{
    LittleEndian::read_u16(b)
}

/// Relies on byteorder's `LittleEndian::read_u32`: the first four bytes, low byte first.
#[verifier::external_body]
pub(crate) fn le_u32(b: &[u8]) -> (r: u32)
    requires
        b@.len() >= 4,
    ensures
        r as nat == le_value(b@.subrange(0, 4)),
{
    LittleEndian::read_u32(b)
}

/// Relies on byteorder's `LittleEndian::read_u64`: the first eight bytes, low byte first.
#[verifier::external_body]
pub(crate) fn le_u64(b: &[u8]) -> (r: u64)
    requires
        b@.len() >= 8,
    ensures
        r as nat == le_value(b@.subrange(0, 8)),
{
    LittleEndian::read_u64(b)
}

/// Relies on byteorder's `LittleEndian::read_i16`: the first two bytes, low byte
/// first, as two's complement.
#[verifier::external_body]
pub(crate) fn le_i16(b: &[u8]) -> (r: i16)
    requires
        b@.len() >= 2,
    ensures
        r as int == to_signed(le_value(b@.subrange(0, 2)), 16),
{
    LittleEndian::read_i16(b)
}

/// Relies on byteorder's `LittleEndian::read_i32`: the first four bytes, low byte
/// first, as two's complement.
#[verifier::external_body]
pub(crate) fn le_i32(b: &[u8]) -> (r: i32)
    requires
        b@.len() >= 4,
    ensures
        r as int == to_signed(le_value(b@.subrange(0, 4)), 32),
{
    LittleEndian::read_i32(b)
}

/// Relies on byteorder's `LittleEndian::read_i64`: the first eight bytes, low byte
/// first, as two's complement.
#[verifier::external_body]
pub(crate) fn le_i64(b: &[u8]) -> (r: i64)
    requires
        b@.len() >= 8,
    ensures
        r as int == to_signed(le_value(b@.subrange(0, 8)), 64),
{
    LittleEndian::read_i64(b)
}

} // verus!
