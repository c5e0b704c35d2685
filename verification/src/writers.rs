//! Trusted bindings to the external canonical encoder, one per primitive
//! shape.  Each wrapper appends one value's canonical encoding to a byte
//! vector; writing to a byte vector cannot fail, so the wrappers are
//! infallible.

use vstd::prelude::*;
use vstd::string::StringSliceAdditionalSpecFns;

use crate::encoding::le_bytes;

verus! {

/// Relies on borsh's `u8` serialization: the single byte itself.
#[verifier::external_body]
pub(crate) fn write_u8(x: u8, buf: &mut Vec<u8>)
    ensures
        final(buf)@ == old(buf)@ + le_bytes(x as int, 1),
{
    borsh::BorshSerialize::serialize(&x, buf).expect("writing to a byte vector cannot fail");
}

/// Relies on borsh's `u16` serialization: the two little-endian bytes.
#[verifier::external_body]
pub(crate) fn write_u16(x: u16, buf: &mut Vec<u8>)
    ensures
        final(buf)@ == old(buf)@ + le_bytes(x as int, 2),
{
    borsh::BorshSerialize::serialize(&x, buf).expect("writing to a byte vector cannot fail");
}

/// Relies on borsh's `u32` serialization: the four little-endian bytes.
#[verifier::external_body]
pub(crate) fn write_u32(x: u32, buf: &mut Vec<u8>)
    ensures
        final(buf)@ == old(buf)@ + le_bytes(x as int, 4),
{
    borsh::BorshSerialize::serialize(&x, buf).expect("writing to a byte vector cannot fail");
}

/// Relies on borsh's `u64` serialization: the eight little-endian bytes.
#[verifier::external_body]
pub(crate) fn write_u64(x: u64, buf: &mut Vec<u8>)
    ensures
        final(buf)@ == old(buf)@ + le_bytes(x as int, 8),
{
    borsh::BorshSerialize::serialize(&x, buf).expect("writing to a byte vector cannot fail");
}

/// Relies on borsh's `u128` serialization: the sixteen little-endian bytes.
#[verifier::external_body]
pub(crate) fn write_u128(x: u128, buf: &mut Vec<u8>)
    ensures
        final(buf)@ == old(buf)@ + le_bytes(x as int, 16),
{
    borsh::BorshSerialize::serialize(&x, buf).expect("writing to a byte vector cannot fail");
}

/// Relies on borsh's `usize` serialization: the value as a `u64`, eight
/// little-endian bytes.
#[verifier::external_body]
pub(crate) fn write_usize(x: usize, buf: &mut Vec<u8>)
    ensures
        final(buf)@ == old(buf)@ + le_bytes(x as int, 8),
{
    borsh::BorshSerialize::serialize(&x, buf).expect("writing to a byte vector cannot fail");
}

/// Relies on borsh's `i8` serialization: the two's-complement byte.
#[verifier::external_body]
pub(crate) fn write_i8(x: i8, buf: &mut Vec<u8>)
    ensures
        final(buf)@ == old(buf)@ + le_bytes(x as int, 1),
{
    borsh::BorshSerialize::serialize(&x, buf).expect("writing to a byte vector cannot fail");
}

/// Relies on borsh's `i16` serialization: two little-endian two's-complement
/// bytes.
#[verifier::external_body]
pub(crate) fn write_i16(x: i16, buf: &mut Vec<u8>)
    ensures
        final(buf)@ == old(buf)@ + le_bytes(x as int, 2),
{
    borsh::BorshSerialize::serialize(&x, buf).expect("writing to a byte vector cannot fail");
}

/// Relies on borsh's `i32` serialization: four little-endian two's-complement
/// bytes.
#[verifier::external_body]
pub(crate) fn write_i32(x: i32, buf: &mut Vec<u8>)
    ensures
        final(buf)@ == old(buf)@ + le_bytes(x as int, 4),
{
    borsh::BorshSerialize::serialize(&x, buf).expect("writing to a byte vector cannot fail");
}

/// Relies on borsh's `i64` serialization: eight little-endian two's-complement
/// bytes.
#[verifier::external_body]
pub(crate) fn write_i64(x: i64, buf: &mut Vec<u8>)
    ensures
        final(buf)@ == old(buf)@ + le_bytes(x as int, 8),
{
    borsh::BorshSerialize::serialize(&x, buf).expect("writing to a byte vector cannot fail");
}

/// Relies on borsh's `i128` serialization: sixteen little-endian
/// two's-complement bytes.
#[verifier::external_body]
pub(crate) fn write_i128(x: i128, buf: &mut Vec<u8>)
    ensures
        final(buf)@ == old(buf)@ + le_bytes(x as int, 16),
{
    borsh::BorshSerialize::serialize(&x, buf).expect("writing to a byte vector cannot fail");
}

/// Relies on borsh's `isize` serialization: the value as an `i64`, eight
/// little-endian two's-complement bytes.
#[verifier::external_body]
pub(crate) fn write_isize(x: isize, buf: &mut Vec<u8>)
    ensures
        final(buf)@ == old(buf)@ + le_bytes(x as int, 8),
{
    borsh::BorshSerialize::serialize(&x, buf).expect("writing to a byte vector cannot fail");
}

/// Relies on borsh's `bool` serialization: one byte, 1 for true and 0 for
/// false.
#[verifier::external_body]
pub(crate) fn write_bool(x: bool, buf: &mut Vec<u8>)
    ensures
        final(buf)@ == old(buf)@ + seq![if x { 1u8 } else { 0u8 }],
{
    borsh::BorshSerialize::serialize(&x, buf).expect("writing to a byte vector cannot fail");
}

/// Relies on borsh's `str` serialization: a four-byte little-endian count of
/// the UTF-8 bytes, then the UTF-8 bytes themselves.  The external encoder
/// refuses strings longer than the 32-bit prefix can state, so such strings
/// are excluded here.
#[verifier::external_body]
pub(crate) fn write_str(s: &str, buf: &mut Vec<u8>)
    requires
        s.spec_bytes().len() <= u32::MAX,
    ensures
        final(buf)@ == old(buf)@ + le_bytes(s.spec_bytes().len() as int, 4) + s.spec_bytes(),
{
    borsh::BorshSerialize::serialize(s, buf).expect("writing to a byte vector cannot fail");
}

} // verus!
