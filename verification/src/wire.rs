//! Integers as they stand in the file: most significant byte first.

use byteorder::{BigEndian, WriteBytesExt};
use vstd::prelude::*;

verus! {

/// The four bytes of `value`, most significant first.
pub open spec fn be_u32(value: u32) -> Seq<u8> {
    seq![
        (value / 0x100_0000) as u8,
        (value / 0x1_0000 % 0x100) as u8,
        (value / 0x100 % 0x100) as u8,
        (value % 0x100) as u8,
    ]
}

/// The two bytes of `value`, most significant first.
pub open spec fn be_u16(value: u16) -> Seq<u8> {
    seq![(value / 0x100) as u8, (value % 0x100) as u8]
}

/// Appends `value` to `buf` as four bytes.
///
/// Calls `byteorder::WriteBytesExt::write_u32` with `BigEndian` on the
/// vector. The contract claims that the call appends the four bytes of
/// `value`, most significant first, and leaves the bytes before them alone;
/// writing to a vector does not fail.
#[verifier::external_body]
pub(crate) fn put_u32(buf: &mut Vec<u8>, value: u32)
    ensures
        final(buf)@ == old(buf)@ + be_u32(value),
{
    let _ = buf.write_u32::<BigEndian>(value);
}

/// Appends `value` to `buf` as two bytes.
///
/// Calls `byteorder::WriteBytesExt::write_u16` with `BigEndian` on the
/// vector. The contract claims that the call appends the two bytes of
/// `value`, most significant first, and leaves the bytes before them alone;
/// writing to a vector does not fail.
#[verifier::external_body]
pub(crate) fn put_u16(buf: &mut Vec<u8>, value: u16)
    ensures
        final(buf)@ == old(buf)@ + be_u16(value),
{
    let _ = buf.write_u16::<BigEndian>(value);
}

} // verus!
