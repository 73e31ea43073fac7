//! Chunks: the length-prefixed, tagged and checksummed records that a PNG
//! file is made of.

use crate::errors::{APNGError, APNGResult};
use crate::wire::{be_u32, put_u32};
use flate2::Crc;
use vstd::prelude::*;

verus! {

/// The CRC-32 checksum of `data`, as `flate2::Crc` computes it.
pub uninterp spec fn crc32(data: Seq<u8>) -> u32;

/// The bytes of a chunk with the given tag, payload and checksum: the length
/// of the payload in four bytes, the tag, the payload, the checksum in four
/// bytes.
pub open spec fn chunk_with_crc(tag: Seq<u8>, payload: Seq<u8>, crc: u32) -> Seq<u8> {
    be_u32(payload.len() as u32) + tag + payload + be_u32(crc)
}

/// The bytes of a chunk with the given tag and payload. Its checksum is taken
/// over the tag followed by the payload; the length field has no part in it.
pub open spec fn chunk(tag: Seq<u8>, payload: Seq<u8>) -> Seq<u8> {
    chunk_with_crc(tag, payload, crc32(tag + payload))
}

/// The checksum of `tag` followed by `payload`.
///
/// Feeds the tag and then the payload to a fresh `flate2::Crc` with
/// `Crc::update` and reads `Crc::sum`. The contract claims that the sum is
/// the CRC-32 of the bytes fed so far, in the order in which they were fed.
#[verifier::external_body]
fn checksum(tag: &[u8; 4], payload: &[u8]) -> (crc: u32)
    ensures
        crc == crc32(tag@ + payload@),
{
    let mut crc = Crc::new();
    crc.update(tag);
    crc.update(payload);
    crc.sum()
}

/// Appends to `out` the chunk with the given tag and payload, with `crc` in
/// the place of its checksum.
pub fn seal_chunk(out: &mut Vec<u8>, payload: &[u8], tag: [u8; 4], crc: u32)
    requires
        payload@.len() <= u32::MAX,
    ensures
        final(out)@ == old(out)@ + chunk_with_crc(tag@, payload@, crc),
{
    let ghost before = out@;
    put_u32(out, payload.len() as u32);
    out.extend_from_slice(tag.as_slice());
    out.extend_from_slice(payload);
    put_u32(out, crc);
    assert(out@ =~= before + chunk_with_crc(tag@, payload@, crc));
}

/// Appends to `out` the chunk with the given payload and tag, its checksum
/// taken over the tag and the payload.
pub(crate) fn put_chunk(out: &mut Vec<u8>, payload: &[u8], tag: [u8; 4])
    requires
        payload@.len() <= u32::MAX,
    ensures
        final(out)@ == old(out)@ + chunk(tag@, payload@),
{
    let crc = checksum(&tag, payload);
    seal_chunk(out, payload, tag, crc);
}

/// Appends to `out` the chunk with the given payload and tag, its checksum
/// taken over the tag and the payload.
///
/// A payload longer than the length field can count is refused, and `out`
/// stays as it was.
pub fn write_chunk(out: &mut Vec<u8>, payload: &[u8], tag: [u8; 4]) -> (r: APNGResult<()>)
    ensures
        payload@.len() <= u32::MAX ==> r is Ok && final(out)@ == old(out)@ + chunk(
            tag@,
            payload@,
        ),
        payload@.len() > u32::MAX ==> r == Err::<(), APNGError>(
            APNGError::ChunkTooLarge(payload@.len() as usize),
        ) && final(out)@ == old(out)@,
{
    if payload.len() > 0xffff_ffff {
        return Err(APNGError::ChunkTooLarge(payload.len()));
    }
    put_chunk(out, payload, tag);
    Ok(())
}

/// Where the parts of a chunk stand: the length of the payload in the first
/// four bytes, the tag in the next four, the payload behind them, and in the
/// last four bytes the checksum of the tag followed by the payload.
pub proof fn lemma_chunk_parts(tag: Seq<u8>, payload: Seq<u8>)
    requires
        tag.len() == 4,
        payload.len() <= u32::MAX,
    ensures
        chunk(tag, payload).len() == payload.len() + 12,
        chunk(tag, payload).subrange(0, 4) == be_u32(payload.len() as u32),
        chunk(tag, payload).subrange(4, 8) == tag,
        chunk(tag, payload).subrange(8, payload.len() as int + 8) == payload,
        chunk(tag, payload).subrange(payload.len() as int + 8, payload.len() as int + 12) == be_u32(
            crc32(tag + payload),
        ),
{
    let whole = chunk(tag, payload);
    assert(whole.subrange(0, 4) =~= be_u32(payload.len() as u32));
    assert(whole.subrange(4, 8) =~= tag);
    assert(whole.subrange(8, payload.len() as int + 8) =~= payload);
    assert(whole.subrange(payload.len() as int + 8, payload.len() as int + 12) =~= be_u32(
        crc32(tag + payload),
    ));
}

} // verus!
