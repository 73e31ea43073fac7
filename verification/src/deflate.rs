//! The compressor: a zlib stream at the best compression level, fed piece
//! by piece.

use flate2::write::ZlibEncoder;
use flate2::Compression;
use std::io::Write;
use vstd::prelude::*;

verus! {

/// A `flate2::write::ZlibEncoder` over a vector of bytes. It is opaque here:
/// the contracts below speak of it through `zlib_sink` and `zlib_input`.
#[verifier::external_body]
pub struct Compressor {
    inner: ZlibEncoder<Vec<u8>>,
}

/// The bytes that the vector under a compressor held when the compressor was
/// made.
pub uninterp spec fn zlib_sink(encoder: Compressor) -> Seq<u8>;

/// The bytes that have been written to a compressor so far.
pub uninterp spec fn zlib_input(encoder: Compressor) -> Seq<u8>;

/// The zlib stream that `flate2` makes of `data` at its best compression
/// level.
pub uninterp spec fn zlib_stream(data: Seq<u8>) -> Seq<u8>;

/// A compressor at the best level that will append its stream to `sink`.
///
/// Calls `flate2::write::ZlibEncoder::new` with `Compression::best()`. The
/// contract claims that the new compressor has been fed nothing and holds
/// `sink` as it was given.
#[verifier::external_body]
pub(crate) fn zlib_open(sink: Vec<u8>) -> (encoder: Compressor)
    ensures
        zlib_sink(encoder) == sink@,
        zlib_input(encoder) == Seq::<u8>::empty(),
{
    Compressor { inner: ZlibEncoder::new(sink, Compression::best()) }
}

/// Feeds `data` to the compressor.
///
/// Calls `write_all` of `std::io::Write` on the `ZlibEncoder`. The contract
/// claims that the call succeeds, and that the compressor has then been fed
/// `data` after all that it was fed before. A write fails only where the
/// vector under the compressor refuses bytes, which a vector does not, or
/// where the compressor reports a bad parameter, which it does not between
/// `new` and `finish`.
#[verifier::external_body]
pub(crate) fn zlib_write(encoder: &mut Compressor, data: &[u8]) -> (r: Result<
    (),
    std::io::Error,
>)
    ensures
        r is Ok,
        zlib_input(*final(encoder)) == zlib_input(*old(encoder)) + data@,
        zlib_sink(*final(encoder)) == zlib_sink(*old(encoder)),
{
    encoder.inner.write_all(data)
}

/// Closes the stream and hands back the vector under the compressor.
///
/// Calls `flate2::write::ZlibEncoder::finish`. The contract claims that the
/// call succeeds, for the reasons given of a write, and that the vector then
/// holds what it held when the compressor was made, followed by the zlib
/// stream of all that the compressor was fed.
#[verifier::external_body]
pub(crate) fn zlib_finish(encoder: Compressor) -> (r: Result<Vec<u8>, std::io::Error>)
    ensures
        r is Ok,
        r matches Ok(out) ==> out@ == zlib_sink(encoder) + zlib_stream(zlib_input(encoder)),
{
    encoder.inner.finish()
}

} // verus!
