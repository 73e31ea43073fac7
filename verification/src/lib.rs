//! An encoder for animated PNG files.
//!
//! The crate turns an ordered list of decoded raster images into the bytes of
//! an animated PNG: scanlines are filtered, compressed as one zlib stream per
//! frame, and framed into length-prefixed, checksummed chunks, with the frame
//! control chunks and sequence numbers that the animation format asks for.
//!
//! Every function here carries a contract that states, byte for byte, what it
//! appends to the output. The compressed streams and the checksums come from
//! `flate2`, the big-endian integer fields from `byteorder`; the contracts
//! name those results and say where they stand.
//!
//! The crate does no I/O. An [`Encoder`] collects the bytes of the file in
//! memory, and the caller takes them and writes them where they belong.

pub mod apng;
pub mod chunk;
pub mod deflate;
pub mod encoder;
pub mod errors;
pub mod filter;
pub mod layout;
pub mod png;
pub mod wire;

pub use crate::apng::{BlendOp, Config, DisposeOp, Frame, APNG};
pub use crate::encoder::Encoder;
pub use crate::errors::{APNGError, APNGResult};
pub use crate::filter::{filter, filter_path, unfilter};
pub use crate::png::{
    raw_buffer, vec16_to_vec8, BitDepth, ColorType, FilterType, PNGImage, RawSamples,
};
