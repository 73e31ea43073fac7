//! The ways in which encoding can fail.

use vstd::prelude::*;

verus! {

/// An I/O failure as `std` reports it. A value of this type is carried
/// through and never looked into.
#[verifier::external_type_specification]
#[verifier::external_body]
pub struct ExIoError(std::io::Error);

/// Why an animation could not be encoded.
#[derive(Debug)]
pub enum APNGError {
    /// An I/O failure. The compressor of this library writes to memory and
    /// does not fail, so that no function here gives this error; it is for
    /// those who write the bytes of the file to a sink of their own.
    Io(std::io::Error),
    /// The animation holds no image.
    ImagesNotFound,
    /// An image's sample buffer has the second number of bytes where the
    /// configuration asks for the first.
    WrongDataSize(usize, usize),
    /// The configuration declares the first number of frames; the second is
    /// the number of frames that the session was asked to hold.
    WrongFrameNums(usize, usize),
    /// A chunk's payload has this many bytes, more than the four bytes of a
    /// chunk's length field can count.
    ChunkTooLarge(usize),
}

pub type APNGResult<T> = Result<T, APNGError>;

impl From<std::io::Error> for APNGError {
    /// The error that carries an I/O failure.
    fn from(e: std::io::Error) -> (r: APNGError) {
        APNGError::Io(e)
    }
}

impl vstd::std_specs::convert::FromSpecImpl<std::io::Error> for APNGError {
    open spec fn obeys_from_spec() -> bool {
        true
    }

    open spec fn from_spec(e: std::io::Error) -> APNGError {
        APNGError::Io(e)
    }
}

} // verus!
