//! The animation: its images, the configuration derived from them, and the
//! settings of a single frame.

use crate::errors::{APNGError, APNGResult};
use crate::png::{BitDepth, ColorType, FilterType, PNGImage};
use vstd::prelude::*;

verus! {

/// The images of an animation, in the order in which they are played.
#[derive(Clone, Debug)]
pub struct APNG {
    pub images: Vec<PNGImage>,
}

impl APNG {
    /// The configuration of the animation that plays these images `plays`
    /// times (0 for ever): the size and pixel format of the first image, the
    /// number of images, and no filter. Where the first image is well formed,
    /// its samples have the size that the configuration asks of every frame.
    ///
    /// The number of frames is a field of four bytes: of more images than
    /// that can count, it holds the number modulo 2^32.
    ///
    /// An animation without images has no configuration.
    pub fn create_config(&mut self, plays: u32) -> (r: APNGResult<Config>)
        ensures
            *final(self) == *old(self),
            old(self).images@.len() == 0 ==> r == Err::<Config, APNGError>(
                APNGError::ImagesNotFound,
            ),
            old(self).images@.len() > 0 && old(self).images@[0].well_formed() ==> (r matches Ok(
                c,
            ) && old(self).images@[0].data@.len() == c.data_size()),
            old(self).images@.len() > 0 ==> r == Ok::<Config, APNGError>(
                Config {
                    width: old(self).images@[0].width,
                    height: old(self).images@[0].height,
                    num_frames: (old(self).images@.len() % 0x1_0000_0000) as u32,
                    num_plays: plays,
                    color: old(self).images@[0].color_type,
                    depth: old(self).images@[0].bit_depth,
                    filter: FilterType::NoFilter,
                },
            ),
    {
        if self.images.len() == 0 {
            return Err(APNGError::ImagesNotFound);
        }
        let image = &self.images[0];
        let count: u64 = self.images.len() as u64;
        Ok(
            Config {
                width: image.width,
                height: image.height,
                num_frames: (count % 0x1_0000_0000) as u32,
                num_plays: plays,
                color: image.color_type,
                depth: image.bit_depth,
                filter: FilterType::NoFilter,
            },
        )
    }
}

/// What all frames of an animation share.
#[derive(Clone, Copy, Debug, PartialEq, Eq)]
pub struct Config {
    pub width: u32,
    pub height: u32,
    /// The number of frames.
    pub num_frames: u32,
    /// How often the animation is played; 0 is for ever.
    pub num_plays: u32,
    pub color: ColorType,
    pub depth: BitDepth,
    pub filter: FilterType,
}

impl Config {
    /// The number of bytes in one pixel: a whole number of bytes for each
    /// sample, at least one.
    pub open spec fn spec_bytes_per_pixel(&self) -> usize {
        if self.depth.spec_bits() >= 8 {
            (self.color.spec_samples() * (self.depth.spec_bits() / 8)) as usize
        } else {
            self.color.spec_samples()
        }
    }

    /// The number of bits in one row of pixels.
    pub open spec fn row_bits(&self) -> int {
        self.width * self.color.spec_samples() * self.depth.spec_bits()
    }

    /// The number of bytes in one row of pixels: its bits, rounded up to
    /// whole bytes.
    pub open spec fn row_bytes(&self) -> int {
        (self.row_bits() + 7) / 8
    }

    /// The number of bytes in one scanline of the file: the tag byte of the
    /// filter, then the row.
    pub open spec fn spec_raw_row_length(&self) -> int {
        self.row_bytes() + 1
    }

    /// The number of bytes that the samples of one frame take: for each of
    /// its rows a scanline without the tag byte.
    pub open spec fn data_size(&self) -> int {
        (self.spec_raw_row_length() - 1) * self.height
    }

    /// Whether a session can encode frames of this configuration on this
    /// machine: the length of a scanline and the size of a frame's samples
    /// fit `usize`, and sequence numbers of four bytes can count the frames.
    pub open spec fn encodable(&self) -> bool {
        &&& self.spec_raw_row_length() <= usize::MAX
        &&& self.data_size() <= usize::MAX
        &&& self.num_frames <= 0x8000_0000
    }

    /// The number of bytes in one pixel, which is how far the filters look
    /// back in a row.
    #[verifier::when_used_as_spec(spec_bytes_per_pixel)]
    pub fn bytes_per_pixel(&self) -> (r: usize)
        ensures
            r == self.spec_bytes_per_pixel(),
            r > 0,
    {
        let bits = self.depth.bits();
        if bits >= 8 {
            self.color.samples() * ((bits / 8) as usize)
        } else {
            self.color.samples()
        }
    }

    /// The number of bytes in one scanline of the file, tag byte included.
    pub fn raw_row_length(&self) -> (r: usize)
        requires
            self.spec_raw_row_length() <= usize::MAX,
        ensures
            r == self.spec_raw_row_length(),
    {
        let bits: u64 = self.row_bits_exec();
        let extra: u64 = bits % 8;
        let whole: u64 = bits / 8 + match extra {
            0 => 0,
            _ => 1,
        } + 1;
        whole as usize
    }

    fn row_bits_exec(&self) -> (bits: u64)
        ensures
            bits == self.row_bits(),
            bits <= 0x40_0000_0000,
    {
        let per_pixel: u64 = (self.color.samples() as u64) * (self.depth.bits() as u64);
        assert(self.width * per_pixel <= 0xffff_ffff * 64) by (nonlinear_arith)
            requires
                self.width <= 0xffff_ffff,
                per_pixel <= 64,
        ;
        assert(self.width * per_pixel == self.row_bits()) by (nonlinear_arith)
            requires
                per_pixel == self.color.spec_samples() * self.depth.spec_bits(),
                self.row_bits() == self.width * self.color.spec_samples() * self.depth.spec_bits(),
        ;
        (self.width as u64) * per_pixel
    }

    /// The number of bytes that the samples of one frame take, where `usize`
    /// can hold that number.
    pub fn checked_data_size(&self) -> (r: Option<usize>)
        ensures
            self.data_size() <= usize::MAX ==> r == Some(self.data_size() as usize),
            self.data_size() > usize::MAX ==> r is None,
    {
        let bits: u64 = self.row_bits_exec();
        let row: u64 = (bits + 7) / 8;
        assert(row * self.height <= 0x8_0000_0000 * 0xffff_ffff) by (nonlinear_arith)
            requires
                row <= 0x8_0000_0000,
                self.height <= 0xffff_ffff,
        ;
        let total: u128 = (row as u128) * (self.height as u128);
        assert(total == self.data_size()) by (nonlinear_arith)
            requires
                total == row * self.height,
                row == self.row_bytes(),
                self.data_size() == self.row_bytes() * self.height,
        ;
        if total <= usize::MAX as u128 {
            Some(total as usize)
        } else {
            None
        }
    }

    /// Whether a session can encode frames of this configuration on this
    /// machine.
    pub fn is_encodable(&self) -> (r: bool)
        ensures
            r == self.encodable(),
    {
        let bits: u64 = self.row_bits_exec();
        (bits + 7) / 8 < usize::MAX as u64 && self.checked_data_size().is_some()
            && self.num_frames <= 0x8000_0000
    }
}

/// What becomes of a frame's region before the next frame is drawn.
#[derive(Clone, Copy, Debug, PartialEq, Eq, Structural)]
pub enum DisposeOp {
    /// It is left as it is.
    ApngDisposeOpNone,
    /// It is cleared to transparent black.
    ApngDisposeOpBackground,
    /// It is put back to what it held before the frame.
    ApngDisposeOpPrevious,
}

impl DisposeOp {
    /// The byte that stands for this operation in a frame control chunk.
    pub open spec fn spec_code(self) -> u8 {
        match self {
            DisposeOp::ApngDisposeOpNone => 0,
            DisposeOp::ApngDisposeOpBackground => 1,
            DisposeOp::ApngDisposeOpPrevious => 2,
        }
    }

    /// The byte that stands for this operation in a frame control chunk.
    #[verifier::when_used_as_spec(spec_code)]
    pub fn code(self) -> (c: u8)
        ensures
            c == self.spec_code(),
    {
        match self {
            DisposeOp::ApngDisposeOpNone => 0,
            DisposeOp::ApngDisposeOpBackground => 1,
            DisposeOp::ApngDisposeOpPrevious => 2,
        }
    }
}

/// How a frame's pixels are combined with what the canvas holds.
#[derive(Clone, Copy, Debug, PartialEq, Eq, Structural)]
pub enum BlendOp {
    /// They replace it.
    ApngBlendOpSource,
    /// They are composited over it by their alpha.
    ApngBlendOpOver,
}

impl BlendOp {
    /// The byte that stands for this operation in a frame control chunk.
    pub open spec fn spec_code(self) -> u8 {
        match self {
            BlendOp::ApngBlendOpSource => 0,
            BlendOp::ApngBlendOpOver => 1,
        }
    }

    /// The byte that stands for this operation in a frame control chunk.
    #[verifier::when_used_as_spec(spec_code)]
    pub fn code(self) -> (c: u8)
        ensures
            c == self.spec_code(),
    {
        match self {
            BlendOp::ApngBlendOpSource => 0,
            BlendOp::ApngBlendOpOver => 1,
        }
    }
}

/// The settings of one frame. A field that is `None` takes the value that
/// holds for the whole animation: the full canvas at offset 0, a delay of
/// one third of a second, no disposal, and replacement of the canvas.
#[derive(Clone, Debug, PartialEq, Eq)]
pub struct Frame {
    pub width: Option<u32>,
    pub height: Option<u32>,
    pub offset_x: Option<u32>,
    pub offset_y: Option<u32>,
    /// The numerator of the frame's delay in seconds.
    pub delay_num: Option<u16>,
    /// The denominator of the frame's delay in seconds.
    pub delay_den: Option<u16>,
    pub dispose_op: Option<DisposeOp>,
    pub blend_op: Option<BlendOp>,
}

impl Frame {
    /// The frame that sets nothing.
    pub open spec fn unset() -> Frame {
        Frame {
            width: None,
            height: None,
            offset_x: None,
            offset_y: None,
            delay_num: None,
            delay_den: None,
            dispose_op: None,
            blend_op: None,
        }
    }
}

impl Default for Frame {
    fn default() -> (frame: Frame)
        ensures
            frame == Frame::unset(),
    {
        Frame {
            width: None,
            height: None,
            offset_x: None,
            offset_y: None,
            delay_num: None,
            delay_den: None,
            dispose_op: None,
            blend_op: None,
        }
    }
}

} // verus!
