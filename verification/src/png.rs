//! The pixel formats of a PNG image and a decoded image in memory.

use vstd::prelude::*;

verus! {

/// How the samples of a pixel are to be read.
#[derive(Clone, Copy, Debug, PartialEq, Eq, Structural)]
pub enum ColorType {
    /// One grey sample.
    Grayscale,
    /// A red, a green and a blue sample.
    Rgb,
    /// One index into a palette.
    Indexed,
    /// A grey sample, then an alpha sample.
    GrayscaleAlpha,
    /// A red, a green, a blue and an alpha sample.
    Rgba,
}

impl ColorType {
    /// The number of samples that make up one pixel.
    pub open spec fn spec_samples(self) -> usize {
        match self {
            ColorType::Grayscale => 1,
            ColorType::Rgb => 3,
            ColorType::Indexed => 1,
            ColorType::GrayscaleAlpha => 2,
            ColorType::Rgba => 4,
        }
    }

    /// The byte that stands for this color type in an image header.
    pub open spec fn spec_code(self) -> u8 {
        match self {
            ColorType::Grayscale => 0,
            ColorType::Rgb => 2,
            ColorType::Indexed => 3,
            ColorType::GrayscaleAlpha => 4,
            ColorType::Rgba => 6,
        }
    }

    /// The number of samples that make up one pixel.
    #[verifier::when_used_as_spec(spec_samples)]
    pub fn samples(self) -> (n: usize)
        ensures
            n == self.spec_samples(),
    {
        match self {
            ColorType::Grayscale => 1,
            ColorType::Rgb => 3,
            ColorType::Indexed => 1,
            ColorType::GrayscaleAlpha => 2,
            ColorType::Rgba => 4,
        }
    }

    /// The byte that stands for this color type in an image header.
    #[verifier::when_used_as_spec(spec_code)]
    pub fn code(self) -> (c: u8)
        ensures
            c == self.spec_code(),
    {
        match self {
            ColorType::Grayscale => 0,
            ColorType::Rgb => 2,
            ColorType::Indexed => 3,
            ColorType::GrayscaleAlpha => 4,
            ColorType::Rgba => 6,
        }
    }
}

/// The number of bits in one sample.
#[derive(Clone, Copy, Debug, PartialEq, Eq, Structural)]
pub enum BitDepth {
    One,
    Two,
    Four,
    Eight,
    Sixteen,
}

impl BitDepth {
    /// The number of bits in one sample; it is also the byte that stands for
    /// this depth in an image header.
    pub open spec fn spec_bits(self) -> u8 {
        match self {
            BitDepth::One => 1,
            BitDepth::Two => 2,
            BitDepth::Four => 4,
            BitDepth::Eight => 8,
            BitDepth::Sixteen => 16,
        }
    }

    /// The number of bits in one sample.
    #[verifier::when_used_as_spec(spec_bits)]
    pub fn bits(self) -> (b: u8)
        ensures
            b == self.spec_bits(),
    {
        match self {
            BitDepth::One => 1,
            BitDepth::Two => 2,
            BitDepth::Four => 4,
            BitDepth::Eight => 8,
            BitDepth::Sixteen => 16,
        }
    }
}

/// The prediction that a scanline is filtered with.
#[derive(Clone, Copy, Debug, PartialEq, Eq, Structural)]
pub enum FilterType {
    /// The bytes stay as they are.
    NoFilter,
    /// Each byte is predicted by the byte one pixel to its left.
    Sub,
    /// Each byte is predicted by the byte above it.
    Up,
    /// Each byte is predicted by half the sum of its left and upper neighbour.
    Avg,
    /// Each byte is predicted by the Paeth choice among its left, upper and
    /// upper left neighbour.
    Paeth,
}

impl FilterType {
    /// The tag byte that precedes a scanline filtered in this way.
    pub open spec fn spec_code(self) -> u8 {
        match self {
            FilterType::NoFilter => 0,
            FilterType::Sub => 1,
            FilterType::Up => 2,
            FilterType::Avg => 3,
            FilterType::Paeth => 4,
        }
    }

    /// The tag byte that precedes a scanline filtered in this way.
    #[verifier::when_used_as_spec(spec_code)]
    pub fn code(self) -> (c: u8)
        ensures
            c == self.spec_code(),
    {
        match self {
            FilterType::NoFilter => 0,
            FilterType::Sub => 1,
            FilterType::Up => 2,
            FilterType::Avg => 3,
            FilterType::Paeth => 4,
        }
    }

    /// Whether the prediction looks at the scanline above.
    pub open spec fn uses_previous(self) -> bool {
        self == FilterType::Up || self == FilterType::Avg || self == FilterType::Paeth
    }
}

/// A decoded image: its size, its pixel format and its samples, row after
/// row from the top, with no padding between the rows.
#[derive(Clone, Debug)]
pub struct PNGImage {
    pub width: u32,
    pub height: u32,
    pub data: Vec<u8>,
    pub color_type: ColorType,
    pub bit_depth: BitDepth,
}

impl PNGImage {
    /// The number of bytes in one row of the image: its bits, rounded up to
    /// whole bytes.
    pub open spec fn row_bytes(&self) -> int {
        (self.width * self.color_type.spec_samples() * self.bit_depth.spec_bits() + 7) / 8
    }

    /// Whether the image holds as many bytes of samples as its size and its
    /// pixel format ask for.
    pub open spec fn well_formed(&self) -> bool {
        self.data@.len() == self.row_bytes() * self.height
    }

    /// Whether the image holds as many bytes of samples as its size and its
    /// pixel format ask for.
    #[verifier::when_used_as_spec(well_formed)]
    pub fn is_well_formed(&self) -> (r: bool)
        ensures
            r == self.well_formed(),
    {
        let per_pixel: u64 = (self.color_type.samples() as u64) * (self.bit_depth.bits() as u64);
        assert(self.width * per_pixel <= 0xffff_ffff * 64) by (nonlinear_arith)
            requires
                self.width <= 0xffff_ffff,
                per_pixel <= 64,
        ;
        assert(self.width * per_pixel == self.width * self.color_type.spec_samples()
            * self.bit_depth.spec_bits()) by (nonlinear_arith)
            requires
                per_pixel == self.color_type.spec_samples() * self.bit_depth.spec_bits(),
        ;
        let row: u64 = ((self.width as u64) * per_pixel + 7) / 8;
        assert(row * self.height <= 0x8_0000_0000 * 0xffff_ffff) by (nonlinear_arith)
            requires
                row <= 0x8_0000_0000,
                self.height <= 0xffff_ffff,
        ;
        let total: u128 = (row as u128) * (self.height as u128);
        self.data.len() as u128 == total
    }
}

/// The bytes of 16-bit samples, each sample as its low byte followed by its
/// high byte.
pub open spec fn le_bytes_of(samples: Seq<u16>) -> Seq<u8> {
    Seq::new(
        2 * samples.len(),
        |i: int|
            if i % 2 == 0 {
                (samples[i / 2] % 256) as u8
            } else {
                (samples[i / 2] / 256) as u8
            },
    )
}

/// Lays 16-bit samples out as bytes, low byte first.
pub fn vec16_to_vec8(input: Vec<u16>) -> (output: Vec<u8>)
    ensures
        output@ == le_bytes_of(input@),
{
    let mut output: Vec<u8> = Vec::new();
    let mut i: usize = 0;
    while i < input.len()
        invariant
            i <= input.len(),
            output@.len() == 2 * i,
            forall|j: int| 0 <= j < 2 * i ==> output@[j] == #[trigger] le_bytes_of(input@)[j],
        decreases input.len() - i,
    {
        let nb: u16 = input[i];
        output.push((nb % 256) as u8);
        output.push((nb / 256) as u8);
        i += 1;
    }
    assert(output@ =~= le_bytes_of(input@));
    output
}

/// The samples of a decoded image as the decoder holds them: of eight bits,
/// one byte each, or of sixteen bits.
#[derive(Clone, Debug)]
pub enum RawSamples {
    Eight(Vec<u8>),
    Sixteen(Vec<u16>),
}

/// The bytes and the bit depth of decoded samples: samples of eight bits
/// stay as they are, samples of sixteen bits are laid out low byte first.
pub fn raw_buffer(samples: RawSamples) -> (r: (Vec<u8>, BitDepth))
    ensures
        match samples {
            RawSamples::Eight(bytes) => r.0@ == bytes@ && r.1 == BitDepth::Eight,
            RawSamples::Sixteen(words) => r.0@ == le_bytes_of(words@) && r.1 == BitDepth::Sixteen,
        },
{
    match samples {
        RawSamples::Eight(bytes) => (bytes, BitDepth::Eight),
        RawSamples::Sixteen(words) => (vec16_to_vec8(words), BitDepth::Sixteen),
    }
}

} // verus!
