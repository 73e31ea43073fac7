//! The encoding session: it holds the configuration, the sequence counter
//! and the bytes written so far, and appends the file piece by piece.

use crate::apng::{BlendOp, Config, DisposeOp, Frame, APNG};
use crate::chunk::{chunk, put_chunk, write_chunk};
use crate::deflate::{zlib_finish, zlib_input, zlib_open, zlib_sink, zlib_stream, zlib_write};
use crate::errors::{APNGError, APNGResult};
use crate::filter::filter;
use crate::layout::{
    actl_payload, control_sequence, counting, fctl_payload, frame_bytes, frame_chunks,
    frame_index, header_bytes, ihdr_payload, lemma_frame_index, lemma_frame_is_run,
    lemma_run_of_one, lemma_run_of_runs, lemma_stamps_in_one, lemma_stamps_in_runs,
    lemma_stamps_of_frame, next_sequence, pixel_payload,
    pixel_tag, row_above, row_at, run_of, scanline, scanlines, scanlines_upto, settings,
    signature, stamps_in, trailer_bytes, value_or, ACTL, FCTL, FDAT, IDAT, IEND, IHDR,
};
use crate::png::PNGImage;
use crate::wire::{put_u16, put_u32};
use vstd::prelude::*;

verus! {

/// The settings that `frame` refers to, if any.
pub open spec fn referred(frame: Option<&Frame>) -> Option<Frame> {
    match frame {
        Some(f) => Some(*f),
        None => None,
    }
}

/// `value`, or `default` where there is none.
fn or_default<T: Copy>(value: Option<T>, default: T) -> (r: T)
    ensures
        r == value_or(value, default),
{
    match value {
        Some(v) => v,
        None => default,
    }
}

/// `n`, or the largest `usize` where `n` is larger.
pub open spec fn capped(n: nat) -> usize {
    if n <= usize::MAX {
        n as usize
    } else {
        usize::MAX
    }
}

/// Whether a chunk can hold `payload`: its length fits the four bytes of a
/// chunk's length field.
pub open spec fn fits_chunk(payload: Seq<u8>) -> bool {
    payload.len() <= u32::MAX
}

/// The error that says that `payload` is longer than a chunk can hold.
pub open spec fn too_large(payload: Seq<u8>) -> APNGError {
    APNGError::ChunkTooLarge(payload.len() as usize)
}

/// What holds after the attempt to append a pixel chunk with the given tag
/// and payload to `before`, where the samples had the right size. Where a
/// chunk can hold the payload, the attempt succeeds and the chunk stands
/// behind `before`. Where it cannot, the attempt fails with the error that
/// says so, and nothing is appended.
pub open spec fn pixel_chunk_written(
    r: APNGResult<()>,
    before: Seq<u8>,
    after: Seq<u8>,
    tag: Seq<u8>,
    payload: Seq<u8>,
) -> bool {
    if fits_chunk(payload) {
        r is Ok && after == before + chunk(tag, payload)
    } else {
        r == Err::<(), APNGError>(too_large(payload)) && after == before
    }
}

/// The pixel payload of image `i` of `images`, written as frame `first + i`.
pub open spec fn nth_payload(config: Config, first: nat, images: Seq<PNGImage>, i: int) -> Seq<
    u8,
> {
    pixel_payload(config, (first + i) as nat, images[i].data@)
}

/// Whether a chunk can hold the pixel payload of each of the first `n` of
/// `images`, written as frames `first`, `first + 1` and so on.
pub open spec fn payloads_fit(config: Config, first: nat, images: Seq<PNGImage>, n: int) -> bool {
    forall|i: int| 0 <= i < n ==> fits_chunk(#[trigger] nth_payload(config, first, images, i))
}

/// The bytes of the first `n` of `images`, written as frames `first`,
/// `first + 1` and so on, each with the settings of `frame`.
pub open spec fn frames_bytes(
    config: Config,
    first: nat,
    frame: Option<Frame>,
    images: Seq<PNGImage>,
    n: nat,
) -> Seq<u8>
    decreases n,
{
    if n == 0 {
        Seq::empty()
    } else {
        frames_bytes(config, first, frame, images, (n - 1) as nat) + frame_bytes(
            config,
            (first + n - 1) as nat,
            frame,
            images[n - 1].data@,
        )
    }
}

/// The tag and the payload of each chunk of the first `n` of `images`,
/// written as frames `first`, `first + 1` and so on.
pub open spec fn frames_chunks(
    config: Config,
    first: nat,
    frame: Option<Frame>,
    images: Seq<PNGImage>,
    n: nat,
) -> Seq<(Seq<u8>, Seq<u8>)>
    decreases n,
{
    if n == 0 {
        Seq::empty()
    } else {
        frames_chunks(config, first, frame, images, (n - 1) as nat) + frame_chunks(
            config,
            (first + n - 1) as nat,
            frame,
            images[n - 1].data@,
        )
    }
}

/// The bytes of the whole file of an animation: what a new session holds,
/// then `images` as frames 0, 1 and so on, then the closing chunk. This is
/// what `encode_all` hands over where it is called on a new session and
/// succeeds.
pub open spec fn session_bytes(config: Config, frame: Option<Frame>, images: Seq<PNGImage>) -> Seq<
    u8,
> {
    header_bytes(config) + frames_bytes(config, 0, frame, images, images.len()) + trailer_bytes()
}

/// The tag and the payload of each chunk of the whole file of an animation.
pub open spec fn session_chunks(
    config: Config,
    frame: Option<Frame>,
    images: Seq<PNGImage>,
) -> Seq<(Seq<u8>, Seq<u8>)> {
    seq![(IHDR@, ihdr_payload(config)), (ACTL@, actl_payload(config))] + frames_chunks(
        config,
        0,
        frame,
        images,
        images.len(),
    ) + seq![(IEND@, Seq::<u8>::empty())]
}

/// The bytes of frames are the run of their chunks, and the sequence number
/// fields of those chunks count on by one from the number that the first of
/// the frames begins with.
pub proof fn lemma_frames_are_run(
    config: Config,
    first: nat,
    frame: Option<Frame>,
    images: Seq<PNGImage>,
    n: nat,
)
    ensures
        frames_bytes(config, first, frame, images, n) == run_of(
            frames_chunks(config, first, frame, images, n),
        ),
        stamps_in(frames_chunks(config, first, frame, images, n)) == counting(
            control_sequence(first),
            control_sequence(first + n),
        ),
    decreases n,
{
    if n == 0 {
        assert(counting(control_sequence(first), control_sequence(first)) =~= Seq::<
            Seq<u8>,
        >::empty());
    } else {
        let before = frames_chunks(config, first, frame, images, (n - 1) as nat);
        let k = (first + n - 1) as nat;
        let last = frame_chunks(config, k, frame, images[n - 1].data@);
        lemma_frames_are_run(config, first, frame, images, (n - 1) as nat);
        lemma_frame_is_run(config, k, frame, images[n - 1].data@);
        lemma_stamps_of_frame(config, k, frame, images[n - 1].data@);
        lemma_run_of_runs(before, last);
        lemma_stamps_in_runs(before, last);
        assert(counting(control_sequence(first), control_sequence(k)) + counting(
            control_sequence(k),
            control_sequence(k + 1),
        ) =~= counting(control_sequence(first), control_sequence(first + n)));
    }
}

/// The whole file of an animation is its signature and then a run of
/// chunks, with no byte between them or behind them: the image header, the
/// animation control, each frame's chunks, and the closing chunk.
pub proof fn lemma_session_is_run(config: Config, frame: Option<Frame>, images: Seq<PNGImage>)
    ensures
        session_bytes(config, frame, images) == signature() + run_of(
            session_chunks(config, frame, images),
        ),
{
    let ihdr = seq![(IHDR@, ihdr_payload(config))];
    let actl = seq![(ACTL@, actl_payload(config))];
    let frames = frames_chunks(config, 0, frame, images, images.len());
    let tail = seq![(IEND@, Seq::<u8>::empty())];
    lemma_frames_are_run(config, 0, frame, images, images.len());
    lemma_run_of_one(IHDR@, ihdr_payload(config));
    lemma_run_of_one(ACTL@, actl_payload(config));
    lemma_run_of_one(IEND@, Seq::<u8>::empty());
    lemma_run_of_runs(ihdr, actl);
    lemma_run_of_runs(ihdr + actl, frames);
    lemma_run_of_runs(ihdr + actl + frames, tail);
    assert(session_chunks(config, frame, images) =~= ihdr + actl + frames + tail);
    let a = chunk(IHDR@, ihdr_payload(config));
    let b = chunk(ACTL@, actl_payload(config));
    let c = frames_bytes(config, 0, frame, images, images.len());
    let d = trailer_bytes();
    assert(run_of(ihdr + actl + frames + tail) == a + b + c + d);
    assert(((signature() + a + b) + c) + d =~= signature() + (((a + b) + c) + d));
}

/// The sequence number fields of the chunks of a whole file, read in the
/// order of the chunks, are 0, 1, 2 and so on, however many frames there
/// are; the chunks outside the frames have none.
pub proof fn lemma_session_counts_up(config: Config, frame: Option<Frame>, images: Seq<PNGImage>)
    ensures
        stamps_in(session_chunks(config, frame, images)) == counting(
            0,
            control_sequence(images.len()),
        ),
{
    let none = Seq::<Seq<u8>>::empty();
    let ihdr = seq![(IHDR@, ihdr_payload(config))];
    let actl = seq![(ACTL@, actl_payload(config))];
    let frames = frames_chunks(config, 0, frame, images, images.len());
    let tail = seq![(IEND@, Seq::<u8>::empty())];
    lemma_frames_are_run(config, 0, frame, images, images.len());
    lemma_stamps_in_one(IHDR@, ihdr_payload(config));
    lemma_stamps_in_one(ACTL@, actl_payload(config));
    lemma_stamps_in_one(IEND@, Seq::<u8>::empty());
    lemma_stamps_in_runs(ihdr, actl);
    lemma_stamps_in_runs(ihdr + actl, frames);
    lemma_stamps_in_runs(ihdr + actl + frames, tail);
    assert(session_chunks(config, frame, images) =~= ihdr + actl + frames + tail);
    assert(IHDR@[0] != FCTL@[0] && IHDR@[0] != FDAT@[0]);
    assert(ACTL@[0] != FCTL@[0] && ACTL@[1] != FDAT@[1]);
    assert(IEND@[0] != FCTL@[0] && IEND@[0] != FDAT@[0]);
    assert(stamps_in(ihdr) == none && stamps_in(actl) == none && stamps_in(tail) == none);
    assert(((none + none) + stamps_in(frames)) + none =~= stamps_in(frames));
}

/// Whether the samples of each of the first `n` of `images` have the size
/// that `config` asks for.
pub open spec fn sizes_match(config: Config, images: Seq<PNGImage>, n: int) -> bool {
    forall|i: int| 0 <= i < n ==> (#[trigger] images[i]).data@.len() == config.data_size()
}

/// An encoding session.
///
/// A session is made with the beginning of the file already written, takes
/// the frames one by one, and ends with the closing chunk. What it writes
/// collects in a buffer that the caller may empty at any time.
#[derive(Debug)]
pub struct Encoder {
    config: Config,
    out: Vec<u8>,
    seq_num: u32,
}

impl Encoder {
    #[verifier::type_invariant]
    spec fn well_formed(&self) -> bool {
        &&& self.config.encodable()
        &&& (self.seq_num == 0 || self.seq_num % 2 == 1)
        &&& frame_index(self.seq_num as nat) <= self.config.num_frames
    }

    /// The configuration that the session was made with.
    pub closed spec fn spec_config(&self) -> Config {
        self.config
    }

    /// The bytes that the session has written and the caller has not taken.
    pub closed spec fn pending(&self) -> Seq<u8> {
        self.out@
    }

    /// The number of frames that the session has written.
    pub closed spec fn spec_frames_written(&self) -> nat {
        frame_index(self.seq_num as nat)
    }

    /// The sequence number that the next frame control chunk will carry.
    pub open spec fn spec_sequence_number(&self) -> nat {
        control_sequence(self.spec_frames_written())
    }

    /// The configuration that the session was made with.
    #[verifier::when_used_as_spec(spec_config)]
    pub fn config(&self) -> (c: Config)
        ensures
            c == self.spec_config(),
    {
        self.config
    }

    /// The number of frames that the session has written.
    pub fn frames_written(&self) -> (n: u32)
        ensures
            n == self.spec_frames_written(),
            n <= self.spec_config().num_frames,
    {
        proof {
            use_type_invariant(self);
        }
        self.seq_num / 2 + self.seq_num % 2
    }

    /// The sequence number that the next frame control chunk will carry.
    pub fn sequence_number(&self) -> (n: u32)
        ensures
            n == self.spec_sequence_number(),
    {
        proof {
            use_type_invariant(self);
        }
        self.seq_num
    }

    /// Appends the signature of a PNG file to `out`.
    fn write_png_header(out: &mut Vec<u8>)
        ensures
            final(out)@ == old(out)@ + signature(),
    {
        let bytes: [u8; 8] = [0x89, 0x50, 0x4e, 0x47, 0x0d, 0x0a, 0x1a, 0x0a];
        out.extend_from_slice(bytes.as_slice());
        assert(out@ =~= old(out)@ + signature());
    }

    /// Appends the image header chunk of `config` to `out`.
    fn write_ihdr(out: &mut Vec<u8>, config: &Config)
        ensures
            final(out)@ == old(out)@ + chunk(IHDR@, ihdr_payload(*config)),
    {
        let mut buf: Vec<u8> = Vec::new();
        put_u32(&mut buf, config.width);
        put_u32(&mut buf, config.height);
        let rest: [u8; 5] = [config.depth.bits(), config.color.code(), 0, 0, 0];
        buf.extend_from_slice(rest.as_slice());
        assert(buf@ =~= ihdr_payload(*config));
        put_chunk(out, buf.as_slice(), IHDR);
    }

    /// Appends the animation control chunk of `config` to `out`.
    fn write_ac_tl(out: &mut Vec<u8>, config: &Config)
        ensures
            final(out)@ == old(out)@ + chunk(ACTL@, actl_payload(*config)),
    {
        let mut buf: Vec<u8> = Vec::new();
        put_u32(&mut buf, config.num_frames);
        put_u32(&mut buf, config.num_plays);
        assert(buf@ =~= actl_payload(*config));
        put_chunk(out, buf.as_slice(), ACTL);
    }

    /// Appends to `out` the frame control chunk that carries `sequence` and the
    /// settings of `frame`, with what holds for the whole animation where the
    /// frame sets nothing.
    fn write_fc_tl(out: &mut Vec<u8>, config: &Config, sequence: u32, frame: Option<&Frame>)
        ensures
            final(out)@ == old(out)@ + chunk(
                FCTL@,
                fctl_payload(*config, sequence, referred(frame)),
            ),
    {
        let unset = Frame::default();
        let f: &Frame = match frame {
            Some(f) => f,
            None => &unset,
        };
        assert(*f == settings(referred(frame)));
        let mut buf: Vec<u8> = Vec::new();
        put_u32(&mut buf, sequence);
        put_u32(&mut buf, or_default(f.width, config.width));
        put_u32(&mut buf, or_default(f.height, config.height));
        put_u32(&mut buf, or_default(f.offset_x, 0));
        put_u32(&mut buf, or_default(f.offset_y, 0));
        put_u16(&mut buf, or_default(f.delay_num, 1));
        put_u16(&mut buf, or_default(f.delay_den, 3));
        let dispose_op: DisposeOp = or_default(f.dispose_op, DisposeOp::ApngDisposeOpNone);
        let blend_op: BlendOp = or_default(f.blend_op, BlendOp::ApngBlendOpSource);
        let ops: [u8; 2] = [dispose_op.code(), blend_op.code()];
        buf.extend_from_slice(ops.as_slice());
        assert(buf@ =~= fctl_payload(*config, sequence, referred(frame)));
        put_chunk(out, buf.as_slice(), FCTL);
    }

    /// Appends the closing chunk to `out`.
    fn write_iend(out: &mut Vec<u8>)
        ensures
            final(out)@ == old(out)@ + trailer_bytes(),
    {
        let empty: [u8; 0] = [];
        assert(empty@ =~= Seq::<u8>::empty());
        put_chunk(out, empty.as_slice(), IEND);
    }

    /// Compresses the scanlines of a frame whose samples are `data`, and appends
    /// the stream to `buf`.
    ///
    /// Each row is copied into a buffer of its own, filtered there against the
    /// unfiltered row above it, and fed to the compressor behind the tag byte of
    /// the filter. Samples of the wrong size are refused before anything is
    /// compressed.
    fn make_image_buffer(config: &Config, data: &[u8], buf: Vec<u8>) -> (r: APNGResult<Vec<u8>>)
        requires
            config.encodable(),
        ensures
            data@.len() != config.data_size() ==> r == Err::<Vec<u8>, APNGError>(
                APNGError::WrongDataSize(config.data_size() as usize, data@.len() as usize),
            ),
            data@.len() == config.data_size() ==> (r matches Ok(out) && out@ == buf@ + zlib_stream(
                scanlines(*config, data@),
            )),
    {
        let bpp = config.bytes_per_pixel();
        let in_len = config.raw_row_length() - 1;
        let data_size = config.checked_data_size().unwrap();
        if data_size != data.len() {
            return Err(APNGError::WrongDataSize(data_size, data.len()));
        }
        let zeros: Vec<u8> = vec![0u8; in_len];
        assert(zeros@ =~= row_above(*config, data@, 0));
        let mut current: Vec<u8> = Vec::with_capacity(in_len);
        let method = config.filter;
        let tag: [u8; 1] = [method.code()];

        let mut zlib = zlib_open(buf);
        let mut row: u32 = 0;
        let mut start: usize = 0;
        while row < config.height
            invariant
                row <= config.height,
                bpp == config.spec_bytes_per_pixel(),
                bpp > 0,
                in_len == config.row_bytes(),
                method == config.filter,
                tag@ == seq![method.spec_code()],
                data@.len() == config.row_bytes() * config.height,
                data@.len() <= usize::MAX,
                start == row * config.row_bytes(),
                zeros@ == row_above(*config, data@, 0),
                zlib_sink(zlib) == buf@,
                zlib_input(zlib) == scanlines_upto(*config, data@, row as nat),
            decreases config.height - row,
        {
            let ghost fed = zlib_input(zlib);
            assert((row + 1) * config.row_bytes() <= config.row_bytes() * config.height
                && (row + 1) * config.row_bytes() == row * config.row_bytes() + config.row_bytes())
                by (nonlinear_arith)
                requires
                    row < config.height,
                    config.row_bytes() >= 0,
            ;
            let line = vstd::slice::slice_subrange(data, start, start + in_len);
            current.clear();
            current.extend_from_slice(line);
            assert(current@ =~= row_at(*config, data@, row as int));
            match zlib_write(&mut zlib, tag.as_slice()) {
                Ok(()) => {},
                Err(e) => {
                    return Err(APNGError::from(e));
                },
            }
            if row == 0 {
                filter(method, bpp, zeros.as_slice(), current.as_mut_slice());
            } else {
                assert((row - 1) * config.row_bytes() == row * config.row_bytes()
                    - config.row_bytes() && (row - 1) * config.row_bytes() >= 0)
                    by (nonlinear_arith)
                    requires
                        row >= 1,
                        config.row_bytes() >= 0,
                ;
                let above = vstd::slice::slice_subrange(data, start - in_len, start);
                filter(method, bpp, above, current.as_mut_slice());
            }
            match zlib_write(&mut zlib, current.as_slice()) {
                Ok(()) => {},
                Err(e) => {
                    return Err(APNGError::from(e));
                },
            }
            assert(zlib_input(zlib) =~= fed + scanline(*config, data@, row as int));
            start = start + in_len;
            row = row + 1;
        }
        match zlib_finish(zlib) {
            Ok(out) => Ok(out),
            Err(e) => Err(APNGError::from(e)),
        }
    }

    /// Appends to `out` the pixel chunk of the first frame, whose samples are
    /// `data`. Where that fails, `out` stays as it was.
    fn write_idats(out: &mut Vec<u8>, config: &Config, data: &[u8]) -> (r: APNGResult<()>)
        requires
            config.encodable(),
        ensures
            data@.len() != config.data_size() ==> r == Err::<(), APNGError>(
                APNGError::WrongDataSize(config.data_size() as usize, data@.len() as usize),
            ),
            data@.len() == config.data_size() ==> pixel_chunk_written(
                r,
                old(out)@,
                final(out)@,
                IDAT@,
                pixel_payload(*config, 0, data@),
            ),
            r is Err ==> final(out)@ == old(out)@,
    {
        let buf: Vec<u8> = Vec::new();
        let payload = Self::make_image_buffer(config, data, buf)?;
        assert(payload@ =~= pixel_payload(*config, 0, data@));
        write_chunk(out, payload.as_slice(), IDAT)
    }

    /// Appends to `out` the pixel chunk of a frame after the first, whose
    /// samples are `data`; the chunk carries `sequence`, which is twice the
    /// frame's place in the animation. Where that fails, `out` stays as it was.
    fn write_fd_at(out: &mut Vec<u8>, config: &Config, sequence: u32, data: &[u8]) -> (r:
        APNGResult<()>)
        requires
            config.encodable(),
            sequence > 0,
            sequence % 2 == 0,
        ensures
            data@.len() != config.data_size() ==> r == Err::<(), APNGError>(
                APNGError::WrongDataSize(config.data_size() as usize, data@.len() as usize),
            ),
            data@.len() == config.data_size() ==> pixel_chunk_written(
                r,
                old(out)@,
                final(out)@,
                FDAT@,
                pixel_payload(*config, (sequence / 2) as nat, data@),
            ),
            r is Err ==> final(out)@ == old(out)@,
    {
        let mut buf: Vec<u8> = Vec::new();
        put_u32(&mut buf, sequence);
        let payload = Self::make_image_buffer(config, data, buf)?;
        assert(payload@ =~= pixel_payload(*config, (sequence / 2) as nat, data@));
        write_chunk(out, payload.as_slice(), FDAT)
    }

    /// The beginning of the file for `config`: the signature, the image
    /// header chunk and the animation control chunk.
    pub fn header(config: &Config) -> (bytes: Vec<u8>)
        ensures
            bytes@ == header_bytes(*config),
    {
        let mut out: Vec<u8> = Vec::new();
        Self::write_png_header(&mut out);
        Self::write_ihdr(&mut out, config);
        Self::write_ac_tl(&mut out, config);
        assert(out@ =~= header_bytes(*config));
        out
    }

    /// A session for `config`, with the beginning of the file written: the
    /// signature, the image header chunk and the animation control chunk.
    pub fn new(config: Config) -> (r: APNGResult<Encoder>)
        requires
            config.encodable(),
        ensures
            r matches Ok(e) && e.spec_config() == config && e.pending() == header_bytes(config)
                && e.spec_frames_written() == 0,
    {
        let out = Self::header(&config);
        Ok(Encoder { config, out, seq_num: 0 })
    }

    /// Hands over the bytes written so far and leaves none pending.
    pub fn take_output(&mut self) -> (bytes: Vec<u8>)
        ensures
            bytes@ == old(self).pending(),
            final(self).pending() == Seq::<u8>::empty(),
            final(self).spec_config() == old(self).spec_config(),
            final(self).spec_frames_written() == old(self).spec_frames_written(),
    {
        proof {
            use_type_invariant(&*self);
        }
        let mut bytes: Vec<u8> = Vec::new();
        std::mem::swap(&mut self.out, &mut bytes);
        bytes
    }

    /// What holds after the attempt to write a frame with samples `data` and
    /// the settings of `frame`, where the session had room for the frame and
    /// the samples had the right size. Where a chunk can hold the frame's
    /// pixel payload, the attempt succeeds: the frame stands behind what was
    /// pending and the session counts one frame more. Where it cannot, the
    /// attempt fails with the error that says so, and the session is as it
    /// was.
    pub open spec fn frame_written(
        before: Encoder,
        after: Encoder,
        r: APNGResult<()>,
        frame: Option<Frame>,
        data: Seq<u8>,
    ) -> bool {
        let config = before.spec_config();
        let k = before.spec_frames_written();
        let payload = pixel_payload(config, k, data);
        &&& after.spec_config() == config
        &&& if fits_chunk(payload) {
            &&& r is Ok
            &&& after.pending() == before.pending() + frame_bytes(config, k, frame, data)
            &&& after.spec_frames_written() == k + 1
        } else {
            &&& r == Err::<(), APNGError>(too_large(payload))
            &&& after.pending() == before.pending()
            &&& after.spec_frames_written() == k
        }
    }

    /// Appends to `out` the frame that begins with `sequence`: its frame
    /// control chunk, then its pixel chunk, which is `IDAT` where `sequence`
    /// is 0 and `fdAT` with the next sequence number where it is not. Where
    /// that fails, `out` stays as it was.
    fn write_frame_chunks(
        out: &mut Vec<u8>,
        config: &Config,
        sequence: u32,
        data: &[u8],
        frame: Option<&Frame>,
    ) -> (r: APNGResult<()>)
        requires
            config.encodable(),
            sequence == 0 || sequence % 2 == 1,
            sequence < u32::MAX,
        ensures
            r is Err ==> final(out)@ == old(out)@,
            data@.len() != config.data_size() ==> r == Err::<(), APNGError>(
                APNGError::WrongDataSize(config.data_size() as usize, data@.len() as usize),
            ),
            data@.len() == config.data_size() ==> if fits_chunk(
                pixel_payload(*config, frame_index(sequence as nat), data@),
            ) {
                r is Ok && final(out)@ == old(out)@ + frame_bytes(
                    *config,
                    frame_index(sequence as nat),
                    referred(frame),
                    data@,
                )
            } else {
                r == Err::<(), APNGError>(
                    too_large(pixel_payload(*config, frame_index(sequence as nat), data@)),
                )
            },
    {
        let ghost k = frame_index(sequence as nat);
        let ghost before = out@;
        let ghost control = chunk(FCTL@, fctl_payload(*config, sequence, referred(frame)));
        let ghost payload = pixel_payload(*config, k, data@);
        proof {
            lemma_frame_index(sequence as nat);
        }
        let mark = out.len();
        Self::write_fc_tl(out, config, sequence, frame);
        let written = if sequence == 0 {
            Self::write_idats(out, config, data)
        } else {
            assert((sequence + 1) / 2 == k);
            Self::write_fd_at(out, config, sequence + 1, data)
        };
        match written {
            Ok(()) => {
                assert(out@ == (before + control) + chunk(pixel_tag(k), payload));
                assert(frame_bytes(*config, k, referred(frame), data@) == control + chunk(
                    pixel_tag(k),
                    payload,
                ));
                assert((before + control) + chunk(pixel_tag(k), payload) =~= before + (control
                    + chunk(pixel_tag(k), payload)));
                Ok(())
            },
            Err(e) => {
                out.truncate(mark);
                assert(out@ =~= before);
                Err(e)
            },
        }
    }

    /// Writes the next frame of the session. Where the attempt fails, the
    /// session stays as it was: a frame control chunk that was written before
    /// the failure was found is taken back.
    fn push_frame(&mut self, data: &[u8], frame: Option<&Frame>) -> (r: APNGResult<()>)
        requires
            old(self).spec_frames_written() < old(self).spec_config().num_frames,
        ensures
            final(self).spec_config() == old(self).spec_config(),
            data@.len() != old(self).spec_config().data_size() ==> {
                &&& r == Err::<(), APNGError>(
                    APNGError::WrongDataSize(
                        old(self).spec_config().data_size() as usize,
                        data@.len() as usize,
                    ),
                )
                &&& final(self).pending() == old(self).pending()
                &&& final(self).spec_frames_written() == old(self).spec_frames_written()
            },
            data@.len() == old(self).spec_config().data_size() ==> Encoder::frame_written(
                *old(self),
                *final(self),
                r,
                referred(frame),
                data@,
            ),
    {
        proof {
            use_type_invariant(&*self);
            lemma_frame_index(self.seq_num as nat);
        }
        let config = self.config;
        let sequence = self.seq_num;
        let mut out: Vec<u8> = Vec::new();
        std::mem::swap(&mut self.out, &mut out);
        let written = Self::write_frame_chunks(&mut out, &config, sequence, data, frame);
        std::mem::swap(&mut self.out, &mut out);
        match written {
            Ok(()) => {
                self.seq_num = if sequence == 0 {
                    1
                } else {
                    sequence + 2
                };
                assert(self.seq_num == next_sequence(sequence as nat));
                Ok(())
            },
            Err(e) => Err(e),
        }
    }

    /// Writes the next frame of the animation, with the samples of `image`
    /// and the settings of `frame`.
    ///
    /// A frame beyond the number that the configuration declares is refused,
    /// and so is an image whose samples do not have the size that the
    /// configuration asks for. Both are found out before the frame control
    /// chunk is written, so that a refused frame leaves no byte behind: where
    /// the call fails, for whatever reason, nothing is pending that was not
    /// pending before, and the sequence counter has not moved. A frame that
    /// is not refused is written, and the call succeeds, unless its pixel
    /// payload is longer than a chunk can hold.
    pub fn write_frame(&mut self, image: &PNGImage, frame: Frame) -> (r: APNGResult<()>)
        ensures
            final(self).spec_config() == old(self).spec_config(),
            r is Err ==> final(self).pending() == old(self).pending()
                && final(self).spec_frames_written() == old(self).spec_frames_written(),
            old(self).spec_frames_written() >= old(self).spec_config().num_frames ==> r == Err::<
                (),
                APNGError,
            >(
                APNGError::WrongFrameNums(
                    old(self).spec_config().num_frames as usize,
                    (old(self).spec_frames_written() + 1) as usize,
                ),
            ),
            old(self).spec_frames_written() < old(self).spec_config().num_frames
                && image.data@.len() != old(self).spec_config().data_size() ==> r == Err::<
                (),
                APNGError,
            >(
                APNGError::WrongDataSize(
                    old(self).spec_config().data_size() as usize,
                    image.data@.len() as usize,
                ),
            ),
            old(self).spec_frames_written() < old(self).spec_config().num_frames
                && image.data@.len() == old(self).spec_config().data_size()
                ==> Encoder::frame_written(*old(self), *final(self), r, Some(frame), image.data@),
    {
        let written = self.frames_written();
        if written >= self.config.num_frames {
            return Err(
                APNGError::WrongFrameNums(self.config.num_frames as usize, written as usize + 1),
            );
        }
        self.push_frame(image.data.as_slice(), Some(&frame))
    }

    /// Ends the file with the closing chunk and hands over all pending
    /// bytes. The session is used up.
    ///
    /// A session that holds fewer frames than its configuration declares
    /// cannot be ended.
    pub fn finish_encode(self) -> (r: APNGResult<Vec<u8>>)
        ensures
            self.spec_frames_written() == self.spec_config().num_frames ==> (r matches Ok(bytes)
                && bytes@ == self.pending() + trailer_bytes()),
            self.spec_frames_written() != self.spec_config().num_frames ==> r == Err::<
                Vec<u8>,
                APNGError,
            >(
                APNGError::WrongFrameNums(
                    self.spec_config().num_frames as usize,
                    self.spec_frames_written() as usize,
                ),
            ),
    {
        let written = self.frames_written();
        if written != self.config.num_frames {
            return Err(
                APNGError::WrongFrameNums(self.config.num_frames as usize, written as usize),
            );
        }
        let mut out = self.out;
        Self::write_iend(&mut out);
        Ok(out)
    }

    /// Whether `images` are the remaining frames of the session: with them
    /// the session holds the number of frames that its configuration
    /// declares, and the samples of each have the size that it asks for.
    pub open spec fn completes(&self, images: Seq<PNGImage>) -> bool {
        &&& self.spec_frames_written() + images.len() == self.spec_config().num_frames
        &&& sizes_match(self.spec_config(), images, images.len() as int)
    }

    /// What `check_frames` and `encode_all` answer to images that are not
    /// the remaining frames of the session. A wrong number is answered
    /// first, with the number declared and the number that the session would
    /// hold (the largest `usize` if it is larger). Where the number is
    /// right, the first image whose samples have the wrong size is answered
    /// with the size asked for and the size found.
    pub open spec fn refused<T>(&self, r: APNGResult<T>, images: Seq<PNGImage>) -> bool {
        let config = self.spec_config();
        let total = self.spec_frames_written() + images.len();
        &&& total != config.num_frames ==> r == Err::<T, APNGError>(
            APNGError::WrongFrameNums(config.num_frames as usize, capped(total)),
        )
        &&& total == config.num_frames ==> forall|j: int|
            0 <= j < images.len() && sizes_match(config, images, j) && (
            #[trigger] images[j]).data@.len() != config.data_size() ==> r == Err::<T, APNGError>(
                APNGError::WrongDataSize(
                    config.data_size() as usize,
                    images[j].data@.len() as usize,
                ),
            )
    }

    /// Counts and measures `images` as the remaining frames of the session,
    /// and writes nothing.
    pub fn check_frames(&self, images: &Vec<PNGImage>) -> (r: APNGResult<()>)
        ensures
            r is Ok <==> self.completes(images@),
            self.refused(r, images@),
    {
        proof {
            use_type_invariant(self);
        }
        let config = self.config;
        let written = self.frames_written();
        let declared = config.num_frames;
        let remaining = (declared - written) as usize;
        let n = images.len();
        if n != remaining {
            let total = if n > usize::MAX - written as usize {
                usize::MAX
            } else {
                written as usize + n
            };
            return Err(APNGError::WrongFrameNums(declared as usize, total));
        }
        let size = config.checked_data_size().unwrap();
        let mut j: usize = 0;
        while j < n
            invariant
                j <= n,
                n == images@.len(),
                written + n == declared,
                declared == config.num_frames,
                config == self.spec_config(),
                written == self.spec_frames_written(),
                size == config.data_size(),
                sizes_match(config, images@, j as int),
            decreases n - j,
        {
            let got = images[j].data.len();
            if got != size {
                return Err(APNGError::WrongDataSize(size, got));
            }
            j += 1;
        }
        Ok(())
    }

    /// What holds after the attempt to write `images` as the remaining
    /// frames of the session `before` and to end the file, where their number
    /// and the sizes of their samples were right. Where a chunk can hold the
    /// pixel payload of every frame, the attempt succeeds, and the result
    /// holds what was pending, the frames in their order and the closing
    /// chunk. Where it cannot, the attempt fails with the error that says so
    /// of the first frame whose payload is too long.
    pub open spec fn all_written(
        before: Encoder,
        r: APNGResult<Vec<u8>>,
        frame: Option<Frame>,
        images: Seq<PNGImage>,
    ) -> bool {
        let config = before.spec_config();
        let first = before.spec_frames_written();
        &&& payloads_fit(config, first, images, images.len() as int) ==> (r matches Ok(bytes)
            && bytes@ == before.pending() + frames_bytes(
            config,
            first,
            frame,
            images,
            images.len(),
        ) + trailer_bytes())
        &&& forall|i: int|
            0 <= i < images.len() && payloads_fit(config, first, images, i) && !fits_chunk(
                #[trigger] nth_payload(config, first, images, i),
            ) ==> r == Err::<Vec<u8>, APNGError>(too_large(nth_payload(config, first, images, i)))
    }

    /// Writes `apng.images` as the remaining frames of the animation, each
    /// with the settings of `frame`, ends the file with the closing chunk
    /// and hands over all pending bytes. The session is used up.
    ///
    /// Before anything is written the images are counted and measured, as
    /// `check_frames` does: images that are refused leave no byte behind. On
    /// an error nothing is handed over, what was pending included; a caller
    /// who wants to keep the session calls `check_frames` first.
    /// Images that pass are written one after the other, and the call
    /// succeeds unless the pixel payload of a frame is longer than a chunk
    /// can hold. On an animation that declares no frame and a list without
    /// images it succeeds with the closing chunk alone.
    pub fn encode_all(self, apng: APNG, frame: Option<&Frame>) -> (r: APNGResult<Vec<u8>>)
        ensures
            !self.completes(apng.images@) ==> r is Err,
            self.refused(r, apng.images@),
            self.completes(apng.images@) ==> Encoder::all_written(
                self,
                r,
                referred(frame),
                apng.images@,
            ),
            self.spec_frames_written() == 0 && self.pending() == header_bytes(self.spec_config())
                && r is Ok ==> (r matches Ok(bytes) && bytes@ == session_bytes(
                self.spec_config(),
                referred(frame),
                apng.images@,
            )),
    {
        let mut this = self;
        proof {
            use_type_invariant(&this);
        }
        let config = this.config;
        let written = this.frames_written();
        let n = apng.images.len();
        match this.check_frames(&apng.images) {
            Ok(()) => {},
            Err(e) => {
                return Err(e);
            },
        }
        let mut i: usize = 0;
        while i < n
            invariant
                i <= n,
                n == apng.images@.len(),
                written + n == config.num_frames,
                config == self.spec_config(),
                written == self.spec_frames_written(),
                sizes_match(config, apng.images@, n as int),
                payloads_fit(config, written as nat, apng.images@, i as int),
                this.spec_config() == config,
                this.spec_frames_written() == written + i,
                this.pending() == self.pending() + frames_bytes(
                    config,
                    written as nat,
                    referred(frame),
                    apng.images@,
                    i as nat,
                ),
            decreases n - i,
        {
            let ghost payload = nth_payload(config, written as nat, apng.images@, i as int);
            match this.push_frame(apng.images[i].data.as_slice(), frame) {
                Ok(()) => {},
                Err(e) => {
                    assert(!fits_chunk(payload) && e == too_large(payload));
                    assert(!payloads_fit(config, written as nat, apng.images@, n as int));
                    assert forall|k: int|
                        0 <= k < n && payloads_fit(config, written as nat, apng.images@, k)
                            && !fits_chunk(
                            #[trigger] nth_payload(config, written as nat, apng.images@, k),
                        ) implies k == i by {
                        if k > i {
                            assert(fits_chunk(
                                nth_payload(config, written as nat, apng.images@, i as int),
                            ));
                        }
                    }
                    return Err(e);
                },
            }
            assert(fits_chunk(payload));
            assert(this.pending() =~= self.pending() + frames_bytes(
                config,
                written as nat,
                referred(frame),
                apng.images@,
                (i + 1) as nat,
            ));
            i += 1;
        }
        let ghost frames = frames_bytes(
            config,
            written as nat,
            referred(frame),
            apng.images@,
            n as nat,
        );
        match this.finish_encode() {
            Ok(bytes) => {
                assert(bytes@ =~= self.pending() + frames + trailer_bytes());
                Ok(bytes)
            },
            Err(e) => Err(e),
        }
    }
}

} // verus!
