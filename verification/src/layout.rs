//! The layout of the file, as functions from values to bytes: the signature,
//! the payload of each kind of chunk, the scanlines of a frame, and the
//! sequence numbers that frames are stamped with.

use crate::apng::{BlendOp, Config, DisposeOp, Frame};
use crate::chunk::chunk;
use crate::deflate::zlib_stream;
use crate::filter::filter_row;
use crate::wire::{be_u16, be_u32};
use vstd::prelude::*;

verus! {

/// The tag of the image header chunk, `IHDR`.
pub const IHDR: [u8; 4] = [73, 72, 68, 82];

/// The tag of the animation control chunk, `acTL`.
pub const ACTL: [u8; 4] = [97, 99, 84, 76];

/// The tag of a frame control chunk, `fcTL`.
pub const FCTL: [u8; 4] = [102, 99, 84, 76];

/// The tag of the pixel chunk of the first frame, `IDAT`.
pub const IDAT: [u8; 4] = [73, 68, 65, 84];

/// The tag of the pixel chunk of a later frame, `fdAT`.
pub const FDAT: [u8; 4] = [102, 100, 65, 84];

/// The tag of the closing chunk, `IEND`.
pub const IEND: [u8; 4] = [73, 69, 78, 68];

/// The eight bytes that every PNG file begins with.
pub open spec fn signature() -> Seq<u8> {
    seq![0x89u8, 0x50u8, 0x4eu8, 0x47u8, 0x0du8, 0x0au8, 0x1au8, 0x0au8]
}

/// The payload of the image header chunk: width, height, bit depth, color
/// type, and a zero each for compression method, filter method and
/// interlacing.
pub open spec fn ihdr_payload(config: Config) -> Seq<u8> {
    be_u32(config.width) + be_u32(config.height) + seq![
        config.depth.spec_bits(),
        config.color.spec_code(),
        0u8,
        0u8,
        0u8,
    ]
}

/// The payload of the animation control chunk: the number of frames and the
/// number of plays.
pub open spec fn actl_payload(config: Config) -> Seq<u8> {
    be_u32(config.num_frames) + be_u32(config.num_plays)
}

/// What begins every file: the signature, the image header chunk and the
/// animation control chunk.
pub open spec fn header_bytes(config: Config) -> Seq<u8> {
    signature() + chunk(IHDR@, ihdr_payload(config)) + chunk(ACTL@, actl_payload(config))
}

/// The settings that hold for a frame: those of `frame`, or none.
pub open spec fn settings(frame: Option<Frame>) -> Frame {
    match frame {
        Some(f) => f,
        None => Frame::unset(),
    }
}

/// `value`, or `default` where there is none.
pub open spec fn value_or<T>(value: Option<T>, default: T) -> T {
    match value {
        Some(v) => v,
        None => default,
    }
}

/// The payload of a frame control chunk: the sequence number, the frame's
/// width and height, its offsets, its delay as numerator and denominator,
/// its dispose and its blend operation. What `frame` leaves unset is the
/// canvas of `config` at offset 0, a delay of 1/3, no disposal, and
/// replacement.
pub open spec fn fctl_payload(config: Config, sequence: u32, frame: Option<Frame>) -> Seq<u8> {
    let f = settings(frame);
    be_u32(sequence) + be_u32(value_or(f.width, config.width)) + be_u32(
        value_or(f.height, config.height),
    ) + be_u32(value_or(f.offset_x, 0)) + be_u32(value_or(f.offset_y, 0)) + be_u16(
        value_or(f.delay_num, 1),
    ) + be_u16(value_or(f.delay_den, 3)) + seq![
        value_or(f.dispose_op, DisposeOp::ApngDisposeOpNone).spec_code(),
        value_or(f.blend_op, BlendOp::ApngBlendOpSource).spec_code(),
    ]
}

/// The payloads of the three control chunks have fixed lengths: 13 bytes in
/// the image header, 8 in the animation control and 26 in a frame control
/// chunk.
pub proof fn lemma_payload_lengths(config: Config, sequence: u32, frame: Option<Frame>)
    ensures
        signature().len() == 8,
        ihdr_payload(config).len() == 13,
        actl_payload(config).len() == 8,
        fctl_payload(config, sequence, frame).len() == 26,
{
}

/// Row `r` of the samples `data`.
pub open spec fn row_at(config: Config, data: Seq<u8>, r: int) -> Seq<u8> {
    data.subrange(r * config.row_bytes(), (r + 1) * config.row_bytes())
}

/// The row above row `r`: a row of zeros above the first row.
pub open spec fn row_above(config: Config, data: Seq<u8>, r: int) -> Seq<u8> {
    if r == 0 {
        Seq::new(config.row_bytes() as nat, |i: int| 0u8)
    } else {
        row_at(config, data, r - 1)
    }
}

/// Scanline `r` of a frame: the tag byte of the filter, then row `r`
/// filtered against the unfiltered row above it.
pub open spec fn scanline(config: Config, data: Seq<u8>, r: int) -> Seq<u8> {
    seq![config.filter.spec_code()] + filter_row(
        config.filter,
        config.spec_bytes_per_pixel() as int,
        row_above(config, data, r),
        row_at(config, data, r),
    )
}

/// The first `n` scanlines of a frame, one after the other.
pub open spec fn scanlines_upto(config: Config, data: Seq<u8>, n: nat) -> Seq<u8>
    decreases n,
{
    if n == 0 {
        Seq::empty()
    } else {
        scanlines_upto(config, data, (n - 1) as nat) + scanline(config, data, n - 1)
    }
}

/// All scanlines of a frame: what is compressed into its pixel chunk.
pub open spec fn scanlines(config: Config, data: Seq<u8>) -> Seq<u8> {
    scanlines_upto(config, data, config.height as nat)
}

/// The sequence number in the frame control chunk of frame `k`, where the
/// first frame is frame 0.
pub open spec fn control_sequence(k: nat) -> nat {
    if k == 0 {
        0
    } else {
        (2 * k - 1) as nat
    }
}

/// The sequence number in the pixel chunk of frame `k`, for `k > 0`; the
/// pixel chunk of the first frame carries none.
pub open spec fn data_sequence(k: nat) -> nat {
    2 * k
}

/// The place of the frame whose frame control chunk carries `sequence`.
pub open spec fn frame_index(sequence: nat) -> nat {
    (sequence + 1) / 2
}

/// The sequence number that follows those of the frame that begins with
/// `sequence`: the first frame takes one number, every other frame two.
pub open spec fn next_sequence(sequence: nat) -> nat {
    if sequence == 0 {
        1
    } else {
        sequence + 2
    }
}

/// How the sequence number at the head of a frame and the frame's place go
/// together, for a number that is 0 or odd, as every such number is.
pub proof fn lemma_frame_index(sequence: nat)
    requires
        sequence == 0 || sequence % 2 == 1,
    ensures
        control_sequence(frame_index(sequence)) == sequence,
        sequence == 0 <==> frame_index(sequence) == 0,
        sequence > 0 ==> data_sequence(frame_index(sequence)) == sequence + 1,
        frame_index(next_sequence(sequence)) == frame_index(sequence) + 1,
        next_sequence(sequence) % 2 == 1,
{
}

/// The payload of the pixel chunk of frame `k`: the compressed scanlines,
/// preceded by the chunk's sequence number in every frame but the first.
pub open spec fn pixel_payload(config: Config, k: nat, data: Seq<u8>) -> Seq<u8> {
    if k == 0 {
        zlib_stream(scanlines(config, data))
    } else {
        be_u32(data_sequence(k) as u32) + zlib_stream(scanlines(config, data))
    }
}

/// The tag of the pixel chunk of frame `k`: `IDAT` in the first frame,
/// `fdAT` in every other.
pub open spec fn pixel_tag(k: nat) -> Seq<u8> {
    if k == 0 {
        IDAT@
    } else {
        FDAT@
    }
}

/// The bytes of frame `k`: its frame control chunk, then its pixel chunk.
pub open spec fn frame_bytes(config: Config, k: nat, frame: Option<Frame>, data: Seq<u8>) -> Seq<
    u8,
> {
    chunk(FCTL@, fctl_payload(config, control_sequence(k) as u32, frame)) + chunk(
        pixel_tag(k),
        pixel_payload(config, k, data),
    )
}

/// The chunk that ends the file: `IEND`, without a payload.
pub open spec fn trailer_bytes() -> Seq<u8> {
    chunk(IEND@, Seq::empty())
}

/// The sequence numbers that frame `k` carries, in the order in which they
/// stand in the file: one in the first frame, two in every other.
pub open spec fn frame_stamps(k: nat) -> Seq<nat> {
    if k == 0 {
        seq![control_sequence(k)]
    } else {
        seq![control_sequence(k), data_sequence(k)]
    }
}

/// The sequence numbers that the first `n` frames of a session carry, in the
/// order in which they stand in the file.
pub open spec fn stamped_sequence(n: nat) -> Seq<nat>
    decreases n,
{
    if n == 0 {
        Seq::empty()
    } else {
        stamped_sequence((n - 1) as nat) + frame_stamps((n - 1) as nat)
    }
}

/// The sequence numbers of a session count up from 0 by one: the number at
/// place `i` of the file is `i`, however many frames there are, and the next
/// frame control chunk carries the number of those before it.
pub proof fn lemma_sequence_counts_up(n: nat)
    ensures
        stamped_sequence(n).len() == control_sequence(n),
        forall|i: int| 0 <= i < stamped_sequence(n).len() ==> stamped_sequence(n)[i] == i,
    decreases n,
{
    if n > 0 {
        lemma_sequence_counts_up((n - 1) as nat);
    }
}

/// Where the sequence numbers of frame `k` stand in its bytes. The frame
/// begins with a frame control chunk, whose payload begins with the frame's
/// first sequence number. The pixel chunk follows at once: `IDAT` and no
/// sequence number in the first frame, `fdAT` and the frame's second
/// sequence number at the head of the payload in every other.
pub proof fn lemma_frame_stamps(config: Config, k: nat, frame: Option<Frame>, data: Seq<u8>)
    ensures
        frame_bytes(config, k, frame, data).subrange(4, 8) == FCTL@,
        frame_bytes(config, k, frame, data).subrange(8, 12) == be_u32(frame_stamps(k)[0] as u32),
        frame_bytes(config, k, frame, data).subrange(42, 46) == pixel_tag(k),
        k == 0 ==> pixel_tag(k) == IDAT@ && pixel_payload(config, k, data) == zlib_stream(
            scanlines(config, data),
        ),
        k > 0 ==> pixel_tag(k) == FDAT@ && frame_bytes(config, k, frame, data).subrange(46, 50)
            == be_u32(frame_stamps(k)[1] as u32),
{
    let control = fctl_payload(config, control_sequence(k) as u32, frame);
    let whole = frame_bytes(config, k, frame, data);
    assert(control.len() == 26);
    assert(control.subrange(0, 4) =~= be_u32(control_sequence(k) as u32));
    assert(chunk(FCTL@, control).len() == 38);
    assert(whole.subrange(4, 8) =~= FCTL@);
    assert(whole.subrange(8, 12) =~= control.subrange(0, 4));
    assert(whole.subrange(42, 46) =~= pixel_tag(k));
    if k > 0 {
        assert(whole.subrange(46, 50) =~= be_u32(data_sequence(k) as u32));
    }
}

/// The bytes of the chunks with the given tags and payloads, one chunk after
/// the other with nothing between them.
pub open spec fn run_of(chunks: Seq<(Seq<u8>, Seq<u8>)>) -> Seq<u8>
    decreases chunks.len(),
{
    if chunks.len() == 0 {
        Seq::empty()
    } else {
        run_of(chunks.drop_last()) + chunk(chunks.last().0, chunks.last().1)
    }
}

/// A run of chunks followed by a run of chunks is the run of all of them.
pub proof fn lemma_run_of_runs(a: Seq<(Seq<u8>, Seq<u8>)>, b: Seq<(Seq<u8>, Seq<u8>)>)
    ensures
        run_of(a + b) == run_of(a) + run_of(b),
    decreases b.len(),
{
    if b.len() == 0 {
        assert(a + b =~= a);
        assert(run_of(a) + run_of(b) =~= run_of(a));
    } else {
        lemma_run_of_runs(a, b.drop_last());
        assert((a + b).drop_last() =~= a + b.drop_last());
        assert((a + b).last() == b.last());
        let last = chunk(b.last().0, b.last().1);
        assert((run_of(a) + run_of(b.drop_last())) + last =~= run_of(a) + (run_of(b.drop_last())
            + last));
    }
}

/// The run of one chunk is that chunk.
pub proof fn lemma_run_of_one(tag: Seq<u8>, payload: Seq<u8>)
    ensures
        run_of(seq![(tag, payload)]) == chunk(tag, payload),
{
    let one = seq![(tag, payload)];
    assert(one.drop_last() =~= Seq::<(Seq<u8>, Seq<u8>)>::empty());
    assert(run_of(one.drop_last()) =~= Seq::<u8>::empty());
    assert(run_of(one) =~= chunk(tag, payload));
}

/// The tag and the payload of each chunk of frame `k`: its frame control
/// chunk and its pixel chunk.
pub open spec fn frame_chunks(config: Config, k: nat, frame: Option<Frame>, data: Seq<u8>) -> Seq<
    (Seq<u8>, Seq<u8>),
> {
    seq![
        (FCTL@, fctl_payload(config, control_sequence(k) as u32, frame)),
        (pixel_tag(k), pixel_payload(config, k, data)),
    ]
}

/// The bytes of a frame are the run of its two chunks.
pub proof fn lemma_frame_is_run(config: Config, k: nat, frame: Option<Frame>, data: Seq<u8>)
    ensures
        frame_bytes(config, k, frame, data) == run_of(frame_chunks(config, k, frame, data)),
{
    let chunks = frame_chunks(config, k, frame, data);
    let one = chunks.drop_last();
    assert(one.drop_last() =~= Seq::<(Seq<u8>, Seq<u8>)>::empty());
    assert(run_of(one.drop_last()) =~= Seq::<u8>::empty());
    assert(run_of(one) =~= chunk(chunks[0].0, chunks[0].1));
    assert(run_of(chunks) =~= frame_bytes(config, k, frame, data));
}

/// The sequence number field of a chunk with the given tag and payload: the
/// first four bytes of the payload of a frame control chunk and of an `fdAT`
/// chunk; no other chunk has one.
pub open spec fn stamp_of(tag: Seq<u8>, payload: Seq<u8>) -> Seq<Seq<u8>> {
    if tag == FCTL@ || tag == FDAT@ {
        seq![payload.subrange(0, 4)]
    } else {
        Seq::empty()
    }
}

/// The sequence number fields of a run of chunks, in the order of the
/// chunks.
pub open spec fn stamps_in(chunks: Seq<(Seq<u8>, Seq<u8>)>) -> Seq<Seq<u8>>
    decreases chunks.len(),
{
    if chunks.len() == 0 {
        Seq::empty()
    } else {
        stamps_in(chunks.drop_last()) + stamp_of(chunks.last().0, chunks.last().1)
    }
}

/// The sequence number fields of one chunk.
pub proof fn lemma_stamps_in_one(tag: Seq<u8>, payload: Seq<u8>)
    ensures
        stamps_in(seq![(tag, payload)]) == stamp_of(tag, payload),
{
    let one = seq![(tag, payload)];
    assert(one.drop_last() =~= Seq::<(Seq<u8>, Seq<u8>)>::empty());
    assert(stamps_in(one.drop_last()) =~= Seq::<Seq<u8>>::empty());
    assert(stamps_in(one) =~= stamp_of(tag, payload));
}

/// The sequence number fields of two runs of chunks are those of the first
/// run followed by those of the second.
pub proof fn lemma_stamps_in_runs(a: Seq<(Seq<u8>, Seq<u8>)>, b: Seq<(Seq<u8>, Seq<u8>)>)
    ensures
        stamps_in(a + b) == stamps_in(a) + stamps_in(b),
    decreases b.len(),
{
    if b.len() == 0 {
        assert(a + b =~= a);
        assert(stamps_in(a) + stamps_in(b) =~= stamps_in(a));
    } else {
        lemma_stamps_in_runs(a, b.drop_last());
        assert((a + b).drop_last() =~= a + b.drop_last());
        assert((a + b).last() == b.last());
        let last = stamp_of(b.last().0, b.last().1);
        assert((stamps_in(a) + stamps_in(b.drop_last())) + last =~= stamps_in(a) + (stamps_in(
            b.drop_last(),
        ) + last));
    }
}

/// The numbers `from`, `from + 1`, ... up to but not `to`, each as the four
/// bytes of a sequence number field.
pub open spec fn counting(from: nat, to: nat) -> Seq<Seq<u8>> {
    Seq::new((to - from) as nat, |i: int| be_u32((from + i) as u32))
}

/// The sequence number fields of frame `k` count on from the number that
/// the frames before it have reached, to the number that the next frame
/// begins with.
pub proof fn lemma_stamps_of_frame(config: Config, k: nat, frame: Option<Frame>, data: Seq<u8>)
    ensures
        stamps_in(frame_chunks(config, k, frame, data)) == counting(
            control_sequence(k),
            control_sequence(k + 1),
        ),
{
    let chunks = frame_chunks(config, k, frame, data);
    let one = chunks.drop_last();
    let control = fctl_payload(config, control_sequence(k) as u32, frame);
    assert(FCTL@[0] != IDAT@[0]);
    assert(FDAT@[1] != IDAT@[1]);
    assert(one.drop_last() =~= Seq::<(Seq<u8>, Seq<u8>)>::empty());
    assert(stamps_in(one.drop_last()) =~= Seq::<Seq<u8>>::empty());
    assert(control.subrange(0, 4) =~= be_u32(control_sequence(k) as u32));
    assert(stamps_in(one) =~= seq![be_u32(control_sequence(k) as u32)]);
    if k > 0 {
        assert(pixel_payload(config, k, data).subrange(0, 4) =~= be_u32(data_sequence(k) as u32));
    }
    assert(stamps_in(chunks) =~= counting(control_sequence(k), control_sequence(k + 1)));
}

} // verus!
