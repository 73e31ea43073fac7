//! The scanline filters: five reversible predictions of a byte from the bytes
//! to its left and above it, in arithmetic modulo 256.

use crate::png::FilterType;
use vstd::prelude::*;

verus! {

/// The difference of two bytes modulo 256.
pub open spec fn wrapping_diff(x: u8, y: u8) -> u8 {
    if x - y < 0 {
        (x - y + 256) as u8
    } else {
        (x - y) as u8
    }
}

/// The sum of two bytes modulo 256.
pub open spec fn wrapping_sum(x: u8, y: u8) -> u8 {
    if x + y > 255 {
        (x + y - 256) as u8
    } else {
        (x + y) as u8
    }
}

/// The distance between two integers.
pub open spec fn distance(x: int, y: int) -> int {
    if x >= y {
        x - y
    } else {
        y - x
    }
}

/// The Paeth choice among the left neighbour `a`, the upper neighbour `b` and
/// the upper left neighbour `c`: the one that is nearest to `a + b - c`,
/// where of two equally near ones `a` goes before `b` and `b` before `c`.
pub open spec fn paeth_predictor(a: u8, b: u8, c: u8) -> u8 {
    let p = a + b - c;
    let pa = distance(p, a as int);
    let pb = distance(p, b as int);
    let pc = distance(p, c as int);
    if pa <= pb && pa <= pc {
        a
    } else if pb <= pc {
        b
    } else {
        c
    }
}

/// What a filter predicts for a byte with the given neighbours. The average
/// halves the sum of the two neighbours after that sum has wrapped at 256.
pub open spec fn prediction(method: FilterType, left: u8, above: u8, upper_left: u8) -> u8 {
    match method {
        FilterType::NoFilter => 0,
        FilterType::Sub => left,
        FilterType::Up => above,
        FilterType::Avg => wrapping_sum(left, above) / 2,
        FilterType::Paeth => paeth_predictor(left, above, upper_left),
    }
}

/// The byte of `row` that lies `bpp` places before place `i`, and 0 where
/// the row has no such byte.
pub open spec fn byte_before(row: Seq<u8>, i: int, bpp: int) -> u8 {
    if 0 <= i - bpp < row.len() {
        row[i - bpp]
    } else {
        0
    }
}

/// What `method` predicts for place `i` of a scanline, from the unfiltered
/// scanline `row` itself and the unfiltered scanline `previous` above it.
pub open spec fn predicted(
    method: FilterType,
    bpp: int,
    previous: Seq<u8>,
    row: Seq<u8>,
    i: int,
) -> u8 {
    prediction(
        method,
        byte_before(row, i, bpp),
        byte_before(previous, i, 0),
        byte_before(previous, i, bpp),
    )
}

/// The filtered form of the scanline `row`: each byte less its prediction,
/// modulo 256.
pub open spec fn filter_row(method: FilterType, bpp: int, previous: Seq<u8>, row: Seq<u8>) -> Seq<
    u8,
> {
    Seq::new(row.len(), |i: int| wrapping_diff(row[i], predicted(method, bpp, previous, row, i)))
}

/// The first `n` bytes of the scanline whose filtered form is `filtered`:
/// each byte is its filtered byte plus the prediction made from the bytes
/// that were restored before it.
pub open spec fn unfilter_prefix(
    method: FilterType,
    bpp: int,
    previous: Seq<u8>,
    filtered: Seq<u8>,
    n: nat,
) -> Seq<u8>
    decreases n,
{
    if n == 0 {
        Seq::empty()
    } else {
        let restored = unfilter_prefix(method, bpp, previous, filtered, (n - 1) as nat);
        restored.push(
            wrapping_sum(filtered[n - 1], predicted(method, bpp, previous, restored, n - 1)),
        )
    }
}

/// The scanline whose filtered form is `filtered`.
pub open spec fn unfilter_row(
    method: FilterType,
    bpp: int,
    previous: Seq<u8>,
    filtered: Seq<u8>,
) -> Seq<u8> {
    unfilter_prefix(method, bpp, previous, filtered, filtered.len())
}

/// The Paeth choice among `a` (left), `b` (above) and `c` (upper left).
pub fn filter_path(a: u8, b: u8, c: u8) -> (r: u8)
    ensures
        r == paeth_predictor(a, b, c),
{
    let ia: i16 = a as i16;
    let ib: i16 = b as i16;
    let ic: i16 = c as i16;

    let p: i16 = ia + ib - ic;

    let pa: i16 = if p >= ia { p - ia } else { ia - p };
    let pb: i16 = if p >= ib { p - ib } else { ib - p };
    let pc: i16 = if p >= ic { p - ic } else { ic - p };

    if pa <= pb && pa <= pc {
        a
    } else if pb <= pc {
        b
    } else {
        c
    }
}

/// What `method` predicts for a byte with the given neighbours.
pub fn predict(method: FilterType, left: u8, above: u8, upper_left: u8) -> (r: u8)
    ensures
        r == prediction(method, left, above, upper_left),
{
    match method {
        FilterType::NoFilter => 0,
        FilterType::Sub => left,
        FilterType::Up => above,
        FilterType::Avg => left.wrapping_add(above) / 2,
        FilterType::Paeth => filter_path(left, above, upper_left),
    }
}

/// Filters the scanline `current` in place with `method`.
///
/// `previous` is the unfiltered scanline above (all zero for the first row of
/// an image) and `bpp` the number of bytes in a pixel. The bytes are replaced
/// from the right, so that each one is predicted from left neighbours that
/// still hold their unfiltered values.
pub fn filter(method: FilterType, bpp: usize, previous: &[u8], current: &mut [u8])
    requires
        bpp > 0,
        method.uses_previous() ==> previous@.len() >= old(current)@.len(),
    ensures
        final(current)@ == filter_row(method, bpp as int, previous@, old(current)@),
{
    let len = current.len();
    let ghost row = current@;
    let ghost goal = filter_row(method, bpp as int, previous@, row);

    match method {
        FilterType::NoFilter => {},
        FilterType::Sub => {
            let mut i: usize = len;
            while i > bpp
                invariant
                    bpp > 0,
                    i <= len,
                    i >= bpp || i == len,
                    len == row.len(),
                    current@.len() == len,
                    goal == filter_row(FilterType::Sub, bpp as int, previous@, row),
                    forall|j: int| 0 <= j < i ==> current@[j] == row[j],
                    forall|j: int| i <= j < len ==> current@[j] == goal[j],
                decreases i,
            {
                i -= 1;
                current[i] = current[i].wrapping_sub(current[i - bpp]);
            }
        },
        FilterType::Up => {
            let mut i: usize = 0;
            while i < len
                invariant
                    i <= len,
                    len == row.len(),
                    current@.len() == len,
                    previous@.len() >= len,
                    goal == filter_row(FilterType::Up, bpp as int, previous@, row),
                    forall|j: int| 0 <= j < i ==> current@[j] == goal[j],
                    forall|j: int| i <= j < len ==> current@[j] == row[j],
                decreases len - i,
            {
                current[i] = current[i].wrapping_sub(previous[i]);
                i += 1;
            }
        },
        FilterType::Avg => {
            let mut i: usize = len;
            while i > bpp
                invariant
                    bpp > 0,
                    i <= len,
                    i >= bpp || i == len,
                    len == row.len(),
                    current@.len() == len,
                    previous@.len() >= len,
                    goal == filter_row(FilterType::Avg, bpp as int, previous@, row),
                    forall|j: int| 0 <= j < i ==> current@[j] == row[j],
                    forall|j: int| i <= j < len ==> current@[j] == goal[j],
                decreases i,
            {
                i -= 1;
                current[i] = current[i].wrapping_sub(
                    current[i - bpp].wrapping_add(previous[i]) / 2,
                );
            }

            let head: usize = if bpp < len { bpp } else { len };
            let mut k: usize = 0;
            while k < head
                invariant
                    k <= head,
                    head <= bpp,
                    head <= len,
                    head == bpp || head == len,
                    len == row.len(),
                    current@.len() == len,
                    previous@.len() >= len,
                    goal == filter_row(FilterType::Avg, bpp as int, previous@, row),
                    forall|j: int| 0 <= j < k ==> current@[j] == goal[j],
                    forall|j: int| k <= j < head ==> current@[j] == row[j],
                    forall|j: int| head <= j < len ==> current@[j] == goal[j],
                decreases head - k,
            {
                current[k] = current[k].wrapping_sub(previous[k] / 2);
                k += 1;
            }
        },
        FilterType::Paeth => {
            let mut i: usize = len;
            while i > bpp
                invariant
                    bpp > 0,
                    i <= len,
                    i >= bpp || i == len,
                    len == row.len(),
                    current@.len() == len,
                    previous@.len() >= len,
                    goal == filter_row(FilterType::Paeth, bpp as int, previous@, row),
                    forall|j: int| 0 <= j < i ==> current@[j] == row[j],
                    forall|j: int| i <= j < len ==> current@[j] == goal[j],
                decreases i,
            {
                i -= 1;
                current[i] = current[i].wrapping_sub(
                    filter_path(current[i - bpp], previous[i], previous[i - bpp]),
                );
            }

            let head: usize = if bpp < len { bpp } else { len };
            let mut k: usize = 0;
            while k < head
                invariant
                    k <= head,
                    head <= bpp,
                    head <= len,
                    head == bpp || head == len,
                    len == row.len(),
                    current@.len() == len,
                    previous@.len() >= len,
                    goal == filter_row(FilterType::Paeth, bpp as int, previous@, row),
                    forall|j: int| 0 <= j < k ==> current@[j] == goal[j],
                    forall|j: int| k <= j < head ==> current@[j] == row[j],
                    forall|j: int| head <= j < len ==> current@[j] == goal[j],
                decreases head - k,
            {
                current[k] = current[k].wrapping_sub(filter_path(0, previous[k], 0));
                k += 1;
            }
        },
    }
    assert(current@ =~= goal);
}

/// Restores in place the scanline whose filtered form `current` holds.
///
/// `previous` is the unfiltered scanline above, as it was given to `filter`;
/// where it is shorter than `current`, the missing bytes count as 0. The
/// bytes are restored from the left, so that each prediction is made from
/// neighbours that are already restored.
pub fn unfilter(method: FilterType, bpp: usize, previous: &[u8], current: &mut [u8])
    requires
        bpp > 0,
    ensures
        final(current)@ == unfilter_row(method, bpp as int, previous@, old(current)@),
{
    let len = current.len();
    let ghost filtered = current@;
    let mut i: usize = 0;
    while i < len
        invariant
            bpp > 0,
            i <= len,
            len == filtered.len(),
            current@.len() == len,
            current@.take(i as int) == unfilter_prefix(
                method,
                bpp as int,
                previous@,
                filtered,
                i as nat,
            ),
            forall|j: int| i <= j < len ==> current@[j] == filtered[j],
        decreases len - i,
    {
        let ghost restored = current@.take(i as int);
        let left: u8 = if i >= bpp { current[i - bpp] } else { 0 };
        let above: u8 = if i < previous.len() { previous[i] } else { 0 };
        let upper_left: u8 = if i >= bpp && i - bpp < previous.len() {
            previous[i - bpp]
        } else {
            0
        };
        assert(left == byte_before(restored, i as int, bpp as int));
        current[i] = current[i].wrapping_add(predict(method, left, above, upper_left));
        i += 1;
        assert(current@.take(i as int) =~= restored.push(current@[i - 1]));
    }
    assert(current@.take(len as int) =~= current@);
}

/// Unfiltering undoes filtering: for every filter method, every positive
/// pixel width and every scanline above, the scanline restored from the
/// filtered form of `row` is `row` itself, whatever the length of `row`.
pub proof fn lemma_unfilter_filter(method: FilterType, bpp: int, previous: Seq<u8>, row: Seq<u8>)
    requires
        bpp > 0,
    ensures
        unfilter_row(method, bpp, previous, filter_row(method, bpp, previous, row)) == row,
{
    lemma_unfilter_prefix_of_filtered(method, bpp, previous, row, row.len());
    assert(row.take(row.len() as int) =~= row);
}

/// The first `n` bytes restored from the filtered form of `row` are the
/// first `n` bytes of `row`.
proof fn lemma_unfilter_prefix_of_filtered(
    method: FilterType,
    bpp: int,
    previous: Seq<u8>,
    row: Seq<u8>,
    n: nat,
)
    requires
        bpp > 0,
        n <= row.len(),
    ensures
        unfilter_prefix(method, bpp, previous, filter_row(method, bpp, previous, row), n)
            == row.take(n as int),
    decreases n,
{
    let filtered = filter_row(method, bpp, previous, row);
    if n > 0 {
        lemma_unfilter_prefix_of_filtered(method, bpp, previous, row, (n - 1) as nat);
        let restored = row.take(n - 1);
        assert(byte_before(restored, n - 1, bpp) == byte_before(row, n - 1, bpp));
        assert(row.take(n as int) =~= restored.push(row[n - 1]));
    } else {
        assert(row.take(0) =~= Seq::<u8>::empty());
    }
}

} // verus!
