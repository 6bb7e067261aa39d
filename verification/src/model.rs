//! Mathematical model of the pixel-by-pixel comparison.
//!
//! An image buffer is modelled as a `Seq<u8>` of interleaved RGBA8 bytes in
//! row-major order; pixel `i` occupies bytes `4*i .. 4*i + 4`.
use vstd::prelude::*;
use crate::ReftestImageComparison;

verus! {

/// Absolute difference between two channel values, as a mathematical integer.
pub open spec fn abs_diff(x: u8, y: u8) -> int {
    if x >= y {
        x - y
    } else {
        y - x
    }
}

/// The larger of two integers.
pub open spec fn max_int(x: int, y: int) -> int {
    if x >= y {
        x
    } else {
        y
    }
}

/// Whether pixel `i` of buffer `a` differs from pixel `i` of buffer `b`
/// in at least one of its four channels.
pub open spec fn pixels_differ(a: Seq<u8>, b: Seq<u8>, i: int) -> bool {
    ||| a[4 * i] != b[4 * i]
    ||| a[4 * i + 1] != b[4 * i + 1]
    ||| a[4 * i + 2] != b[4 * i + 2]
    ||| a[4 * i + 3] != b[4 * i + 3]
}

/// The largest per-channel absolute difference at pixel `i`.
pub open spec fn pixel_delta(a: Seq<u8>, b: Seq<u8>, i: int) -> int {
    max_int(
        max_int(abs_diff(a[4 * i], b[4 * i]), abs_diff(a[4 * i + 1], b[4 * i + 1])),
        max_int(abs_diff(a[4 * i + 2], b[4 * i + 2]), abs_diff(a[4 * i + 3], b[4 * i + 3])),
    )
}

/// How many of the first `n` pixels differ in at least one channel.
pub open spec fn diff_count(a: Seq<u8>, b: Seq<u8>, n: int) -> int
    decreases n,
{
    if n <= 0 {
        0
    } else {
        diff_count(a, b, n - 1) + if pixels_differ(a, b, n - 1) {
            1int
        } else {
            0int
        }
    }
}

/// The largest per-channel absolute difference over the differing pixels
/// among the first `n`; `0` when none of them differs.
pub open spec fn max_delta(a: Seq<u8>, b: Seq<u8>, n: int) -> int
    decreases n,
{
    if n <= 0 {
        0
    } else if pixels_differ(a, b, n - 1) {
        max_int(max_delta(a, b, n - 1), pixel_delta(a, b, n - 1))
    } else {
        max_delta(a, b, n - 1)
    }
}

/// In a buffer of `w`-pixel rows flipped vertically, the byte at index `j`
/// comes from this index of the unflipped buffer: same offset within the
/// row, but in row `h - 1 - y` instead of row `y`.
pub open spec fn flip_index(w: int, h: int, j: int) -> int {
    let row = j / (4 * w);
    let k = j % (4 * w);
    4 * w * (h - 1 - row) + k
}

/// The buffer with its rows in reverse order: row `y` of the result is
/// row `h - 1 - y` of `data`.
pub open spec fn flip_rows(data: Seq<u8>, w: int, h: int) -> Seq<u8> {
    Seq::new(data.len(), |j: int| data[flip_index(w, h, j)])
}

/// Byte index of channel `c` of the pixel at column `x`, row `y` in a
/// buffer that is `w` pixels wide.
pub open spec fn pix_byte(w: int, x: int, y: int, c: int) -> int {
    4 * (y * w + x) + c
}

/// What a comparison result must say about the two buffers it was computed
/// from: `Equal` exactly when no pixel differs, and otherwise the exact
/// count of differing pixels and the exact maximum channel delta.
pub open spec fn compare_matches(a: Seq<u8>, b: Seq<u8>, r: ReftestImageComparison) -> bool {
    let n = a.len() as int / 4;
    match r {
        ReftestImageComparison::Equal => diff_count(a, b, n) == 0,
        ReftestImageComparison::NotEqual { max_difference, count_different } => {
            &&& diff_count(a, b, n) > 0
            &&& count_different == diff_count(a, b, n)
            &&& max_difference == max_delta(a, b, n)
        },
    }
}

} // verus!
