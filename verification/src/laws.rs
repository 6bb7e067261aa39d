//! General properties of the comparator and of the row flip, proved once
//! and for all images.
use vstd::prelude::*;
use vstd::arithmetic::div_mod::{
    lemma_fundamental_div_mod, lemma_fundamental_div_mod_converse, lemma_mod_bound,
};
use crate::ReftestImage;
use crate::ReftestImageComparison;
use crate::model::{
    abs_diff, compare_matches, diff_count, flip_index, flip_rows, max_delta, pixel_delta,
    pixels_differ,
};

verus! {

proof fn lemma_symmetric_up_to(a: Seq<u8>, b: Seq<u8>, n: int)
    ensures
        diff_count(a, b, n) == diff_count(b, a, n),
        max_delta(a, b, n) == max_delta(b, a, n),
    decreases n,
{
    if n > 0 {
        lemma_symmetric_up_to(a, b, n - 1);
    }
}

proof fn lemma_no_difference_up_to(a: Seq<u8>, b: Seq<u8>, n: int)
    requires
        forall|j: int| 0 <= j < n ==> !pixels_differ(a, b, j),
    ensures
        diff_count(a, b, n) == 0,
        max_delta(a, b, n) == 0,
    decreases n,
{
    if n > 0 {
        lemma_no_difference_up_to(a, b, n - 1);
    }
}

proof fn lemma_single_difference_up_to(a: Seq<u8>, b: Seq<u8>, i: int, n: int)
    requires
        0 <= i < n,
        pixels_differ(a, b, i),
        forall|j: int| 0 <= j < n && j != i ==> !pixels_differ(a, b, j),
    ensures
        diff_count(a, b, n) == 1,
        max_delta(a, b, n) == pixel_delta(a, b, i),
    decreases n,
{
    if n - 1 == i {
        lemma_no_difference_up_to(a, b, i);
    } else {
        lemma_single_difference_up_to(a, b, i, n - 1);
    }
}

proof fn lemma_bounds_up_to(a: Seq<u8>, b: Seq<u8>, n: int)
    ensures
        0 <= diff_count(a, b, n) <= if n >= 0 {
            n
        } else {
            0
        },
        0 <= max_delta(a, b, n) <= 255,
    decreases n,
{
    if n > 0 {
        lemma_bounds_up_to(a, b, n - 1);
    }
}

/// Comparison is symmetric: swapping the two images changes neither the
/// count of differing pixels nor the maximum channel delta.
pub proof fn lemma_compare_symmetric(a: ReftestImage, b: ReftestImage)
    requires
        a.wf(),
        b.wf(),
        a.size == b.size,
    ensures
        diff_count(a.data@, b.data@, a.data@.len() as int / 4) == diff_count(
            b.data@,
            a.data@,
            b.data@.len() as int / 4,
        ),
        max_delta(a.data@, b.data@, a.data@.len() as int / 4) == max_delta(
            b.data@,
            a.data@,
            b.data@.len() as int / 4,
        ),
{
    lemma_symmetric_up_to(a.data@, b.data@, a.data@.len() as int / 4);
}

/// Comparing an image with itself finds no differing pixel, so `compare`
/// can only answer `Equal`.
pub proof fn lemma_compare_self(a: ReftestImage)
    ensures
        diff_count(a.data@, a.data@, a.data@.len() as int / 4) == 0,
        forall|r: ReftestImageComparison|
            #[trigger] compare_matches(a.data@, a.data@, r) ==> r == ReftestImageComparison::Equal,
{
    assert forall|j: int| 0 <= j < a.data@.len() as int / 4 implies !pixels_differ(
        a.data@,
        a.data@,
        j,
    ) by {}
    lemma_no_difference_up_to(a.data@, a.data@, a.data@.len() as int / 4);
}

/// Two buffers that agree on every byte compare as `Equal`.
pub proof fn lemma_equal_bytes_compare_equal(a: ReftestImage, b: ReftestImage)
    requires
        a.data@.len() == b.data@.len(),
        forall|j: int| 0 <= j < a.data@.len() ==> a.data@[j] == b.data@[j],
    ensures
        diff_count(a.data@, b.data@, a.data@.len() as int / 4) == 0,
        forall|r: ReftestImageComparison|
            #[trigger] compare_matches(a.data@, b.data@, r) ==> r == ReftestImageComparison::Equal,
{
    let n = a.data@.len() as int / 4;
    assert forall|j: int| 0 <= j < n implies !pixels_differ(a.data@, b.data@, j) by {
        assert(4 * j + 3 < a.data@.len());
    }
    lemma_no_difference_up_to(a.data@, b.data@, n);
}

/// If exactly one pixel differs, in exactly one channel and by delta `d`,
/// the comparison finds exactly one differing pixel and maximum delta `d`,
/// so `compare` answers `NotEqual` with precisely those statistics.
pub proof fn lemma_single_difference(a: ReftestImage, b: ReftestImage, i: int, c: int, d: int)
    requires
        a.wf(),
        b.wf(),
        a.size == b.size,
        0 <= i < a.data@.len() as int / 4,
        0 <= c < 4,
        1 <= d <= 255,
        abs_diff(a.data@[4 * i + c], b.data@[4 * i + c]) == d,
        forall|j: int| 0 <= j < a.data@.len() && j != 4 * i + c ==> a.data@[j] == b.data@[j],
    ensures
        diff_count(a.data@, b.data@, a.data@.len() as int / 4) == 1,
        max_delta(a.data@, b.data@, a.data@.len() as int / 4) == d,
{
    let n = a.data@.len() as int / 4;
    assert(pixels_differ(a.data@, b.data@, i));
    assert forall|j: int| 0 <= j < n && j != i implies !pixels_differ(a.data@, b.data@, j) by {
        assert(4 * j + 3 < a.data@.len());
    }
    lemma_single_difference_up_to(a.data@, b.data@, i, n);
    assert(pixel_delta(a.data@, b.data@, i) == d);
}

/// The count of differing pixels never exceeds `width * height`, and the
/// maximum channel delta always lies in `[0, 255]`.
pub proof fn lemma_compare_bounds(a: ReftestImage, b: ReftestImage)
    requires
        a.wf(),
        b.wf(),
        a.size == b.size,
    ensures
        0 <= diff_count(a.data@, b.data@, a.data@.len() as int / 4) <= a.size.0 as int * (
        a.size.1 as int),
        0 <= max_delta(a.data@, b.data@, a.data@.len() as int / 4) <= 255,
{
    let n = a.data@.len() as int / 4;
    lemma_bounds_up_to(a.data@, b.data@, n);
    lemma_fundamental_div_mod_converse(
        a.data@.len() as int,
        4,
        a.size.0 as int * (a.size.1 as int),
        0,
    );
}

/// Flipping the rows of a well-formed buffer twice restores it: the flip
/// is its own inverse.
pub proof fn lemma_flip_involutive(data: Seq<u8>, w: int, h: int)
    requires
        1 <= w,
        1 <= h,
        data.len() == w * h * 4,
    ensures
        flip_rows(flip_rows(data, w, h), w, h) == data,
{
    let rb = 4 * w;
    let f = flip_rows(data, w, h);
    let g = flip_rows(f, w, h);
    assert(rb * h == data.len()) by (nonlinear_arith)
        requires
            rb == 4 * w,
            data.len() == w * h * 4,
    ;
    assert forall|j: int| 0 <= j < data.len() implies g[j] == data[j] by {
        lemma_fundamental_div_mod(j, rb);
        lemma_mod_bound(j, rb);
        let row = j / rb;
        let k = j % rb;
        assert(0 <= row && row < h) by (nonlinear_arith)
            requires
                j == rb * row + k,
                0 <= k < rb,
                0 <= j,
                j < rb * h,
                1 <= rb,
        ;
        let j2 = rb * (h - 1 - row) + k;
        assert(flip_index(w, h, j) == j2);
        assert(0 <= j2 && j2 < data.len()) by (nonlinear_arith)
            requires
                j2 == rb * (h - 1 - row) + k,
                0 <= k < rb,
                0 <= row < h,
                rb * h == data.len(),
                1 <= rb,
        ;
        lemma_fundamental_div_mod_converse(j2, rb, h - 1 - row, k);
        assert(flip_index(w, h, j2) == rb * row + k);
        assert(g[j] == f[j2]);
        assert(f[j2] == data[j]);
    }
    assert(g =~= data);
}

} // verus!
