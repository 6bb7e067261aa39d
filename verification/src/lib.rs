//! Reftest image helper library: an in-memory RGBA8 image type and a
//! bit-exact pixel comparator, with verified contracts.
use vstd::prelude::*;

pub mod codec;
pub mod laws;
pub mod model;
pub mod report;

verus! {

/// Append `count` bytes of `src`, starting at `start`, to `out`.
pub(crate) fn extend_from_range(out: &mut Vec<u8>, src: &Vec<u8>, start: usize, count: usize)
    requires
        start + count <= src@.len(),
    ensures
        final(out)@ == old(out)@ + src@.subrange(start as int, start as int + count as int),
{
    let total: usize = src.len();
    let mut k: usize = 0;
    while k < count
        invariant
            total == src@.len(),
            start + count <= src@.len(),
            k <= count,
            out@ == old(out)@ + src@.subrange(start as int, start as int + k as int),
        decreases count - k,
    {
        out.push(src[start + k]);
        proof {
            assert(src@.subrange(start as int, start as int + (k + 1) as int) =~= src@.subrange(
                start as int,
                start as int + k as int,
            ).push(src@[start as int + k as int]));
        }
        k = k + 1;
    }
    proof {
        assert(out@ =~= old(out)@ + src@.subrange(start as int, start as int + count as int));
    }
}

/// The size of the common intersection of two images: the smaller of the
/// two widths paired with the smaller of the two heights. Cropping both
/// images to this size makes them comparable.
pub fn common_size(a: (u32, u32), b: (u32, u32)) -> (r: (u32, u32))
    ensures
        r.0 == if a.0 <= b.0 {
            a.0
        } else {
            b.0
        },
        r.1 == if a.1 <= b.1 {
            a.1
        } else {
            b.1
        },
{
    let w = if a.0 <= b.0 {
        a.0
    } else {
        b.0
    };
    let h = if a.1 <= b.1 {
        a.1
    } else {
        b.1
    };
    (w, h)
}

/// A reference image for tests: raw RGBA8 bytes plus dimensions.
pub struct ReftestImage {
    /// The RGBA8 byte data of the image, row-major, 4 bytes per pixel.
    pub data: Vec<u8>,
    /// Width and height of the image.
    pub size: (u32, u32),
}

/// Result of comparing two images.
pub enum ReftestImageComparison {
    /// Images match perfectly.
    Equal,
    /// Images don't match.
    NotEqual {
        /// Maximum per-channel difference over all differing pixels.
        max_difference: usize,
        /// Count of differing pixels.
        count_different: usize,
    },
}

impl ReftestImage {
    /// The buffer holds exactly `width * height` four-byte RGBA pixels.
    pub open spec fn wf(&self) -> bool {
        self.data@.len() == self.size.0 as int * self.size.1 as int * 4
    }

    /// Compare this reftest image with another one of the same shape.
    ///
    /// Scans every pixel; returns `Equal` exactly when the buffers agree on
    /// every byte, and otherwise the number of differing pixels together
    /// with the largest per-channel absolute difference seen at any of them.
    pub fn compare(&self, other: &ReftestImage) -> (r: ReftestImageComparison)
        requires
            self.size == other.size,
            self.data@.len() == other.data@.len(),
            self.data@.len() % 4 == 0,
        ensures
            model::compare_matches(self.data@, other.data@, r),
    {
        let len: usize = self.data.len();
        let n: usize = len / 4;
        let mut count: usize = 0;
        let mut max: usize = 0;
        let mut i: usize = 0;
        while i < n
            invariant
                len == self.data@.len(),
                len == other.data@.len(),
                len % 4 == 0,
                n == len / 4,
                i <= n,
                count == model::diff_count(self.data@, other.data@, i as int),
                max == model::max_delta(self.data@, other.data@, i as int),
                count <= i,
                max <= 255,
            decreases n - i,
        {
            let base: usize = 4 * i;
            let a0 = self.data[base];
            let a1 = self.data[base + 1];
            let a2 = self.data[base + 2];
            let a3 = self.data[base + 3];
            let b0 = other.data[base];
            let b1 = other.data[base + 1];
            let b2 = other.data[base + 2];
            let b3 = other.data[base + 3];
            if a0 != b0 || a1 != b1 || a2 != b2 || a3 != b3 {
                let d0: u8 = if a0 >= b0 { a0 - b0 } else { b0 - a0 };
                let d1: u8 = if a1 >= b1 { a1 - b1 } else { b1 - a1 };
                let d2: u8 = if a2 >= b2 { a2 - b2 } else { b2 - a2 };
                let d3: u8 = if a3 >= b3 { a3 - b3 } else { b3 - a3 };
                let m01: u8 = if d0 >= d1 { d0 } else { d1 };
                let m23: u8 = if d2 >= d3 { d2 } else { d3 };
                let pixel_max: usize = (if m01 >= m23 { m01 } else { m23 }) as usize;
                count = count + 1;
                if pixel_max > max {
                    max = pixel_max;
                }
            }
            i = i + 1;
        }
        if count != 0 {
            ReftestImageComparison::NotEqual { max_difference: max, count_different: count }
        } else {
            ReftestImageComparison::Equal
        }
    }

    /// Crop to the top-left `w` by `h` rectangle.
    ///
    /// Every kept pixel is unchanged: channel `c` of the pixel at `(x, y)`
    /// in the result equals channel `c` of the pixel at `(x, y)` here.
    pub fn crop_to(&self, w: u32, h: u32) -> (r: ReftestImage)
        requires
            self.wf(),
            w <= self.size.0,
            h <= self.size.1,
        ensures
            r.wf(),
            r.size == (w, h),
            forall|x: int, y: int, c: int|
                0 <= x < w && 0 <= y < h && 0 <= c < 4
                    ==> r.data@[model::pix_byte(w as int, x, y, c)] == self.data@[model::pix_byte(
                    self.size.0 as int,
                    x,
                    y,
                    c,
                )],
    {
        let w0: u32 = self.size.0;
        if w == 0 || h == 0 {
            proof {
                assert(w as int * (h as int) * 4 == 0) by (nonlinear_arith)
                    requires
                        w == 0 || h == 0,
                ;
            }
            return ReftestImage { data: Vec::new(), size: (w, h) };
        }
        let total: usize = self.data.len();
        proof {
            assert(4 * (w0 as int) <= self.data@.len()) by (nonlinear_arith)
                requires
                    1 <= self.size.1 as int,
                    self.data@.len() == self.size.0 as int * (self.size.1 as int) * 4,
                    w0 == self.size.0,
            ;
        }
        let rb: usize = 4 * (w as usize);
        let rb0: usize = 4 * (w0 as usize);
        let mut out: Vec<u8> = Vec::new();
        let mut y: usize = 0;
        while y < h as usize
            invariant
                self.wf(),
                total == self.data@.len(),
                1 <= w <= self.size.0,
                1 <= h <= self.size.1,
                w0 == self.size.0,
                rb as int == 4 * (w as int),
                rb0 as int == 4 * (w0 as int),
                y <= h as int,
                out@.len() == y as int * (rb as int),
                forall|yy: int, kk: int|
                    0 <= yy < y as int && 0 <= kk < rb as int ==> #[trigger] (out@[yy * (rb as int)
                        + kk]) == self.data@[yy * (rb0 as int) + kk],
            decreases h as int - y,
        {
            proof {
                assert(y as int * (rb0 as int) + rb as int <= self.data@.len())
                    by (nonlinear_arith)
                    requires
                        y as int <= h as int - 1,
                        h as int <= self.size.1 as int,
                        rb as int == 4 * (w as int),
                        rb0 as int == 4 * (w0 as int),
                        w as int <= w0 as int,
                        w0 == self.size.0,
                        self.data@.len() == self.size.0 as int * (self.size.1 as int) * 4,
                ;
                assert(y as int * (rb as int) <= y as int * (rb0 as int)) by (nonlinear_arith)
                    requires
                        0 <= y as int,
                        rb as int <= rb0 as int,
                ;
            }
            let start: usize = y * rb0;
            let ghost prev = out@;
            extend_from_range(&mut out, &self.data, start, rb);
            proof {
                assert(out@.len() == (y as int + 1) * (rb as int)) by (nonlinear_arith)
                    requires
                        out@.len() == y as int * (rb as int) + rb as int,
                ;
                assert forall|yy: int, kk: int|
                    0 <= yy < y as int + 1 && 0 <= kk < rb as int implies #[trigger] (out@[yy * (
                rb as int) + kk]) == self.data@[yy * (rb0 as int) + kk] by {
                    if yy < y as int {
                        assert(yy * (rb as int) + kk < y as int * (rb as int)) by (nonlinear_arith)
                            requires
                                0 <= yy,
                                yy <= y as int - 1,
                                0 <= kk < rb as int,
                        ;
                        assert(out@[yy * (rb as int) + kk] == prev[yy * (rb as int) + kk]);
                    } else {
                        assert(out@[y as int * (rb as int) + kk] == self.data@[start as int + kk]);
                    }
                }
            }
            y = y + 1;
        }
        proof {
            assert(h as int * (rb as int) == w as int * (h as int) * 4) by (nonlinear_arith)
                requires
                    rb as int == 4 * (w as int),
            ;
            assert forall|x: int, yy: int, c: int|
                0 <= x < w as int && 0 <= yy < h as int && 0 <= c < 4 implies out@[model::pix_byte(
                w as int,
                x,
                yy,
                c,
            )] == self.data@[model::pix_byte(w0 as int, x, yy, c)] by {
                assert(4 * (yy * (w as int) + x) + c == yy * (rb as int) + (4 * x + c))
                    by (nonlinear_arith)
                    requires
                        rb as int == 4 * (w as int),
                ;
                assert(4 * (yy * (w0 as int) + x) + c == yy * (rb0 as int) + (4 * x + c))
                    by (nonlinear_arith)
                    requires
                        rb0 as int == 4 * (w0 as int),
                ;
                assert(0 <= 4 * x + c < rb as int);
            }
        }
        ReftestImage { data: out, size: (w, h) }
    }
}

} // verus!
