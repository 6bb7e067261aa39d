//! Conversion between the in-memory image and its transmittable form: a
//! base64 data URI holding a PNG encoding of the vertically flipped buffer.
//!
//! The vertical flip is the library's own, verified logic; the PNG and
//! base64 encodings are done by outside crates behind trusted wrappers.
use vstd::prelude::*;
use vstd::arithmetic::div_mod::lemma_fundamental_div_mod_converse;
use vstd::string::StringExecFns;
use crate::ReftestImage;
use crate::extend_from_range;
use crate::model;

verus! {

#[verifier::external_type_specification]
#[verifier::external_body]
pub struct ExDynamicImage(image::DynamicImage);

/// The PNG byte stream that the `image` crate produces for an RGBA8 buffer
/// of the given dimensions.
pub uninterp spec fn png_of(data: Seq<u8>, w: int, h: int) -> Seq<u8>;

/// The base64 text that the `base64` crate's standard alphabet produces
/// for a byte sequence.
pub uninterp spec fn base64_of(bytes: Seq<u8>) -> Seq<char>;

/// Relies on `image::codecs::png::PngEncoder::write_image`: it encodes an
/// RGBA8 buffer of the given dimensions into a PNG byte stream, and the
/// output depends on the buffer and the dimensions alone. Encoding a
/// well-formed, non-empty RGBA8 buffer into an in-memory vector does not
/// fail.
#[verifier::external_body]
fn png_encode_rgba(data: &Vec<u8>, w: u32, h: u32) -> (r: Vec<u8>)
    requires
        1 <= w,
        1 <= h,
        data@.len() == w as int * (h as int) * 4,
    ensures
        r@ == png_of(data@, w as int, h as int),
{
    let mut png: Vec<u8> = Vec::new();
    image::ImageEncoder::write_image(
        image::codecs::png::PngEncoder::new(&mut png),
        data,
        w,
        h,
        image::ExtendedColorType::Rgba8,
    ).expect("PNG encoding of a well-formed RGBA8 buffer cannot fail");
    png
}

/// Relies on `base64::engine::Engine::encode` with the `STANDARD` engine:
/// the encoding depends on the input bytes alone.
#[verifier::external_body]
fn base64_encode(bytes: &Vec<u8>) -> (r: String)
    ensures
        r@ == base64_of(bytes@),
{
    base64::Engine::encode(&base64::engine::general_purpose::STANDARD, bytes)
}

/// Reverse the order of the rows of an RGBA8 buffer that holds `h` rows of
/// `w` four-byte pixels each.
pub fn flip_vertical_bytes(data: &Vec<u8>, w: u32, h: u32) -> (r: Vec<u8>)
    requires
        1 <= w,
        1 <= h,
        data@.len() == w as int * (h as int) * 4,
    ensures
        r@ == model::flip_rows(data@, w as int, h as int),
{
    let total: usize = data.len();
    proof {
        assert(4 * (w as int) <= total && (h as int) * (4 * (w as int)) == total)
            by (nonlinear_arith)
            requires
                1 <= w as int,
                1 <= h as int,
                total == w as int * (h as int) * 4,
        ;
    }
    let rb: usize = 4 * (w as usize);
    let mut out: Vec<u8> = Vec::new();
    let mut y: usize = 0;
    while y < h as usize
        invariant
            total == data@.len(),
            1 <= w,
            1 <= h,
            rb as int == 4 * (w as int),
            (h as int) * (rb as int) == total,
            y <= h as int,
            out@.len() == y as int * (rb as int),
            forall|j: int|
                0 <= j < out@.len() ==> out@[j] == data@[model::flip_index(
                    w as int,
                    h as int,
                    j,
                )],
        decreases h as int - y,
    {
        proof {
            assert((h as int - 1 - y as int) * (rb as int) + rb as int <= total
                && y as int * (rb as int) + rb as int <= total) by (nonlinear_arith)
                requires
                    0 <= y as int <= h as int - 1,
                    1 <= rb as int,
                    (h as int) * (rb as int) == total,
            ;
        }
        let start: usize = (h as usize - 1 - y) * rb;
        let ghost prev = out@;
        extend_from_range(&mut out, data, start, rb);
        proof {
            assert(out@.len() == (y as int + 1) * (rb as int)) by (nonlinear_arith)
                requires
                    out@.len() == y as int * (rb as int) + rb as int,
            ;
            assert forall|j: int| 0 <= j < out@.len() implies out@[j] == data@[model::flip_index(
                w as int,
                h as int,
                j,
            )] by {
                if j < prev.len() {
                    assert(out@[j] == prev[j]);
                } else {
                    let k = j - prev.len();
                    lemma_fundamental_div_mod_converse(j, rb as int, y as int, k);
                    assert(out@[j] == data@[start as int + k]);
                    assert(start as int + k == 4 * (w as int) * (h as int - 1 - y as int) + k)
                        by (nonlinear_arith)
                        requires
                            start as int == (h as int - 1 - y as int) * (rb as int),
                            rb as int == 4 * (w as int),
                    ;
                }
            }
        }
        y = y + 1;
    }
    proof {
        assert(out@ =~= model::flip_rows(data@, w as int, h as int));
    }
    out
}

impl ReftestImage {
    /// Build a reftest image from a decoded image of any native pixel
    /// format, expanding it to RGBA8.
    ///
    /// Relies on `image::DynamicImage::to_rgba8` together with
    /// `DynamicImage::width` and `height`: the RGBA8 conversion of a `w` by
    /// `h` image is a buffer of exactly `w * h` four-byte pixels.
    #[verifier::external_body]
    pub fn from_decoded(img: image::DynamicImage) -> (r: ReftestImage)
        ensures
            r.wf(),
    {
        let size = (img.width(), img.height());
        ReftestImage { data: img.to_rgba8().into_raw(), size }
    }

    /// Convert this image into a base64 data URI holding its PNG encoding,
    /// with the rows flipped vertically first (the pixels arrive bottom-up
    /// from texture capture, while PNG stores rows top-down).
    pub fn into_data_uri(self) -> (r: String)
        requires
            self.wf(),
            1 <= self.size.0,
            1 <= self.size.1,
        ensures
            r@ == "data:image/png;base64,"@ + base64_of(
                png_of(
                    model::flip_rows(self.data@, self.size.0 as int, self.size.1 as int),
                    self.size.0 as int,
                    self.size.1 as int,
                ),
            ),
    {
        let (w, h) = self.size;
        let flipped = flip_vertical_bytes(&self.data, w, h);
        let png = png_encode_rgba(&flipped, w, h);
        let b64 = base64_encode(&png);
        let mut uri = String::from_str("data:image/png;base64,");
        uri.append(b64.as_str());
        uri
    }
}

} // verus!
