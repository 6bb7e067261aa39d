use base64::Engine;
use ref_image::report::{decimal_string, render_log};
use ref_image::{common_size, ReftestImage, ReftestImageComparison};

fn img(w: u32, h: u32, data: Vec<u8>) -> ReftestImage {
    assert_eq!(data.len(), (w * h * 4) as usize);
    ReftestImage { data, size: (w, h) }
}

fn solid(w: u32, h: u32, px: [u8; 4]) -> ReftestImage {
    let mut data = Vec::new();
    for _ in 0..w * h {
        data.extend_from_slice(&px);
    }
    img(w, h, data)
}

fn expect_not_equal(r: ReftestImageComparison) -> (usize, usize) {
    match r {
        ReftestImageComparison::NotEqual { max_difference, count_different } => {
            (max_difference, count_different)
        }
        ReftestImageComparison::Equal => panic!("expected NotEqual"),
    }
}

#[test]
fn identical_red_images_compare_equal() {
    let a = solid(2, 2, [255, 0, 0, 255]);
    let b = solid(2, 2, [255, 0, 0, 255]);
    assert!(matches!(a.compare(&b), ReftestImageComparison::Equal));
}

#[test]
fn image_compares_equal_to_itself() {
    let data: Vec<u8> = (0..64).map(|i| (i * 5 + 1) as u8).collect();
    let a = img(4, 4, data);
    assert!(matches!(a.compare(&a), ReftestImageComparison::Equal));
}

#[test]
fn byte_identical_buffers_compare_equal() {
    let data: Vec<u8> = (0..48).map(|i| (i * 3) as u8).collect();
    let a = img(3, 4, data.clone());
    let b = img(3, 4, data);
    assert!(matches!(a.compare(&b), ReftestImageComparison::Equal));
}

#[test]
fn empty_images_compare_equal() {
    let a = img(0, 0, Vec::new());
    let b = img(0, 0, Vec::new());
    assert!(matches!(a.compare(&b), ReftestImageComparison::Equal));
}

#[test]
fn one_pixel_red_vs_blue() {
    let a = solid(2, 2, [255, 0, 0, 255]);
    let mut b = solid(2, 2, [255, 0, 0, 255]);
    // pixel (1, 1) becomes blue in the reference image
    let base = 4 * (1 * 2 + 1);
    b.data[base] = 0;
    b.data[base + 2] = 255;
    let (max_difference, count_different) = expect_not_equal(a.compare(&b));
    assert_eq!(max_difference, 255);
    assert_eq!(count_different, 1);
}

#[test]
fn single_channel_delta_is_reported_exactly() {
    let a = solid(3, 3, [10, 20, 30, 40]);
    let mut b = solid(3, 3, [10, 20, 30, 40]);
    // channel 2 of pixel (2, 1) differs by exactly 17
    let base = 4 * (1 * 3 + 2);
    b.data[base + 2] = 30 + 17;
    let (max_difference, count_different) = expect_not_equal(a.compare(&b));
    assert_eq!(max_difference, 17);
    assert_eq!(count_different, 1);
}

#[test]
fn comparison_is_symmetric() {
    let a: Vec<u8> = (0..80).map(|i| (i * 7 + 11) as u8).collect();
    let b: Vec<u8> = (0..80).map(|i| (i * 13 + 5) as u8).collect();
    let x = img(5, 4, a);
    let y = img(5, 4, b);
    let (mx, cx) = expect_not_equal(x.compare(&y));
    let (my, cy) = expect_not_equal(y.compare(&x));
    assert_eq!(mx, my);
    assert_eq!(cx, cy);
}

#[test]
fn statistics_stay_in_bounds() {
    let a: Vec<u8> = (0..96).map(|i| (i * 31) as u8).collect();
    let b: Vec<u8> = (0..96).map(|i| (i * 17 + 200) as u8).collect();
    let x = img(6, 4, a);
    let y = img(6, 4, b);
    let (max_difference, count_different) = expect_not_equal(x.compare(&y));
    assert!(count_different <= 6 * 4);
    assert!(max_difference <= 255);
}

#[test]
fn crop_to_common_size_keeps_top_left() {
    let big: Vec<u8> = (0..400).map(|i| (i % 251) as u8).collect();
    let small: Vec<u8> = (0..320).map(|i| (i % 241) as u8).collect();
    let a = img(10, 10, big.clone());
    let b = img(8, 10, small.clone());
    let (w, h) = common_size(a.size, b.size);
    assert_eq!((w, h), (8, 10));
    let ac = a.crop_to(w, h);
    let bc = b.crop_to(w, h);
    assert_eq!(ac.size, (8, 10));
    assert_eq!(bc.size, (8, 10));
    assert_eq!(ac.data.len(), 8 * 10 * 4);
    for y in 0..10usize {
        for x in 0..8usize {
            for c in 0..4usize {
                assert_eq!(ac.data[4 * (y * 8 + x) + c], big[4 * (y * 10 + x) + c]);
            }
        }
    }
    assert_eq!(bc.data, small);
}

#[test]
fn cropped_equal_region_compares_equal() {
    let big: Vec<u8> = (0..400).map(|_| 9u8).collect();
    let small: Vec<u8> = (0..320).map(|_| 9u8).collect();
    let a = img(10, 10, big).crop_to(8, 10);
    let b = img(8, 10, small).crop_to(8, 10);
    assert!(matches!(a.compare(&b), ReftestImageComparison::Equal));
}

#[test]
fn data_uri_round_trip_flips_rows() {
    let w = 2u32;
    let h = 3u32;
    let data: Vec<u8> = (0..24).map(|i| (i * 7 + 3) as u8).collect();
    let image_in = img(w, h, data.clone());
    let uri = image_in.into_data_uri();
    let prefix = "data:image/png;base64,";
    assert!(uri.starts_with(prefix));
    let png = base64::engine::general_purpose::STANDARD
        .decode(&uri[prefix.len()..])
        .expect("the data URI payload must be valid base64");
    let decoded = image::load_from_memory_with_format(&png, image::ImageFormat::Png)
        .expect("the data URI must hold a valid PNG")
        .to_rgba8();
    assert_eq!(decoded.dimensions(), (w, h));
    let out = decoded.into_raw();
    let row = (4 * w) as usize;
    for y in 0..h as usize {
        assert_eq!(
            &out[y * row..(y + 1) * row],
            &data[(h as usize - 1 - y) * row..(h as usize - y) * row]
        );
    }
}

#[test]
fn from_decoded_rgba_keeps_bytes() {
    let bytes: Vec<u8> = (0..16).collect();
    let buf = image::RgbaImage::from_raw(2, 2, bytes.clone()).unwrap();
    let rti = ReftestImage::from_decoded(image::DynamicImage::ImageRgba8(buf));
    assert_eq!(rti.size, (2, 2));
    assert_eq!(rti.data, bytes);
}

#[test]
fn from_decoded_rgb_expands_with_opaque_alpha() {
    let bytes: Vec<u8> = vec![10, 20, 30, 40, 50, 60];
    let buf = image::RgbImage::from_raw(2, 1, bytes).unwrap();
    let rti = ReftestImage::from_decoded(image::DynamicImage::ImageRgb8(buf));
    assert_eq!(rti.size, (2, 1));
    assert_eq!(rti.data, vec![10, 20, 30, 255, 40, 50, 60, 255]);
}

#[test]
fn decimal_rendering() {
    assert_eq!(decimal_string(0), "0");
    assert_eq!(decimal_string(7), "7");
    assert_eq!(decimal_string(10), "10");
    assert_eq!(decimal_string(255), "255");
    assert_eq!(decimal_string(90210), "90210");
}

#[test]
fn render_log_exact_text() {
    let log = render_log(
        "test.png",
        "ref.png",
        255,
        1,
        "data:image/png;base64,AAAA",
        "data:image/png;base64,BBBB",
    );
    let expected = "REFTEST TEST-UNEXPECTED-FAIL | test.png == ref.png | image comparison, \
max difference: 255, number of differing pixels: 1\n\
REFTEST IMAGE 1 (TEST): data:image/png;base64,AAAA\n\
REFTEST IMAGE 2 (REFERENCE): data:image/png;base64,BBBB\n\
REFTEST TEST-END | test.png == ref.png\n";
    assert_eq!(log, expected);
}

#[test]
fn mismatch_log_holds_statistics_and_images() {
    let a = solid(2, 2, [255, 0, 0, 255]);
    let mut b = solid(2, 2, [255, 0, 0, 255]);
    let base = 4 * (1 * 2 + 1);
    b.data[base] = 0;
    b.data[base + 2] = 255;
    let (max_difference, count_different) = expect_not_equal(a.compare(&b));
    let uri_a = a.into_data_uri();
    let uri_b = b.into_data_uri();
    let log = render_log("test.png", "ref.png", max_difference, count_different, &uri_a, &uri_b);
    assert!(log.contains("max difference: 255"));
    assert!(log.contains("number of differing pixels: 1"));
    assert!(log.contains(&uri_a));
    assert!(log.contains(&uri_b));
}
