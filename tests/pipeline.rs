use simple_image_converter::color::apply_color_correction;
use simple_image_converter::encode::{encode_jpeg, encode_png};
use simple_image_converter::format::{ConvertError, ImageFormat};
use simple_image_converter::options::ConversionOptions;
use simple_image_converter::pipeline::convert_image;
use simple_image_converter::raster::Raster;

fn gradient(w: u32, h: u32) -> Raster {
    let mut rgba = Vec::new();
    for y in 0..h {
        for x in 0..w {
            rgba.extend_from_slice(&[(x % 256) as u8, (y % 256) as u8, 90, 255]);
        }
    }
    Raster::from_rgba(w, h, false, rgba).unwrap()
}

fn no_heic(_: &Vec<u8>) -> Option<Raster> {
    panic!("no HEIC decoding expected")
}

fn failing_primary(_: &Vec<u8>, _: u32, _: u32, _: u8) -> Option<Vec<u8>> {
    None
}

#[test]
fn oversized_file_is_rejected_before_decoding() {
    let header = vec![0xFF, 0xD8, 0xFF, 0xE0, 1, 2, 3, 4, 5, 6, 7, 8];
    let r = convert_image(&header, "jpg", 101 * 1024 * 1024, "big", &ConversionOptions::default(), no_heic, failing_primary);
    assert_eq!(r.unwrap_err(), ConvertError::FileTooLarge);
}

#[test]
fn mislabeled_file_is_rejected() {
    let png = encode_png(&gradient(4, 4), false).unwrap();
    let r = convert_image(&png, "jpg", png.len() as u64, "x", &ConversionOptions::default(), no_heic, failing_primary);
    assert_eq!(r.unwrap_err(), ConvertError::FormatMismatch);
}

#[test]
fn corrupt_file_fails_to_decode() {
    let mut png = encode_png(&gradient(4, 4), false).unwrap();
    png.truncate(20);
    let r = convert_image(&png, "png", 20, "x", &ConversionOptions::default(), no_heic, failing_primary);
    assert_eq!(r.unwrap_err(), ConvertError::DecodeFailure);
}

#[test]
fn png_to_jpeg_with_resize_and_suffix() {
    let png = encode_png(&gradient(160, 90), false).unwrap();
    let mut o = ConversionOptions::default();
    o.format = ImageFormat::Jpeg;
    o.resize = true;
    o.target_width = "80".to_string();
    o.auto_suffix = true;
    o.prefix = "out_".to_string();
    let r = convert_image(&png, "PNG", png.len() as u64, "photo", &o, no_heic, failing_primary).unwrap();
    assert_eq!(r.file_name, "out_photo-45p-80q.jpg");
    let back = image::load_from_memory(&r.bytes).unwrap();
    assert_eq!((back.width(), back.height()), (80, 45));
}

#[test]
fn jpeg_primary_output_is_used() {
    let png = encode_png(&gradient(8, 8), false).unwrap();
    let mut o = ConversionOptions::default();
    o.quality = 100;
    let primary = |rgb: &Vec<u8>, w: u32, h: u32, q: u8| -> Option<Vec<u8>> {
        assert_eq!((w, h, q), (8, 8, 99));
        assert_eq!(rgb.len(), 8 * 8 * 3);
        let mut buf = Vec::new();
        image::codecs::jpeg::JpegEncoder::new_with_quality(&mut buf, q)
            .encode(rgb, w, h, image::ExtendedColorType::Rgb8)
            .unwrap();
        Some(buf)
    };
    let r = convert_image(&png, "png", png.len() as u64, "p", &o, no_heic, primary).unwrap();
    assert_eq!(r.file_name, "p.jpg");
    assert!(image::load_from_memory(&r.bytes).is_ok());
}

#[test]
fn heic_goes_through_adapter_without_orientation() {
    let header = vec![0, 0, 0, 0x18, b'f', b't', b'y', b'p', b'h', b'e', b'i', b'c'];
    let mut o = ConversionOptions::default();
    o.format = ImageFormat::Png;
    o.auto_suffix = true;
    let adapter = |_: &Vec<u8>| Some(gradient(5, 3));
    let r = convert_image(&header, "heic", 12, "img", &o, adapter, failing_primary).unwrap();
    assert_eq!(r.file_name, "img-3p.png");
    let back = image::load_from_memory(&r.bytes).unwrap();
    assert_eq!((back.width(), back.height()), (5, 3));
    let bad = |_: &Vec<u8>| None;
    let r = convert_image(&header, "heif", 12, "img", &o, bad, failing_primary);
    assert_eq!(r.unwrap_err(), ConvertError::DecodeFailure);
}

#[test]
fn exif_orientation_is_applied_and_metadata_kept() {
    let mut blob = b"Exif\0\0II*\0\x08\0\0\0\x01\0".to_vec();
    blob.extend_from_slice(&[0x12, 0x01, 3, 0, 1, 0, 0, 0, 6, 0, 0, 0]);
    blob.extend_from_slice(&[0, 0, 0, 0]);
    let raw = encode_jpeg(&gradient(16, 8), 95, None, &None, &Vec::new()).unwrap();
    let mut jpeg = img_parts::jpeg::Jpeg::from_bytes(raw.into()).unwrap();
    jpeg.segments_mut().insert(1, img_parts::jpeg::JpegSegment::new_with_contents(0xE1, blob.clone().into()));
    let src = jpeg.encoder().bytes().to_vec();
    let mut o = ConversionOptions::default();
    o.keep_metadata = true;
    let r = convert_image(&src, "jpeg", src.len() as u64, "rot", &o, no_heic, failing_primary).unwrap();
    let back = image::load_from_memory(&r.bytes).unwrap();
    assert_eq!((back.width(), back.height()), (8, 16));
    let out = img_parts::jpeg::Jpeg::from_bytes(r.bytes.into()).unwrap();
    let first = &out.segments()[0];
    assert_eq!(first.marker(), 0xE1);
    let mut expected = blob.clone();
    expected[24] = 1;
    assert_eq!(first.contents().to_vec(), expected);
}

#[test]
fn invalid_profile_leaves_pixels() {
    let mut img = gradient(3, 3);
    let before = img.rgba.clone();
    assert_eq!(apply_color_correction(&mut img, &vec![1, 2, 3]), Err(ConvertError::ColorProfileInvalid));
    assert_eq!(img.rgba, before);
    let icc = lcms2::Profile::new_srgb().icc().unwrap();
    let mut t = gradient(3, 3);
    t.has_alpha = true;
    t.rgba[3] = 17;
    assert_eq!(apply_color_correction(&mut t, &icc), Ok(()));
    assert_eq!(t.rgba[3], 17);
    assert_eq!(t.rgba.len(), 36);
}

#[test]
fn linear_profile_is_converted_to_srgb() {
    let white = lcms2::CIExyY { x: 0.3127, y: 0.3290, Y: 1.0 };
    let primaries = lcms2::CIExyYTRIPLE {
        Red: lcms2::CIExyY { x: 0.64, y: 0.33, Y: 1.0 },
        Green: lcms2::CIExyY { x: 0.30, y: 0.60, Y: 1.0 },
        Blue: lcms2::CIExyY { x: 0.15, y: 0.06, Y: 1.0 },
    };
    let linear = lcms2::ToneCurve::new(1.0);
    let profile = lcms2::Profile::new_rgb(&white, &primaries, &[&linear, &linear, &linear]).unwrap();
    let icc = profile.icc().unwrap();
    let mut img = Raster::from_rgba(1, 1, true, vec![64, 64, 64, 77]).unwrap();
    assert_eq!(apply_color_correction(&mut img, &icc), Ok(()));
    // Linear 64/255 is much lighter once sRGB-encoded; alpha is kept.
    assert!(img.rgba[0] > 120 && img.rgba[1] > 120 && img.rgba[2] > 120, "{:?}", img.rgba);
    assert_eq!(img.rgba[3], 77);
}

#[test]
fn icc_profile_is_found_in_webp() {
    let icc = lcms2::Profile::new_srgb().icc().unwrap();
    let img = Raster::from_rgba(4, 4, false, vec![90; 64]).unwrap();
    let webp = simple_image_converter::encode::encode_webp(&img, 80, &icc).unwrap();
    assert_eq!(simple_image_converter::metadata::extract_icc_profile(&webp), Some(icc));
}
