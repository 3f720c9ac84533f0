use img_parts::{ImageEXIF, ImageICC};
use simple_image_converter::encode::{encode_jpeg, encode_png};
use simple_image_converter::metadata::{extract_icc_profile, extract_metadata, prefix_exif_marker, read_orientation};
use simple_image_converter::raster::Raster;

fn solid(w: u32, h: u32) -> Raster {
    Raster::from_rgba(w, h, false, vec![100; (w * h * 4) as usize]).unwrap()
}

fn tiff_with_orientation(o: u16) -> Vec<u8> {
    let mut t = b"II*\0\x08\0\0\0\x01\0".to_vec();
    t.extend_from_slice(&[0x12, 0x01, 3, 0, 1, 0, 0, 0]);
    t.extend_from_slice(&o.to_le_bytes());
    t.extend_from_slice(&[0, 0, 0, 0, 0, 0]);
    t
}

/// A baseline JPEG with an APP1 segment holding the given EXIF payload, inserted after APP0.
fn jpeg_with_exif(payload: &[u8]) -> Vec<u8> {
    let raw = encode_jpeg(&solid(6, 4), 90, None, &None, &Vec::new()).unwrap();
    let mut jpeg = img_parts::jpeg::Jpeg::from_bytes(raw.into()).unwrap();
    let seg = img_parts::jpeg::JpegSegment::new_with_contents(0xE1, payload.to_vec().into());
    jpeg.segments_mut().insert(1, seg);
    jpeg.encoder().bytes().to_vec()
}

#[test]
fn jpeg_metadata_last_segment_wins() {
    let mut first = b"Exif\0\0".to_vec();
    first.extend(tiff_with_orientation(3));
    let mut second = b"Exif\0\0".to_vec();
    second.extend(tiff_with_orientation(8));
    let once = jpeg_with_exif(&first);
    let mut jpeg = img_parts::jpeg::Jpeg::from_bytes(once.into()).unwrap();
    jpeg.segments_mut().insert(2, img_parts::jpeg::JpegSegment::new_with_contents(0xE1, second.clone().into()));
    let bytes = jpeg.encoder().bytes().to_vec();
    assert_eq!(extract_metadata(&bytes), Some(second));
}

#[test]
fn jpeg_without_exif_has_no_metadata() {
    let raw = encode_jpeg(&solid(4, 4), 90, None, &None, &Vec::new()).unwrap();
    assert_eq!(extract_metadata(&raw), None);
    assert_eq!(read_orientation(&raw), 1);
}

#[test]
fn orientation_is_read_from_exif() {
    let mut payload = b"Exif\0\0".to_vec();
    payload.extend(tiff_with_orientation(6));
    let bytes = jpeg_with_exif(&payload);
    assert_eq!(read_orientation(&bytes), 6);
    assert_eq!(extract_metadata(&bytes), Some(payload));
}

#[test]
fn png_exif_chunk_gets_marker() {
    let png = encode_png(&solid(2, 2), false).unwrap();
    let mut p = img_parts::png::Png::from_bytes(png.into()).unwrap();
    let tiff = tiff_with_orientation(6);
    let chunk = img_parts::png::PngChunk::new(*b"eXIf", tiff.clone().into());
    let n = p.chunks().len();
    p.chunks_mut().insert(n - 1, chunk);
    let bytes = p.encoder().bytes().to_vec();
    let mut expected = b"Exif\0\0".to_vec();
    expected.extend(tiff);
    assert_eq!(extract_metadata(&bytes), Some(expected));
}

#[test]
fn webp_exif_chunk_gets_marker() {
    let mut buf = Vec::new();
    image::codecs::webp::WebPEncoder::new_lossless(&mut buf)
        .encode(&[1, 2, 3, 4, 5, 6, 7, 8, 9, 10, 11, 12], 2, 2, image::ExtendedColorType::Rgb8)
        .unwrap();
    let mut w = img_parts::webp::WebP::from_bytes(buf.into()).unwrap();
    let tiff = tiff_with_orientation(2);
    w.set_exif(Some(tiff.clone().into()));
    let bytes = w.encoder().bytes().to_vec();
    let mut expected = b"Exif\0\0".to_vec();
    expected.extend(tiff);
    assert_eq!(extract_metadata(&bytes), Some(expected));
}

#[test]
fn marker_is_not_doubled() {
    let with = b"Exif\0\0abc".to_vec();
    assert_eq!(prefix_exif_marker(with.clone()), with);
    assert_eq!(prefix_exif_marker(b"abc".to_vec()), with);
}

#[test]
fn icc_profile_is_found_in_jpeg() {
    let icc = lcms2::Profile::new_srgb().icc().unwrap();
    let out = encode_jpeg(&solid(4, 4), 90, None, &None, &icc).unwrap();
    assert_eq!(extract_icc_profile(&out), Some(icc));
}

#[test]
fn no_icc_profile_in_plain_files() {
    let png = encode_png(&solid(2, 2), false).unwrap();
    assert_eq!(extract_icc_profile(&png), None);
    assert_eq!(extract_icc_profile(&vec![0, 1, 2]), None);
    assert_eq!(extract_metadata(&vec![0, 1, 2]), None);
}

#[test]
fn icc_profile_is_found_in_png() {
    let icc = lcms2::Profile::new_srgb().icc().unwrap();
    let png = encode_png(&solid(2, 2), false).unwrap();
    let mut p = img_parts::png::Png::from_bytes(png.into()).unwrap();
    p.set_icc_profile(Some(icc.clone().into()));
    let bytes = p.encoder().bytes().to_vec();
    assert_eq!(extract_icc_profile(&bytes), Some(icc));
}
