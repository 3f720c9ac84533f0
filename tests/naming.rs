use simple_image_converter::format::ImageFormat;
use simple_image_converter::naming::{get_smart_suffix, get_target_filename};
use simple_image_converter::options::ConversionOptions;

fn options(format: ImageFormat) -> ConversionOptions {
    let mut o = ConversionOptions::default();
    o.format = format;
    o.prefix = "out_".to_string();
    o.find_pattern = "photo".to_string();
    o.replace_with = "pic".to_string();
    o
}

#[test]
fn prefix_and_replacement_without_suffix() {
    let o = options(ImageFormat::Png);
    assert_eq!(get_target_filename("photo", Some((1920, 1080)), &o), "out_pic.png");
    assert_eq!(get_target_filename("photo", None, &o), "out_pic.png");
}

#[test]
fn auto_suffix_for_png_omits_quality() {
    let mut o = options(ImageFormat::Png);
    o.auto_suffix = true;
    o.quality = 80;
    assert_eq!(get_smart_suffix(1920, 1080, 80, ImageFormat::Png), "-1080p");
    assert_eq!(get_target_filename("photo", Some((1920, 1080)), &o), "out_pic-1080p.png");
}

#[test]
fn auto_suffix_for_jpeg_records_quality() {
    let mut o = options(ImageFormat::Jpeg);
    o.auto_suffix = true;
    o.quality = 80;
    assert_eq!(get_smart_suffix(1920, 1080, 80, ImageFormat::Jpeg), "-1080p-80q");
    assert_eq!(get_target_filename("photo", Some((1920, 1080)), &o), "out_pic-1080p-80q.jpg");
    assert_eq!(get_smart_suffix(1080, 1920, 100, ImageFormat::WebP), "-1080p-100q");
}

#[test]
fn suffix_needs_known_dimensions() {
    let mut o = options(ImageFormat::WebP);
    o.auto_suffix = true;
    assert_eq!(get_target_filename("photo", None, &o), "out_pic.webp");
}

#[test]
fn empty_pattern_leaves_stem() {
    let o = ConversionOptions::default();
    assert_eq!(get_target_filename("My Photo", None, &o), "My Photo.jpg");
}

#[test]
fn every_occurrence_is_replaced() {
    let mut o = ConversionOptions::default();
    o.find_pattern = "aa".to_string();
    o.replace_with = "b".to_string();
    assert_eq!(get_target_filename("aaaaa_aa", None, &o), "bba_b.jpg");
}

#[test]
fn zero_short_side_suffix() {
    assert_eq!(get_smart_suffix(0, 5, 7, ImageFormat::Png), "-0p");
    assert_eq!(get_smart_suffix(4294967295, 4294967295, 255, ImageFormat::Jpeg), "-4294967295p-255q");
}
