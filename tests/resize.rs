use simple_image_converter::raster::Raster;
use simple_image_converter::resize::{requested_dimensions, resize_image_fast, resolve_dimensions};

#[test]
fn width_only_keeps_aspect() {
    assert_eq!(resolve_dimensions(1600, 900, 800, 0), Some((800, 450)));
    let src = Raster::from_rgba(1600, 900, false, vec![128; 1600 * 900 * 4]).unwrap();
    let out = resize_image_fast(&src, 800, 450);
    assert_eq!((out.width, out.height), (800, 450));
    assert_eq!(out.rgba.len(), 800 * 450 * 4);
    assert!(out.has_alpha);
    assert!(out.rgba.iter().all(|&b| (127..=129).contains(&b) || b == 255));
}

#[test]
fn height_only_keeps_aspect() {
    assert_eq!(resolve_dimensions(1600, 900, 0, 300), Some((533, 300)));
    assert_eq!(resolve_dimensions(3, 2, 0, 1), Some((2, 1)));
}

#[test]
fn both_given_are_used_as_is() {
    assert_eq!(resolve_dimensions(1600, 900, 100, 100), Some((100, 100)));
}

#[test]
fn both_zero_means_no_resize() {
    assert_eq!(resolve_dimensions(1600, 900, 0, 0), None);
    assert_eq!(requested_dimensions(true, "", ""), None);
    assert_eq!(requested_dimensions(true, "0", "abc"), None);
}

#[test]
fn tiny_results_are_at_least_one_pixel() {
    assert_eq!(resolve_dimensions(10000, 1, 10, 0), Some((10, 1)));
}

#[test]
fn requested_dimensions_parse_fields() {
    assert_eq!(requested_dimensions(true, "800", ""), Some((800, 0)));
    assert_eq!(requested_dimensions(true, "+12", "34"), Some((12, 34)));
    assert_eq!(requested_dimensions(false, "800", "600"), None);
    assert_eq!(requested_dimensions(true, "-5", "7"), Some((0, 7)));
    assert_eq!(requested_dimensions(true, "4294967296", "7"), Some((0, 7)));
}
