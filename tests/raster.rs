use simple_image_converter::pixels::{any_translucent, merge_alpha, pack_rows, rgb_bytes};
use simple_image_converter::raster::{apply_orientation, turn, Raster, Turn};

/// A 3×2 image whose pixel (x, y) has channels (x, y, 10 * x + y, 255).
fn sample() -> Raster {
    let (w, h) = (3u32, 2u32);
    let mut rgba = Vec::new();
    for y in 0..h {
        for x in 0..w {
            rgba.extend_from_slice(&[x as u8, y as u8, (10 * x + y) as u8, 255]);
        }
    }
    Raster::from_rgba(w, h, false, rgba).unwrap()
}

fn px(r: &Raster, x: u32, y: u32) -> (u8, u8) {
    let i = ((y * r.width + x) * 4) as usize;
    (r.rgba[i], r.rgba[i + 1])
}

#[test]
fn from_rgba_checks_length() {
    assert!(Raster::from_rgba(2, 2, true, vec![0; 16]).is_some());
    assert!(Raster::from_rgba(2, 2, true, vec![0; 15]).is_none());
    assert!(Raster::from_rgba(0, 5, true, vec![]).is_some());
}

#[test]
fn orientation_identity_and_unknown() {
    let r = sample();
    assert_eq!(apply_orientation(r.clone(), 1).rgba, r.rgba);
    assert_eq!(apply_orientation(r.clone(), 0).rgba, r.rgba);
    assert_eq!(apply_orientation(r.clone(), 9).rgba, r.rgba);
}

#[test]
fn orientation_flips_and_half_turn() {
    let r = sample();
    let o2 = apply_orientation(r.clone(), 2);
    assert_eq!((o2.width, o2.height), (3, 2));
    assert_eq!(px(&o2, 0, 0), (2, 0));
    let o3 = apply_orientation(r.clone(), 3);
    assert_eq!(px(&o3, 0, 0), (2, 1));
    let o4 = apply_orientation(r.clone(), 4);
    assert_eq!(px(&o4, 0, 0), (0, 1));
    assert_eq!(px(&o4, 2, 1), (2, 0));
}

#[test]
fn orientation_quarter_turns_swap_dimensions() {
    let r = sample();
    for o in 5..=8 {
        let t = apply_orientation(r.clone(), o);
        assert_eq!((t.width, t.height), (2, 3), "orientation {}", o);
        assert_eq!(t.rgba.len(), 24);
    }
    // 5: transpose, (x, y) comes from (y, x).
    let o5 = apply_orientation(r.clone(), 5);
    assert_eq!(px(&o5, 1, 2), (2, 1));
    // 6: 90° clockwise, (x, y) comes from (y, h-1-x).
    let o6 = apply_orientation(r.clone(), 6);
    assert_eq!(px(&o6, 0, 0), (0, 1));
    assert_eq!(px(&o6, 1, 2), (2, 0));
    // 7: anti-transpose, (x, y) comes from (w-1-y, h-1-x).
    let o7 = apply_orientation(r.clone(), 7);
    assert_eq!(px(&o7, 0, 0), (2, 1));
    // 8: 270° clockwise, (x, y) comes from (w-1-y, x).
    let o8 = apply_orientation(r.clone(), 8);
    assert_eq!(px(&o8, 0, 0), (2, 0));
    assert_eq!(px(&o8, 1, 2), (0, 1));
}

#[test]
fn turn_keeps_alpha_flag() {
    let mut r = sample();
    r.has_alpha = true;
    assert!(turn(&r, Turn::Rotate90).has_alpha);
    assert!(!turn(&sample(), Turn::Rotate270).has_alpha);
}

#[test]
fn pack_rows_strips_padding() {
    // Two rows of one pixel, 6 bytes apart.
    let data = vec![1, 2, 3, 4, 99, 99, 5, 6, 7, 8];
    assert_eq!(pack_rows(&data, 6, 1, 2), Some(vec![1, 2, 3, 4, 5, 6, 7, 8]));
    assert_eq!(pack_rows(&data, 6, 1, 3), None);
    assert_eq!(pack_rows(&data, 4, 2, 1), Some(vec![1, 2, 3, 4, 99, 99, 5, 6]));
    assert_eq!(pack_rows(&data, 100, 1, 0), Some(vec![]));
}

#[test]
fn translucency_and_rgb() {
    let opaque = vec![1, 2, 3, 255, 4, 5, 6, 255];
    assert!(!any_translucent(&opaque));
    assert!(any_translucent(&vec![1, 2, 3, 255, 4, 5, 6, 254]));
    assert!(!any_translucent(&vec![]));
    assert_eq!(rgb_bytes(&opaque), vec![1, 2, 3, 4, 5, 6]);
}

#[test]
fn merge_keeps_alpha_of_second() {
    let color = vec![10, 20, 30, 0, 40, 50, 60, 0];
    let alpha = vec![1, 2, 3, 128, 4, 5, 6, 7];
    assert_eq!(merge_alpha(&color, &alpha), vec![10, 20, 30, 128, 40, 50, 60, 7]);
}
