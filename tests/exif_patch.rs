use simple_image_converter::exif_patch::patch_orientation_in_place;

fn entry(le: bool, tag: u16, value: u16) -> Vec<u8> {
    let mut e = Vec::new();
    let (t, ty, cnt, v) = if le {
        (tag.to_le_bytes(), 3u16.to_le_bytes(), 1u32.to_le_bytes(), value.to_le_bytes())
    } else {
        (tag.to_be_bytes(), 3u16.to_be_bytes(), 1u32.to_be_bytes(), value.to_be_bytes())
    };
    e.extend_from_slice(&t);
    e.extend_from_slice(&ty);
    e.extend_from_slice(&cnt);
    e.extend_from_slice(&v);
    e.extend_from_slice(&[0, 0]);
    e
}

fn blob(le: bool, orientation: u16) -> Vec<u8> {
    let mut b = b"Exif\0\0".to_vec();
    if le {
        b.extend_from_slice(b"II");
        b.extend_from_slice(&42u16.to_le_bytes());
        b.extend_from_slice(&8u32.to_le_bytes());
        b.extend_from_slice(&2u16.to_le_bytes());
    } else {
        b.extend_from_slice(b"MM");
        b.extend_from_slice(&42u16.to_be_bytes());
        b.extend_from_slice(&8u32.to_be_bytes());
        b.extend_from_slice(&2u16.to_be_bytes());
    }
    b.extend(entry(le, 0x010F, 7));
    b.extend(entry(le, 0x0112, orientation));
    b.extend_from_slice(&[0, 0, 0, 0]);
    b
}

#[test]
fn patch_little_endian_sets_orientation_to_one() {
    let mut b = blob(true, 6);
    let before = b.clone();
    patch_orientation_in_place(&mut b);
    let at = 6 + 8 + 2 + 12 + 8;
    assert_eq!(&b[at..at + 2], &[1, 0]);
    let mut expected = before;
    expected[at] = 1;
    expected[at + 1] = 0;
    assert_eq!(b, expected);
}

#[test]
fn patch_big_endian_sets_orientation_to_one() {
    let mut b = blob(false, 8);
    patch_orientation_in_place(&mut b);
    let at = 6 + 8 + 2 + 12 + 8;
    assert_eq!(&b[at..at + 2], &[0, 1]);
    assert_eq!(b, blob(false, 1));
}

#[test]
fn patch_of_normalized_blob_is_identity() {
    for le in [true, false] {
        let mut b = blob(le, 1);
        let before = b.clone();
        patch_orientation_in_place(&mut b);
        assert_eq!(b, before);
    }
}

#[test]
fn patch_twice_equals_patch_once() {
    let mut once = blob(true, 3);
    patch_orientation_in_place(&mut once);
    let mut twice = once.clone();
    patch_orientation_in_place(&mut twice);
    assert_eq!(once, twice);
}

#[test]
fn short_blob_is_left_untouched() {
    let full = blob(true, 6);
    for n in 0..18 {
        let mut b = full[..n].to_vec();
        let before = b.clone();
        patch_orientation_in_place(&mut b);
        assert_eq!(b, before);
    }
}

#[test]
fn blob_without_marker_is_left_untouched() {
    let mut b = blob(true, 6);
    b[0] = b'X';
    let before = b.clone();
    patch_orientation_in_place(&mut b);
    assert_eq!(b, before);
}

#[test]
fn truncated_directory_is_left_untouched() {
    let full = blob(true, 6);
    // The orientation entry would run past the end.
    let mut b = full[..6 + 8 + 2 + 12 + 6].to_vec();
    let before = b.clone();
    patch_orientation_in_place(&mut b);
    assert_eq!(b, before);
    // An IFD offset that points past the end.
    let mut c = full.clone();
    c[6 + 4] = 0xF0;
    let before = c.clone();
    patch_orientation_in_place(&mut c);
    assert_eq!(c, before);
}

#[test]
fn blob_without_orientation_entry_is_left_untouched() {
    let mut b = blob(true, 6);
    b[6 + 8 + 2 + 12] = 0x13;
    let before = b.clone();
    patch_orientation_in_place(&mut b);
    assert_eq!(b, before);
}
