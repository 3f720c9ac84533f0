use simple_image_converter::format::{
    check_input, header_matches_format, source_format_of_extension, validate_file_magic,
    ConvertError, ImageFormat, SourceFormat, MAX_FILE_SIZE,
};

const JPEG: [u8; 12] = [0xFF, 0xD8, 0xFF, 0xE0, 0, 0x10, b'J', b'F', b'I', b'F', 0, 1];
const PNG: [u8; 12] = [0x89, b'P', b'N', b'G', 0x0D, 0x0A, 0x1A, 0x0A, 0, 0, 0, 0x0D];
const WEBP: [u8; 12] = [b'R', b'I', b'F', b'F', 1, 2, 3, 4, b'W', b'E', b'B', b'P'];
const HEIC: [u8; 12] = [0, 0, 0, 0x18, b'f', b't', b'y', b'p', b'h', b'e', b'i', b'c'];

#[test]
fn extension_is_case_insensitive() {
    assert_eq!(source_format_of_extension("JPG"), SourceFormat::Jpeg);
    assert_eq!(source_format_of_extension("Jpeg"), SourceFormat::Jpeg);
    assert_eq!(source_format_of_extension("PNG"), SourceFormat::Png);
    assert_eq!(source_format_of_extension("WebP"), SourceFormat::WebP);
    assert_eq!(source_format_of_extension("HEIC"), SourceFormat::Heic);
    assert_eq!(source_format_of_extension("heif"), SourceFormat::Heic);
    assert_eq!(source_format_of_extension("gif"), SourceFormat::Unknown);
    assert_eq!(source_format_of_extension(""), SourceFormat::Unknown);
}

#[test]
fn matching_signatures_are_accepted() {
    assert_eq!(validate_file_magic("jpg", &JPEG), Ok(SourceFormat::Jpeg));
    assert_eq!(validate_file_magic("jpeg", &JPEG[..3]), Ok(SourceFormat::Jpeg));
    assert_eq!(validate_file_magic("png", &PNG), Ok(SourceFormat::Png));
    assert_eq!(validate_file_magic("webp", &WEBP), Ok(SourceFormat::WebP));
    assert_eq!(validate_file_magic("heic", &HEIC), Ok(SourceFormat::Heic));
    assert_eq!(validate_file_magic("HEIF", &HEIC), Ok(SourceFormat::Heic));
}

#[test]
fn mismatching_signatures_are_rejected() {
    let all = [JPEG, PNG, WEBP, HEIC];
    let exts = ["jpg", "png", "webp", "heic"];
    for (i, ext) in exts.iter().enumerate() {
        for (j, header) in all.iter().enumerate() {
            let r = validate_file_magic(ext, header);
            if i == j {
                assert!(r.is_ok(), "{} should accept its own signature", ext);
            } else {
                assert_eq!(r, Err(ConvertError::FormatMismatch), "{} with header {}", ext, j);
            }
        }
    }
}

#[test]
fn webp_needs_both_tags() {
    let mut h = WEBP;
    h[10] = b'X';
    assert!(!header_matches_format(SourceFormat::WebP, &h));
    let mut h = WEBP;
    h[0] = b'r';
    assert!(!header_matches_format(SourceFormat::WebP, &h));
    assert!(!header_matches_format(SourceFormat::WebP, &WEBP[..11]));
}

#[test]
fn short_headers_are_rejected() {
    assert_eq!(validate_file_magic("jpg", &JPEG[..2]), Err(ConvertError::FormatMismatch));
    assert_eq!(validate_file_magic("png", &[]), Err(ConvertError::FormatMismatch));
    assert_eq!(validate_file_magic("heic", &HEIC[..7]), Err(ConvertError::FormatMismatch));
}

#[test]
fn unknown_extension_passes() {
    assert_eq!(validate_file_magic("bmp", &[1, 2, 3]), Ok(SourceFormat::Unknown));
    assert_eq!(validate_file_magic("txt", &[]), Ok(SourceFormat::Unknown));
}

#[test]
fn file_over_ceiling_is_too_large() {
    let size = 101 * 1024 * 1024;
    assert_eq!(check_input("jpg", &JPEG, size), Err(ConvertError::FileTooLarge));
    assert_eq!(check_input("png", &PNG, MAX_FILE_SIZE + 1), Err(ConvertError::FileTooLarge));
    assert_eq!(check_input("png", &PNG, MAX_FILE_SIZE), Ok(SourceFormat::Png));
}

#[test]
fn signature_is_checked_before_size() {
    let size = 101 * 1024 * 1024;
    assert_eq!(check_input("jpg", &PNG, size), Err(ConvertError::FormatMismatch));
}

#[test]
fn format_extensions_and_labels() {
    assert_eq!(ImageFormat::Jpeg.extension(), "jpg");
    assert_eq!(ImageFormat::Png.extension(), "png");
    assert_eq!(ImageFormat::WebP.extension(), "webp");
    assert_eq!(ImageFormat::Jpeg.label(), "JPG");
    assert_eq!(ImageFormat::WebP.label(), "WebP");
    assert_eq!(ImageFormat::default(), ImageFormat::Jpeg);
}
