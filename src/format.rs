//! Image formats, the error taxonomy of a conversion, and the header check run before decoding.
use vstd::prelude::*;
use crate::text::{lower_of, str_equals, to_lowercase};

verus! {

/// Output formats.
#[derive(Clone, Copy, PartialEq, Eq, Debug, Structural)]
pub enum ImageFormat {
    Jpeg,
    Png,
    WebP,
}

/// What a source file is taken to be, by its extension.
#[derive(Clone, Copy, PartialEq, Eq, Debug, Structural)]
pub enum SourceFormat {
    Jpeg,
    Png,
    WebP,
    Heic,
    Unknown,
}

/// Why a conversion failed.
#[derive(Clone, Copy, PartialEq, Eq, Debug, Structural)]
pub enum ConvertError {
    /// The header bytes do not match the signature the extension calls for.
    FormatMismatch,
    /// The file exceeds the size ceiling.
    FileTooLarge,
    /// No pixels could be decoded.
    DecodeFailure,
    /// An embedded color profile could not be used.
    ColorProfileInvalid,
    /// Neither encoder produced output.
    EncodeFailure,
    /// Reading or writing a file failed.
    IoFailure,
}

/// Largest accepted input, in bytes (100 MiB).
pub const MAX_FILE_SIZE: u64 = 104857600;

impl ImageFormat {
    /// Extension of files written in this format.
    pub open spec fn spec_extension(self) -> Seq<char> {
        match self {
            ImageFormat::Jpeg => seq!['j', 'p', 'g'],
            ImageFormat::Png => seq!['p', 'n', 'g'],
            ImageFormat::WebP => seq!['w', 'e', 'b', 'p'],
        }
    }

    /// Extension of files written in this format.
    pub fn extension(self) -> (r: &'static str)
        ensures
            r@ == self.spec_extension(),
    {
        proof {
            reveal_strlit("jpg");
            reveal_strlit("png");
            reveal_strlit("webp");
            assert("jpg"@ =~= seq!['j', 'p', 'g']);
            assert("png"@ =~= seq!['p', 'n', 'g']);
            assert("webp"@ =~= seq!['w', 'e', 'b', 'p']);
        }
        match self {
            ImageFormat::Jpeg => "jpg",
            ImageFormat::Png => "png",
            ImageFormat::WebP => "webp",
        }
    }

    /// Name shown to users.
    pub open spec fn spec_label(self) -> Seq<char> {
        match self {
            ImageFormat::Jpeg => seq!['J', 'P', 'G'],
            ImageFormat::Png => seq!['P', 'N', 'G'],
            ImageFormat::WebP => seq!['W', 'e', 'b', 'P'],
        }
    }

    /// Name shown to users.
    pub fn label(self) -> (r: String)
        ensures
            r@ == self.spec_label(),
    {
        proof {
            reveal_strlit("JPG");
            reveal_strlit("PNG");
            reveal_strlit("WebP");
            assert("JPG"@ =~= seq!['J', 'P', 'G']);
            assert("PNG"@ =~= seq!['P', 'N', 'G']);
            assert("WebP"@ =~= seq!['W', 'e', 'b', 'P']);
        }
        match self {
            ImageFormat::Jpeg => String::from_str("JPG"),
            ImageFormat::Png => String::from_str("PNG"),
            ImageFormat::WebP => String::from_str("WebP"),
        }
    }
}

impl Default for ImageFormat {
    fn default() -> (r: ImageFormat)
        ensures
            r == ImageFormat::Jpeg,
    {
        ImageFormat::Jpeg
    }
}

/// The source format named by an already lower-cased extension.
pub open spec fn source_format_of_lower(e: Seq<char>) -> SourceFormat {
    if e == seq!['j', 'p', 'g'] || e == seq!['j', 'p', 'e', 'g'] {
        SourceFormat::Jpeg
    } else if e == seq!['p', 'n', 'g'] {
        SourceFormat::Png
    } else if e == seq!['w', 'e', 'b', 'p'] {
        SourceFormat::WebP
    } else if e == seq!['h', 'e', 'i', 'c'] || e == seq!['h', 'e', 'i', 'f'] {
        SourceFormat::Heic
    } else {
        SourceFormat::Unknown
    }
}

/// The source format named by an already lower-cased extension.
pub fn source_format_of_lowercase(e: &str) -> (r: SourceFormat)
    ensures
        r == source_format_of_lower(e@),
{
    proof {
        reveal_strlit("jpg");
        reveal_strlit("jpeg");
        reveal_strlit("png");
        reveal_strlit("webp");
        reveal_strlit("heic");
        reveal_strlit("heif");
        assert("jpg"@ =~= seq!['j', 'p', 'g']);
        assert("jpeg"@ =~= seq!['j', 'p', 'e', 'g']);
        assert("png"@ =~= seq!['p', 'n', 'g']);
        assert("webp"@ =~= seq!['w', 'e', 'b', 'p']);
        assert("heic"@ =~= seq!['h', 'e', 'i', 'c']);
        assert("heif"@ =~= seq!['h', 'e', 'i', 'f']);
    }
    if str_equals(e, "jpg") || str_equals(e, "jpeg") {
        SourceFormat::Jpeg
    } else if str_equals(e, "png") {
        SourceFormat::Png
    } else if str_equals(e, "webp") {
        SourceFormat::WebP
    } else if str_equals(e, "heic") || str_equals(e, "heif") {
        SourceFormat::Heic
    } else {
        SourceFormat::Unknown
    }
}

/// The source format named by an extension, compared without regard to case.
pub fn source_format_of_extension(ext: &str) -> (r: SourceFormat)
    ensures
        r == source_format_of_lower(lower_of(ext@)),
{
    let lower = to_lowercase(ext);
    source_format_of_lowercase(lower.as_str())
}

/// `h` starts with the bytes of `sig` at offset `at`.
pub open spec fn bytes_at(h: Seq<u8>, at: int, sig: Seq<u8>) -> bool {
    at + sig.len() <= h.len() && h.subrange(at, at + sig.len()) == sig
}

/// The header of a file of the given format carries its signature: `FF D8 FF` for JPEG,
/// `89 50 4E 47` for PNG, `RIFF` then `WEBP` at offset 8 for WebP, `ftyp` at offset 4 for
/// HEIC/HEIF. A file of unknown format always passes.
pub open spec fn header_matches(f: SourceFormat, h: Seq<u8>) -> bool {
    match f {
        SourceFormat::Jpeg => bytes_at(h, 0, seq![0xFFu8, 0xD8u8, 0xFFu8]),
        SourceFormat::Png => bytes_at(h, 0, seq![0x89u8, 0x50u8, 0x4Eu8, 0x47u8]),
        SourceFormat::WebP => bytes_at(h, 0, seq![0x52u8, 0x49u8, 0x46u8, 0x46u8]) && bytes_at(
            h,
            8,
            seq![0x57u8, 0x45u8, 0x42u8, 0x50u8],
        ),
        SourceFormat::Heic => bytes_at(h, 4, seq![0x66u8, 0x74u8, 0x79u8, 0x70u8]),
        SourceFormat::Unknown => true,
    }
}

/// Whether `h` holds the bytes `s0 s1 s2 s3` from offset `at` (only the first `n` of them).
fn has_bytes_at(h: &[u8], at: usize, n: usize, s0: u8, s1: u8, s2: u8, s3: u8) -> (r: bool)
    requires
        1 <= n <= 4,
        at <= 8,
    ensures
        r == bytes_at(h@, at as int, seq![s0, s1, s2, s3].subrange(0, n as int)),
{
    let ghost sig = seq![s0, s1, s2, s3].subrange(0, n as int);
    let hl = h.len();
    if hl < at + n {
        return false;
    }
    let mut i: usize = 0;
    while i < n
        invariant
            i <= n <= 4,
            at + n <= h@.len(),
            hl == h@.len(),
            sig == seq![s0, s1, s2, s3].subrange(0, n as int),
            forall|j: int| 0 <= j < i ==> h@[at + j] == sig[j],
        decreases n - i,
    {
        let expected = if i == 0 {
            s0
        } else if i == 1 {
            s1
        } else if i == 2 {
            s2
        } else {
            s3
        };
        if h[at + i] != expected {
            assert(h@.subrange(at as int, at + n)[i as int] != sig[i as int]);
            return false;
        }
        i = i + 1;
    }
    assert(h@.subrange(at as int, at + n) =~= sig);
    true
}

/// Whether the header bytes carry the signature of the format.
pub fn header_matches_format(f: SourceFormat, h: &[u8]) -> (r: bool)
    ensures
        r == header_matches(f, h@),
{
    match f {
        SourceFormat::Jpeg => {
            let r = has_bytes_at(h, 0, 3, 0xFF, 0xD8, 0xFF, 0);
            assert(seq![0xFFu8, 0xD8u8, 0xFFu8, 0u8].subrange(0, 3) =~= seq![0xFFu8, 0xD8u8, 0xFFu8]);
            r
        },
        SourceFormat::Png => {
            let r = has_bytes_at(h, 0, 4, 0x89, 0x50, 0x4E, 0x47);
            assert(seq![0x89u8, 0x50u8, 0x4Eu8, 0x47u8].subrange(0, 4) =~= seq![0x89u8, 0x50u8, 0x4Eu8, 0x47u8]);
            r
        },
        SourceFormat::WebP => {
            let a = has_bytes_at(h, 0, 4, 0x52, 0x49, 0x46, 0x46);
            let b = has_bytes_at(h, 8, 4, 0x57, 0x45, 0x42, 0x50);
            assert(seq![0x52u8, 0x49u8, 0x46u8, 0x46u8].subrange(0, 4) =~= seq![0x52u8, 0x49u8, 0x46u8, 0x46u8]);
            assert(seq![0x57u8, 0x45u8, 0x42u8, 0x50u8].subrange(0, 4) =~= seq![0x57u8, 0x45u8, 0x42u8, 0x50u8]);
            a && b
        },
        SourceFormat::Heic => {
            let r = has_bytes_at(h, 4, 4, 0x66, 0x74, 0x79, 0x70);
            assert(seq![0x66u8, 0x74u8, 0x79u8, 0x70u8].subrange(0, 4) =~= seq![0x66u8, 0x74u8, 0x79u8, 0x70u8]);
            r
        },
        SourceFormat::Unknown => true,
    }
}

/// Checks the header bytes of a file against the signature its extension calls for:
/// `Ok` exactly when they match, `FormatMismatch` otherwise.
pub fn validate_file_magic(ext: &str, header: &[u8]) -> (r: Result<SourceFormat, ConvertError>)
    ensures
        header_matches(source_format_of_lower(lower_of(ext@)), header@) ==> r == Ok::<
            SourceFormat,
            ConvertError,
        >(source_format_of_lower(lower_of(ext@))),
        !header_matches(source_format_of_lower(lower_of(ext@)), header@) ==> r == Err::<
            SourceFormat,
            ConvertError,
        >(ConvertError::FormatMismatch),
{
    let f = source_format_of_extension(ext);
    if header_matches_format(f, header) {
        Ok(f)
    } else {
        Err(ConvertError::FormatMismatch)
    }
}

/// The checks that run before any decoding: the signature first, then the size ceiling.
pub open spec fn admitted(f: SourceFormat, header: Seq<u8>, size: u64) -> Result<
    SourceFormat,
    ConvertError,
> {
    if !header_matches(f, header) {
        Err(ConvertError::FormatMismatch)
    } else if size > MAX_FILE_SIZE {
        Err(ConvertError::FileTooLarge)
    } else {
        Ok(f)
    }
}

/// Admits a file for conversion: its header must carry the signature its extension calls for
/// (else `FormatMismatch`), then its size must not exceed the ceiling (else `FileTooLarge`).
pub fn check_input(ext: &str, header: &[u8], file_size: u64) -> (r: Result<
    SourceFormat,
    ConvertError,
>)
    ensures
        r == admitted(source_format_of_lower(lower_of(ext@)), header@, file_size),
{
    let f = validate_file_magic(ext, header)?;
    if file_size > MAX_FILE_SIZE {
        return Err(ConvertError::FileTooLarge);
    }
    Ok(f)
}

/// Admits a file whose lower-cased extension names `f`; see `check_input`.
pub fn check_input_of(f: SourceFormat, header: &[u8], file_size: u64) -> (r: Result<
    SourceFormat,
    ConvertError,
>)
    ensures
        r == admitted(f, header@, file_size),
{
    if !header_matches_format(f, header) {
        return Err(ConvertError::FormatMismatch);
    }
    if file_size > MAX_FILE_SIZE {
        return Err(ConvertError::FileTooLarge);
    }
    Ok(f)
}

} // verus!
