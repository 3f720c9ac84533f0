//! Extraction of the EXIF blob, the ICC profile and the orientation tag from a source file.
use vstd::prelude::*;
use crate::exif_patch::{exif_marker, has_exif_marker};
use crate::jpeg_container::{
    exif_marker_bytes, find_last_exif_segment, has_exif_prefix, icc_chunks_complete, icc_chunks_ok, jpeg_icc_of,
    jpeg_icc_profile, jpeg_parse_of, jpeg_segments, last_exif_segment, pairs_of, parse_jpeg,
};

verus! {

/// The chunks `img_parts::png::Png::from_bytes` finds (type and contents of each), or `None`
/// when it rejects the file.
pub uninterp spec fn png_chunks_of(b: Seq<u8>) -> Option<Seq<(Seq<u8>, Seq<u8>)>>;

/// For a file `img_parts::webp::WebP::from_bytes` accepts, what its `exif` accessor gives.
pub uninterp spec fn webp_exif_of(b: Seq<u8>) -> Option<Option<Seq<u8>>>;

/// For a file `img_parts::webp::WebP::from_bytes` accepts, what its `icc_profile` accessor gives.
pub uninterp spec fn webp_icc_of(b: Seq<u8>) -> Option<Option<Seq<u8>>>;

/// For a file whose header the `png` decoder reads, the ICC profile it reports.
pub uninterp spec fn png_icc_of(b: Seq<u8>) -> Option<Option<Seq<u8>>>;

/// The orientation value kamadak-exif reads from the primary image of a file, if any.
pub uninterp spec fn exif_orientation_of(b: Seq<u8>) -> Option<u32>;

/// The view of an optional byte vector.
pub open spec fn opt_bytes(o: Option<Vec<u8>>) -> Option<Seq<u8>> {
    match o {
        Some(v) => Some(v@),
        None => None,
    }
}

/// Relies on `img_parts::png::Png::from_bytes`, `Png::chunks`, `PngChunk::kind` and
/// `PngChunk::contents`.
#[verifier::external_body]
fn png_chunks(b: &Vec<u8>) -> (r: Option<Vec<(Vec<u8>, Vec<u8>)>>)
    ensures
        match r {
            Some(v) => png_chunks_of(b@) == Some(v.deep_view()),
            None => png_chunks_of(b@) is None,
        },
{
    let png = img_parts::png::Png::from_bytes(bytes::Bytes::from(b.clone())).ok()?;
    Some(png.chunks().iter().map(|c| (c.kind().to_vec(), c.contents().to_vec())).collect())
}

/// Relies on `img_parts::webp::WebP::from_bytes` and `img_parts::ImageEXIF::exif`.
#[verifier::external_body]
fn webp_exif(b: &Vec<u8>) -> (r: Option<Option<Vec<u8>>>)
    ensures
        match r {
            Some(e) => webp_exif_of(b@) == Some(opt_bytes(e)),
            None => webp_exif_of(b@) is None,
        },
{
    let webp = img_parts::webp::WebP::from_bytes(bytes::Bytes::from(b.clone())).ok()?;
    Some(img_parts::ImageEXIF::exif(&webp).map(|e| e.to_vec()))
}

/// Relies on `img_parts::webp::WebP::from_bytes` and `img_parts::ImageICC::icc_profile`.
#[verifier::external_body]
fn webp_icc(b: &Vec<u8>) -> (r: Option<Option<Vec<u8>>>)
    ensures
        match r {
            Some(e) => webp_icc_of(b@) == Some(opt_bytes(e)),
            None => webp_icc_of(b@) is None,
        },
{
    let webp = img_parts::webp::WebP::from_bytes(bytes::Bytes::from(b.clone())).ok()?;
    Some(img_parts::ImageICC::icc_profile(&webp).map(|e| e.to_vec()))
}

/// Relies on `png::Decoder::read_info` and the `icc_profile` field of `png::Info`.
#[verifier::external_body]
fn png_icc(b: &Vec<u8>) -> (r: Option<Option<Vec<u8>>>)
    ensures
        match r {
            Some(e) => png_icc_of(b@) == Some(opt_bytes(e)),
            None => png_icc_of(b@) is None,
        },
{
    let reader = png::Decoder::new(std::io::Cursor::new(b.as_slice())).read_info().ok()?;
    Some(reader.info().icc_profile.as_ref().map(|p| p.to_vec()))
}

/// Relies on `exif::Reader::read_from_container`, `Exif::get_field` for the orientation tag of
/// the primary image, and `Value::get_uint`.
#[verifier::external_body]
fn exif_orientation(b: &Vec<u8>) -> (r: Option<u32>)
    ensures
        r == exif_orientation_of(b@),
{
    let exif = exif::Reader::new().read_from_container(&mut std::io::Cursor::new(b.as_slice())).ok()?;
    exif.get_field(exif::Tag::Orientation, exif::In::PRIMARY)?.value.get_uint(0)
}

/// The blob with the EXIF marker put in front, unless it already starts with it.
pub open spec fn with_exif_marker(e: Seq<u8>) -> Seq<u8> {
    if has_exif_marker(e) {
        e
    } else {
        exif_marker() + e
    }
}

/// The chunk type `eXIf`.
pub open spec fn exif_chunk_type() -> Seq<u8> {
    seq![0x65u8, 0x58u8, 0x49u8, 0x66u8]
}

/// The contents of the last `eXIf` chunk.
pub open spec fn last_exif_chunk(c: Seq<(Seq<u8>, Seq<u8>)>) -> Option<Seq<u8>>
    decreases c.len(),
{
    if c.len() == 0 {
        None
    } else if c.last().0 == exif_chunk_type() {
        Some(c.last().1)
    } else {
        last_exif_chunk(c.drop_last())
    }
}

/// The EXIF blob of a file: tried as JPEG (the last segment that starts with the marker), then
/// WebP (its EXIF chunk), then PNG (the last `eXIf` chunk); the marker is put in front where
/// missing.
pub open spec fn extracted_metadata(b: Seq<u8>) -> Option<Seq<u8>> {
    match jpeg_parse_of(b) {
        Some(s) => last_exif_segment(pairs_of(s)),
        None => match webp_exif_of(b) {
            Some(e) => match e {
                Some(x) => Some(with_exif_marker(x)),
                None => None,
            },
            None => match png_chunks_of(b) {
                Some(c) => match last_exif_chunk(c) {
                    Some(x) => Some(with_exif_marker(x)),
                    None => None,
                },
                None => None,
            },
        },
    }
}

/// Puts the EXIF marker in front of a blob that lacks it.
pub fn prefix_exif_marker(e: Vec<u8>) -> (r: Vec<u8>)
    ensures
        r@ == with_exif_marker(e@),
{
    if has_exif_prefix(&e) {
        e
    } else {
        let mut buf = exif_marker_bytes();
        let mut rest = e;
        buf.append(&mut rest);
        buf
    }
}

/// Whether a chunk type is `eXIf`.
fn is_exif_chunk_type(kind: &Vec<u8>) -> (r: bool)
    ensures
        r == (kind@ == exif_chunk_type()),
{
    if kind.len() != 4 {
        return false;
    }
    let r = kind[0] == 0x65 && kind[1] == 0x58 && kind[2] == 0x49 && kind[3] == 0x66;
    if r {
        assert(kind@ =~= exif_chunk_type());
    }
    r
}

/// The contents of the last `eXIf` chunk.
fn find_last_exif_chunk(chunks: &Vec<(Vec<u8>, Vec<u8>)>) -> (r: Option<Vec<u8>>)
    ensures
        opt_bytes(r) == last_exif_chunk(chunks.deep_view()),
{
    let ghost c = chunks.deep_view();
    let mut i: usize = chunks.len();
    assert(c.subrange(0, i as int) =~= c);
    while i > 0
        invariant
            i <= chunks@.len(),
            c.len() == chunks@.len(),
            c == chunks.deep_view(),
            last_exif_chunk(c) == last_exif_chunk(c.subrange(0, i as int)),
        decreases i,
    {
        let ghost pre = c.subrange(0, i as int);
        assert(pre.drop_last() =~= c.subrange(0, i - 1));
        assert(pre.last() == c[i - 1]);
        assert(c[i - 1] == (chunks@[i - 1].0@, chunks@[i - 1].1@));
        if is_exif_chunk_type(&chunks[i - 1].0) {
            return Some(chunks[i - 1].1.clone());
        }
        i = i - 1;
    }
    None
}

/// Extracts the EXIF blob, marker first, from the bytes of a JPEG, WebP or PNG file.
pub fn extract_metadata(file_bytes: &Vec<u8>) -> (r: Option<Vec<u8>>)
    ensures
        opt_bytes(r) == extracted_metadata(file_bytes@),
{
    if let Some(jpeg) = parse_jpeg(file_bytes) {
        let segs = jpeg_segments(&jpeg);
        return find_last_exif_segment(&segs);
    }
    if let Some(e) = webp_exif(file_bytes) {
        return match e {
            Some(x) => Some(prefix_exif_marker(x)),
            None => None,
        };
    }
    if let Some(chunks) = png_chunks(file_bytes) {
        return match find_last_exif_chunk(&chunks) {
            Some(x) => Some(prefix_exif_marker(x)),
            None => None,
        };
    }
    None
}

/// A profile that is present and not empty.
pub open spec fn non_empty(p: Option<Seq<u8>>) -> bool {
    p matches Some(v) && v.len() > 0
}

/// The profile found in the JPEG container, if it parses with complete ICC chunks.
pub open spec fn jpeg_profile(b: Seq<u8>) -> Option<Seq<u8>> {
    match jpeg_parse_of(b) {
        Some(s) => if icc_chunks_complete(pairs_of(s)) {
            jpeg_icc_of(pairs_of(s))
        } else {
            None
        },
        None => None,
    }
}

/// The profile of a container accessor that reports one.
pub open spec fn reported(p: Option<Option<Seq<u8>>>) -> Option<Seq<u8>> {
    match p {
        Some(Some(v)) => Some(v),
        _ => None,
    }
}

/// The embedded ICC profile of a file: the first non-empty one of the JPEG profile chunks,
/// the PNG profile, and the WebP profile chunk.
pub open spec fn extracted_icc(b: Seq<u8>) -> Option<Seq<u8>> {
    if non_empty(jpeg_profile(b)) {
        jpeg_profile(b)
    } else if non_empty(reported(png_icc_of(b))) {
        reported(png_icc_of(b))
    } else if non_empty(reported(webp_icc_of(b))) {
        reported(webp_icc_of(b))
    } else {
        None
    }
}

fn jpeg_profile_of(b: &Vec<u8>) -> (r: Option<Vec<u8>>)
    ensures
        opt_bytes(r) == jpeg_profile(b@),
{
    let jpeg = parse_jpeg(b)?;
    let segs = jpeg_segments(&jpeg);
    if !icc_chunks_ok(&segs) {
        return None;
    }
    jpeg_icc_profile(&jpeg)
}

fn take_non_empty(p: Option<Vec<u8>>) -> (r: Option<Vec<u8>>)
    ensures
        opt_bytes(r) == if non_empty(opt_bytes(p)) {
            opt_bytes(p)
        } else {
            None
        },
{
    match p {
        Some(v) => if v.len() > 0 {
            Some(v)
        } else {
            None
        },
        None => None,
    }
}

fn flatten(p: Option<Option<Vec<u8>>>) -> (r: Option<Vec<u8>>)
    ensures
        opt_bytes(r) == reported(
            match p {
                Some(e) => Some(opt_bytes(e)),
                None => None,
            },
        ),
{
    match p {
        Some(Some(v)) => Some(v),
        _ => None,
    }
}

/// Extracts the embedded ICC profile from the bytes of a JPEG, PNG or WebP file.
pub fn extract_icc_profile(file_bytes: &Vec<u8>) -> (r: Option<Vec<u8>>)
    ensures
        opt_bytes(r) == extracted_icc(file_bytes@),
{
    if let Some(p) = take_non_empty(jpeg_profile_of(file_bytes)) {
        return Some(p);
    }
    if let Some(p) = take_non_empty(flatten(png_icc(file_bytes))) {
        return Some(p);
    }
    take_non_empty(flatten(webp_icc(file_bytes)))
}

/// The EXIF orientation of a file, 1 (normal) when absent or unreadable.
pub open spec fn orientation_of(b: Seq<u8>) -> u32 {
    match exif_orientation_of(b) {
        Some(v) => v,
        None => 1,
    }
}

/// Reads the EXIF orientation of a file, 1 (normal) when absent or unreadable.
pub fn read_orientation(file_bytes: &Vec<u8>) -> (r: u32)
    ensures
        r == orientation_of(file_bytes@),
{
    match exif_orientation(file_bytes) {
        Some(v) => v,
        None => 1,
    }
}

} // verus!
