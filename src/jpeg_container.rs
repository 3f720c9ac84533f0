//! JPEG container handling through img-parts: segments, the ICC profile, and re-insertion of an
//! EXIF blob.
use vstd::prelude::*;
use img_parts::jpeg::Jpeg;
use crate::exif_patch::{has_exif_marker, patch_orientation_in_place, patched_orientation};
use crate::metadata::opt_bytes;

verus! {

/// img-parts' parsed JPEG container, held opaque; its segments are reached through the
/// wrappers below.
#[verifier::external_type_specification]
#[verifier::external_body]
pub struct ExJpeg(img_parts::jpeg::Jpeg);

/// The segments of a parsed JPEG: marker, contents and entropy-coded data of each, in file
/// order.
pub uninterp spec fn jpeg_segments_view(j: Jpeg) -> Seq<(u8, Seq<u8>, Seq<u8>)>;

/// The segments `Jpeg::from_bytes` finds in a file, or `None` when it rejects the file.
pub uninterp spec fn jpeg_parse_of(b: Seq<u8>) -> Option<Seq<(u8, Seq<u8>, Seq<u8>)>>;

/// The profile `Jpeg::icc_profile` assembles from the segments.
pub uninterp spec fn jpeg_icc_of(s: Seq<(u8, Seq<u8>)>) -> Option<Seq<u8>>;

/// The segments after `Jpeg::set_icc_profile` with the given profile.
pub uninterp spec fn jpeg_with_icc_of(s: Seq<(u8, Seq<u8>, Seq<u8>)>, icc: Seq<u8>) -> Seq<
    (u8, Seq<u8>, Seq<u8>),
>;

/// Marker and contents of each segment.
pub open spec fn pairs_of(s: Seq<(u8, Seq<u8>, Seq<u8>)>) -> Seq<(u8, Seq<u8>)> {
    s.map_values(|t: (u8, Seq<u8>, Seq<u8>)| (t.0, t.1))
}

/// Whether each segment carries entropy-coded data.
pub open spec fn entropy_flags(s: Seq<(u8, Seq<u8>, Seq<u8>)>) -> Seq<bool> {
    s.map_values(|t: (u8, Seq<u8>, Seq<u8>)| t.2.len() > 0)
}

/// The marker is followed by a 16-bit length field in img-parts' encoding: RST0-7, APP0-15,
/// SOF0-15, SOS, COM, DQT and DRI.
pub open spec fn has_length_field(m: u8) -> bool {
    (0xD0 <= m <= 0xD7) || (0xE0 <= m <= 0xEF) || (0xC0 <= m <= 0xCF) || m == 0xDA || m == 0xFE
        || m == 0xDB || m == 0xDD
}

/// The bytes img-parts writes for one segment: `FF`, the marker, a big-endian 16-bit field
/// (the contents' length, plus two for markers with a length field), the contents, then the
/// entropy-coded data.
pub open spec fn segment_bytes(t: (u8, Seq<u8>, Seq<u8>)) -> Seq<u8> {
    let n: int = if has_length_field(t.0) {
        t.1.len() + 2int
    } else {
        t.1.len() as int
    };
    seq![0xFFu8, t.0, (n / 256) as u8, (n % 256) as u8] + t.1 + t.2
}

/// The bytes of the segments, one after the other.
pub open spec fn segments_bytes(s: Seq<(u8, Seq<u8>, Seq<u8>)>) -> Seq<u8>
    decreases s.len(),
{
    if s.len() == 0 {
        Seq::empty()
    } else {
        segment_bytes(s[0]) + segments_bytes(s.drop_first())
    }
}

/// The file img-parts writes for a container: the SOI marker `FF D8`, then every segment.
pub open spec fn jpeg_file_bytes(s: Seq<(u8, Seq<u8>, Seq<u8>)>) -> Seq<u8> {
    seq![0xFFu8, 0xD8u8] + segments_bytes(s)
}

/// Marker of the APP1 segment that carries EXIF.
pub const APP1: u8 = 0xE1;

/// Marker of the APP2 segment that carries ICC profile chunks.
pub const APP2: u8 = 0xE2;

/// Longest contents a segment with a 16-bit length field can hold.
pub const MAX_SEGMENT_CONTENTS: usize = 65533;

/// `s` begins with `p`.
pub open spec fn starts_with(s: Seq<u8>, p: Seq<u8>) -> bool {
    p.len() <= s.len() && s.subrange(0, p.len() as int) == p
}

/// The ASCII prefix `ICC_PROFILE\0` of an ICC chunk segment.
pub open spec fn icc_chunk_prefix() -> Seq<u8> {
    seq![0x49u8, 0x43u8, 0x43u8, 0x5Fu8, 0x50u8, 0x52u8, 0x4Fu8, 0x46u8, 0x49u8, 0x4Cu8, 0x45u8, 0u8]
}

/// The segment holds a chunk of an ICC profile.
pub open spec fn is_icc_segment(seg: (u8, Seq<u8>)) -> bool {
    seg.0 == APP2 && starts_with(seg.1, icc_chunk_prefix())
}

/// Every ICC chunk segment has the two sequence bytes after its prefix.
pub open spec fn icc_chunks_complete(s: Seq<(u8, Seq<u8>)>) -> bool {
    forall|i: int| 0 <= i < s.len() && is_icc_segment(#[trigger] s[i]) ==> s[i].1.len() >= 14
}

/// Number of segments that are not ICC chunks.
pub open spec fn non_icc_count(s: Seq<(u8, Seq<u8>)>) -> nat
    decreases s.len(),
{
    if s.len() == 0 {
        0
    } else {
        non_icc_count(s.drop_last()) + if is_icc_segment(s.last()) {
            0nat
        } else {
            1nat
        }
    }
}

/// Every segment's contents fit its 16-bit length field, and entropy-coded data only follows
/// non-empty contents (the layout img-parts writes back faithfully).
pub open spec fn segments_encodable(s: Seq<(u8, Seq<u8>, Seq<u8>)>) -> bool {
    forall|i: int|
        0 <= i < s.len() ==> (#[trigger] s[i]).1.len() <= MAX_SEGMENT_CONTENTS && (s[i].2.len() > 0
            ==> s[i].1.len() > 0)
}

/// Relies on `img_parts::jpeg::Jpeg::from_bytes`, which fails on a wrong signature or a
/// truncated file and otherwise lists the segments.
#[verifier::external_body]
pub(crate) fn parse_jpeg(b: &Vec<u8>) -> (r: Option<Jpeg>)
    ensures
        match r {
            Some(j) => jpeg_parse_of(b@) == Some(jpeg_segments_view(j)),
            None => jpeg_parse_of(b@) is None,
        },
{
    Jpeg::from_bytes(bytes::Bytes::from(b.clone())).ok()
}

/// Relies on `Jpeg::segments`, `JpegSegment::marker` and `JpegSegment::contents`.
#[verifier::external_body]
pub(crate) fn jpeg_segments(j: &Jpeg) -> (r: Vec<(u8, Vec<u8>)>)
    ensures
        r.deep_view() == pairs_of(jpeg_segments_view(*j)),
{
    j.segments().iter().map(|s| (s.marker(), s.contents().to_vec())).collect()
}

/// Relies on `Jpeg::segments` and `JpegSegment::has_entropy` (the entropy data is not empty).
#[verifier::external_body]
fn jpeg_entropy_flags(j: &Jpeg) -> (r: Vec<bool>)
    ensures
        r@ == entropy_flags(jpeg_segments_view(*j)),
{
    j.segments().iter().map(|s| s.has_entropy()).collect()
}

/// Relies on `img_parts::ImageICC::icc_profile` for `Jpeg`, which panics on an ICC chunk
/// segment shorter than its prefix and two sequence bytes.
#[verifier::external_body]
pub(crate) fn jpeg_icc_profile(j: &Jpeg) -> (r: Option<Vec<u8>>)
    requires
        icc_chunks_complete(pairs_of(jpeg_segments_view(*j))),
    ensures
        match r {
            Some(v) => jpeg_icc_of(pairs_of(jpeg_segments_view(*j))) == Some(v@),
            None => jpeg_icc_of(pairs_of(jpeg_segments_view(*j))) is None,
        },
{
    img_parts::ImageICC::icc_profile(j).map(|b| b.to_vec())
}

/// Relies on `img_parts::ImageICC::set_icc_profile` for `Jpeg`, which removes the ICC chunk
/// segments and inserts the new ones at index 3: it panics with fewer than three other segments
/// or on an ICC chunk segment shorter than its prefix and two sequence bytes.
#[verifier::external_body]
pub(crate) fn set_jpeg_icc_profile(j: &mut Jpeg, icc: &Vec<u8>)
    requires
        icc_chunks_complete(pairs_of(jpeg_segments_view(*old(j)))),
        non_icc_count(pairs_of(jpeg_segments_view(*old(j)))) >= 3,
    ensures
        jpeg_segments_view(*final(j)) == jpeg_with_icc_of(jpeg_segments_view(*old(j)), icc@),
{
    img_parts::ImageICC::set_icc_profile(j, Some(bytes::Bytes::from(icc.clone())));
}

/// Relies on `Vec::remove` over `Jpeg::segments_mut`.
#[verifier::external_body]
fn remove_jpeg_segment(j: &mut Jpeg, i: usize)
    requires
        i < jpeg_segments_view(*old(j)).len(),
    ensures
        jpeg_segments_view(*final(j)) == jpeg_segments_view(*old(j)).remove(i as int),
{
    j.segments_mut().remove(i);
}

/// Relies on `Vec::insert` over `Jpeg::segments_mut` and `JpegSegment::new_with_contents`.
#[verifier::external_body]
fn insert_jpeg_segment(j: &mut Jpeg, i: usize, marker: u8, contents: Vec<u8>)
    requires
        i <= jpeg_segments_view(*old(j)).len(),
    ensures
        jpeg_segments_view(*final(j)) == jpeg_segments_view(*old(j)).insert(
            i as int,
            (marker, contents@, Seq::<u8>::empty()),
        ),
{
    j.segments_mut().insert(i, img_parts::jpeg::JpegSegment::new_with_contents(marker, bytes::Bytes::from(contents)));
}

/// Relies on `Jpeg::encoder` and `ImageEncoder::bytes`, which write the SOI marker and then
/// every segment (`JpegSegment::encode_at`); a segment whose contents overflow its length field
/// panics.
#[verifier::external_body]
pub(crate) fn jpeg_to_bytes(j: Jpeg) -> (r: Vec<u8>)
    requires
        segments_encodable(jpeg_segments_view(j)),
    ensures
        r@ == jpeg_file_bytes(jpeg_segments_view(j)),
{
    j.encoder().bytes().to_vec()
}

/// The contents of the last segment that starts with the EXIF marker.
pub open spec fn last_exif_segment(s: Seq<(u8, Seq<u8>)>) -> Option<Seq<u8>>
    decreases s.len(),
{
    if s.len() == 0 {
        None
    } else if has_exif_marker(s.last().1) {
        Some(s.last().1)
    } else {
        last_exif_segment(s.drop_last())
    }
}

/// Whether `b` begins with `p`.
pub fn bytes_start_with(b: &Vec<u8>, p: &Vec<u8>) -> (r: bool)
    ensures
        r == starts_with(b@, p@),
{
    let n = p.len();
    if b.len() < n {
        return false;
    }
    let mut i: usize = 0;
    while i < n
        invariant
            n == p@.len(),
            n <= b@.len(),
            i <= n,
            forall|k: int| 0 <= k < i ==> b@[k] == p@[k],
        decreases n - i,
    {
        if b[i] != p[i] {
            assert(b@.subrange(0, n as int)[i as int] != p@[i as int]);
            return false;
        }
        i = i + 1;
    }
    assert(b@.subrange(0, n as int) =~= p@);
    true
}

/// The marker `Exif\0\0`.
pub fn exif_marker_bytes() -> (r: Vec<u8>)
    ensures
        r@ == crate::exif_patch::exif_marker(),
{
    let r = vec![0x45u8, 0x78u8, 0x69u8, 0x66u8, 0u8, 0u8];
    assert(r@ =~= crate::exif_patch::exif_marker());
    r
}

/// The prefix `ICC_PROFILE\0`.
fn icc_prefix_bytes() -> (r: Vec<u8>)
    ensures
        r@ == icc_chunk_prefix(),
{
    let r = vec![0x49u8, 0x43u8, 0x43u8, 0x5Fu8, 0x50u8, 0x52u8, 0x4Fu8, 0x46u8, 0x49u8, 0x4Cu8, 0x45u8, 0u8];
    assert(r@ =~= icc_chunk_prefix());
    r
}

/// Whether `b` starts with the EXIF marker.
pub fn has_exif_prefix(b: &Vec<u8>) -> (r: bool)
    ensures
        r == has_exif_marker(b@),
{
    let m = exif_marker_bytes();
    bytes_start_with(b, &m)
}

/// The contents of the last segment that starts with the EXIF marker.
pub fn find_last_exif_segment(segs: &Vec<(u8, Vec<u8>)>) -> (r: Option<Vec<u8>>)
    ensures
        match r {
            Some(v) => last_exif_segment(segs.deep_view()) == Some(v@),
            None => last_exif_segment(segs.deep_view()) is None,
        },
{
    let ghost s = segs.deep_view();
    let mut i: usize = segs.len();
    assert(s.subrange(0, i as int) =~= s);
    while i > 0
        invariant
            i <= segs@.len(),
            s.len() == segs@.len(),
            s == segs.deep_view(),
            last_exif_segment(s) == last_exif_segment(s.subrange(0, i as int)),
        decreases i,
    {
        let ghost pre = s.subrange(0, i as int);
        assert(pre.drop_last() =~= s.subrange(0, i - 1));
        assert(pre.last() == s[i - 1]);
        assert(segs[i - 1].1.deep_view() == segs[i - 1].1@);
        if has_exif_prefix(&segs[i - 1].1) {
            return Some(segs[i - 1].1.clone());
        }
        i = i - 1;
    }
    None
}

/// Whether every ICC chunk segment has its two sequence bytes.
pub(crate) fn icc_chunks_ok(segs: &Vec<(u8, Vec<u8>)>) -> (r: bool)
    ensures
        r == icc_chunks_complete(segs.deep_view()),
{
    let ghost s = segs.deep_view();
    let prefix = icc_prefix_bytes();
    let mut i: usize = 0;
    while i < segs.len()
        invariant
            i <= segs@.len(),
            s == segs.deep_view(),
            prefix@ == icc_chunk_prefix(),
            forall|k: int|
                0 <= k < i && is_icc_segment(#[trigger] s[k]) ==> s[k].1.len()
                    >= 14,
        decreases segs@.len() - i,
    {
        assert(s[i as int] == (segs@[i as int].0, segs@[i as int].1@));
        let is_icc = segs[i].0 == APP2 && bytes_start_with(
            &segs[i].1,
            &prefix,
        );
        if is_icc && segs[i].1.len() < 14 {
            return false;
        }
        i = i + 1;
    }
    true
}

/// Checks the conditions under which img-parts can replace the ICC profile without panicking.
fn icc_replaceable(segs: &Vec<(u8, Vec<u8>)>) -> (r: bool)
    ensures
        r == (icc_chunks_complete(segs.deep_view()) && non_icc_count(segs.deep_view()) >= 3),
{
    let ghost s = segs.deep_view();
    let prefix = icc_prefix_bytes();
    let mut count: usize = 0;
    let mut i: usize = 0;
    while i < segs.len()
        invariant
            i <= segs@.len(),
            s == segs.deep_view(),
            prefix@ == icc_chunk_prefix(),
            count == non_icc_count(s.subrange(0, i as int)),
            count <= i,
            icc_chunks_complete(s.subrange(0, i as int)),
        decreases segs@.len() - i,
    {
        let ghost pre = s.subrange(0, i + 1);
        assert(pre.drop_last() =~= s.subrange(0, i as int));
        assert(segs[i as int].1.deep_view() == segs[i as int].1@);
        let is_icc = segs[i].0 == APP2 && bytes_start_with(&segs[i].1, &prefix);
        assert(is_icc == is_icc_segment(pre.last()));
        if is_icc && segs[i].1.len() < 14 {
            assert(!icc_chunks_complete(s)) by {
                assert(is_icc_segment(s[i as int]));
            }
            return false;
        }
        if !is_icc {
            count = count + 1;
        }
        assert forall|k: int| 0 <= k < pre.len() && is_icc_segment(#[trigger] pre[k]) implies pre[k].1.len() >= 14 by {
            if k < i {
                assert(pre[k] == s.subrange(0, i as int)[k]);
            }
        }
        i = i + 1;
    }
    assert(s.subrange(0, i as int) =~= s);
    count >= 3
}

/// Whether img-parts can write the container back as it is.
fn container_encodable(j: &Jpeg) -> (r: bool)
    ensures
        r == segments_encodable(jpeg_segments_view(*j)),
{
    let ghost v = jpeg_segments_view(*j);
    let segs = jpeg_segments(j);
    let flags = jpeg_entropy_flags(j);
    assert(segs.deep_view().len() == segs@.len());
    let mut i: usize = 0;
    while i < segs.len()
        invariant
            i <= segs@.len(),
            v == jpeg_segments_view(*j),
            segs.deep_view() == pairs_of(v),
            flags@ == entropy_flags(v),
            segs@.len() == v.len(),
            forall|k: int|
                0 <= k < i ==> (#[trigger] v[k]).1.len() <= MAX_SEGMENT_CONTENTS && (v[k].2.len() > 0
                    ==> v[k].1.len() > 0),
        decreases segs@.len() - i,
    {
        assert(pairs_of(v)[i as int] == (v[i as int].0, v[i as int].1));
        assert(segs.deep_view()[i as int] == (segs@[i as int].0, segs@[i as int].1@));
        assert(flags@[i as int] == (v[i as int].2.len() > 0));
        assert(segs@[i as int].1.deep_view() == segs@[i as int].1@);
        if segs[i].1.len() > MAX_SEGMENT_CONTENTS || (flags[i] && segs[i].1.len() == 0) {
            assert(v[i as int].1 == segs@[i as int].1@);
            assert(!(v[i as int].1.len() <= MAX_SEGMENT_CONTENTS && (v[i as int].2.len() > 0
                ==> v[i as int].1.len() > 0)));
            assert(!segments_encodable(v));
            return false;
        }
        i = i + 1;
    }
    true
}

/// The segments without those whose contents start with the EXIF marker.
pub open spec fn without_exif(s: Seq<(u8, Seq<u8>, Seq<u8>)>) -> Seq<(u8, Seq<u8>, Seq<u8>)>
    decreases s.len(),
{
    if s.len() == 0 {
        s
    } else if has_exif_marker(s[0].1) {
        without_exif(s.drop_first())
    } else {
        seq![s[0]] + without_exif(s.drop_first())
    }
}

/// Removes every segment whose contents start with the EXIF marker.
fn remove_exif_segments(j: &mut Jpeg)
    ensures
        jpeg_segments_view(*final(j)) == without_exif(jpeg_segments_view(*old(j))),
{
    let ghost s = jpeg_segments_view(*j);
    let segs = jpeg_segments(j);
    assert(segs.deep_view().len() == segs@.len());
    let mut i: usize = segs.len();
    while i > 0
        invariant
            i <= s.len(),
            segs@.len() == s.len(),
            segs.deep_view() == pairs_of(s),
            jpeg_segments_view(*j) == s.subrange(0, i as int) + without_exif(s.subrange(i as int, s.len() as int)),
        decreases i,
    {
        let ghost tail = s.subrange(i - 1, s.len() as int);
        assert(tail.drop_first() =~= s.subrange(i as int, s.len() as int));
        assert(tail[0] == s[i - 1]);
        assert(segs[i - 1].1.deep_view() == segs[i - 1].1@);
        assert(pairs_of(s)[i - 1] == (s[i - 1].0, s[i - 1].1));
        let ghost before = jpeg_segments_view(*j);
        if has_exif_prefix(&segs[i - 1].1) {
            remove_jpeg_segment(j, i - 1);
            assert(jpeg_segments_view(*j) =~= s.subrange(0, i - 1) + without_exif(tail));
        } else {
            assert(before =~= s.subrange(0, i - 1) + without_exif(tail));
        }
        i = i - 1;
    }
    assert(s.subrange(0, s.len() as int) =~= s);
    assert(s.subrange(0, 0) + without_exif(s) =~= without_exif(s));
}

/// The segments of the re-encoded container: the canonical profile set, and, with a metadata
/// blob, every EXIF segment removed and the blob with its orientation normalized inserted first.
pub open spec fn embedded_segments(
    s: Seq<(u8, Seq<u8>, Seq<u8>)>,
    icc: Seq<u8>,
    exif: Option<Seq<u8>>,
) -> Seq<(u8, Seq<u8>, Seq<u8>)> {
    let t = if icc.len() > 0 {
        jpeg_with_icc_of(s, icc)
    } else {
        s
    };
    match exif {
        Some(e) => seq![(APP1, patched_orientation(e), Seq::<u8>::empty())] + without_exif(t),
        None => t,
    }
}

/// The container can take the profile: complete ICC chunks and at least three other segments
/// (nothing is asked when there is no profile to embed).
pub open spec fn icc_embeddable(s: Seq<(u8, Seq<u8>, Seq<u8>)>, icc: Seq<u8>) -> bool {
    icc.len() > 0 ==> icc_chunks_complete(pairs_of(s)) && non_icc_count(pairs_of(s)) >= 3
}

/// The bytes written for encoded JPEG `raw`: the re-encoded container with the profile and
/// metadata embedded, or `raw` itself when it does not parse, cannot take the profile, or could
/// not be written back.
pub open spec fn embedded_output(raw: Seq<u8>, icc: Seq<u8>, exif: Option<Seq<u8>>) -> Seq<u8> {
    match jpeg_parse_of(raw) {
        None => raw,
        Some(s) => if icc_embeddable(s, icc) && segments_encodable(embedded_segments(s, icc, exif)) {
            jpeg_file_bytes(embedded_segments(s, icc, exif))
        } else {
            raw
        },
    }
}

/// Re-parses encoded JPEG bytes and embeds the canonical profile (unless empty) and, if given,
/// the metadata blob (orientation normalized) as the first segment. `None` when the bytes do
/// not parse or the container cannot take the profile.
pub fn build_jpeg_container(raw: &Vec<u8>, icc: &Vec<u8>, exif: &Option<Vec<u8>>) -> (r: Option<Jpeg>)
    ensures
        match jpeg_parse_of(raw@) {
            None => r is None,
            Some(s) => if icc_embeddable(s, icc@) {
                r matches Some(j) && jpeg_segments_view(j) == embedded_segments(
                    s,
                    icc@,
                    opt_bytes(*exif),
                )
            } else {
                r is None
            },
        },
{
    let mut j = match parse_jpeg(raw) {
        Some(j) => j,
        None => return None,
    };
    if icc.len() > 0 {
        let segs = jpeg_segments(&j);
        if !icc_replaceable(&segs) {
            return None;
        }
        set_jpeg_icc_profile(&mut j, icc);
    }
    if let Some(e) = exif {
        let mut payload = e.clone();
        patch_orientation_in_place(&mut payload);
        remove_exif_segments(&mut j);
        insert_jpeg_segment(&mut j, 0, APP1, payload);
    }
    Some(j)
}

/// Re-encoded JPEG bytes carrying the canonical profile and the metadata blob; the raw bytes
/// unchanged when the container cannot be re-parsed, cannot take the profile, or a segment
/// would overflow its length field.
pub fn embed_jpeg_metadata(raw: &Vec<u8>, icc: &Vec<u8>, exif: &Option<Vec<u8>>) -> (r: Vec<u8>)
    ensures
        r@ == embedded_output(raw@, icc@, opt_bytes(*exif)),
{
    match build_jpeg_container(raw, icc, exif) {
        Some(j) => {
            if container_encodable(&j) {
                jpeg_to_bytes(j)
            } else {
                raw.clone()
            }
        },
        None => raw.clone(),
    }
}

} // verus!
