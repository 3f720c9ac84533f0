//! Resetting the EXIF orientation tag inside a raw, marker-prefixed TIFF blob.
use vstd::prelude::*;

verus! {

/// Length of the ASCII marker `Exif\0\0` that starts every EXIF blob.
pub const EXIF_MARKER_LEN: usize = 6;

/// TIFF tag that holds the orientation.
pub const ORIENTATION_TAG: u16 = 0x0112;

/// Shortest blob the patcher looks into: the marker and a TIFF header of twelve bytes.
pub const MIN_PATCHABLE_LEN: usize = 18;

/// The marker `Exif\0\0`.
pub open spec fn exif_marker() -> Seq<u8> {
    seq![0x45u8, 0x78u8, 0x69u8, 0x66u8, 0u8, 0u8]
}

/// The blob begins with the EXIF marker.
pub open spec fn has_exif_marker(b: Seq<u8>) -> bool {
    b.len() >= 6 && b.subrange(0, 6) == exif_marker()
}

/// A 16-bit integer read at `at` in the given byte order.
pub open spec fn read_u16(t: Seq<u8>, at: int, le: bool) -> int {
    if le {
        t[at] + 256 * t[at + 1]
    } else {
        256 * t[at] + t[at + 1]
    }
}

/// A 32-bit integer read at `at` in the given byte order.
pub open spec fn read_u32(t: Seq<u8>, at: int, le: bool) -> int {
    if le {
        read_u16(t, at, true) + 65536 * read_u16(t, at + 2, true)
    } else {
        65536 * read_u16(t, at, false) + read_u16(t, at + 2, false)
    }
}

/// The TIFF structure is little-endian when it starts with `II`.
pub open spec fn tiff_is_le(t: Seq<u8>) -> bool {
    t[0] == 0x49 && t[1] == 0x49
}

/// Walks at most `remaining` twelve-byte directory entries from `pos`; the position of the
/// first whose tag is the orientation tag, or `None` when an entry would run past the end.
pub open spec fn scan_entries(t: Seq<u8>, le: bool, pos: int, remaining: nat) -> Option<int>
    decreases remaining,
{
    if remaining == 0 || pos + 12 > t.len() {
        None
    } else if read_u16(t, pos, le) == ORIENTATION_TAG as int {
        Some(pos)
    } else {
        scan_entries(t, le, pos + 12, (remaining - 1) as nat)
    }
}

/// Where, within the TIFF structure that follows the marker, the orientation entry of the first
/// directory starts; `None` for a blob that is too short, unmarked, truncated or has no such entry.
pub open spec fn orientation_entry(b: Seq<u8>) -> Option<int> {
    if !has_exif_marker(b) || b.len() < 18 {
        None
    } else {
        let t = b.subrange(6, b.len() as int);
        let le = tiff_is_le(t);
        let off = read_u32(t, 4, le);
        if off + 2 > t.len() {
            None
        } else {
            scan_entries(t, le, off + 2, read_u16(t, off, le) as nat)
        }
    }
}

/// The two value bytes that encode the integer 1 in the given byte order.
pub open spec fn one_bytes(le: bool) -> (u8, u8) {
    if le {
        (1u8, 0u8)
    } else {
        (0u8, 1u8)
    }
}

/// The blob with the value of its orientation entry set to 1, or the blob itself when it has
/// no reachable orientation entry.
pub open spec fn patched_orientation(b: Seq<u8>) -> Seq<u8> {
    match orientation_entry(b) {
        None => b,
        Some(pos) => {
            let le = tiff_is_le(b.subrange(6, b.len() as int));
            let at = 6 + pos + 8;
            b.update(at, one_bytes(le).0).update(at + 1, one_bytes(le).1)
        },
    }
}

/// The orientation entry, if reachable, already holds the value 1.
pub open spec fn orientation_is_normal(b: Seq<u8>) -> bool {
    match orientation_entry(b) {
        None => true,
        Some(pos) => {
            let le = tiff_is_le(b.subrange(6, b.len() as int));
            let at = 6 + pos + 8;
            b[at] == one_bytes(le).0 && b[at + 1] == one_bytes(le).1
        },
    }
}

/// Reads a 16-bit integer at `at` of `b`.
fn get_u16(b: &Vec<u8>, at: usize, le: bool) -> (r: u16)
    requires
        at + 1 < b@.len(),
    ensures
        r as int == read_u16(b@, at as int, le),
{
    let n = b.len();
    assert(at + 1 < n);
    let x0 = b[at] as u16;
    let x1 = b[at + 1] as u16;
    if le {
        x0 + 256 * x1
    } else {
        256 * x0 + x1
    }
}

/// Reads a 32-bit integer at `at` of `b`.
fn get_u32(b: &Vec<u8>, at: usize, le: bool) -> (r: u64)
    requires
        at + 3 < b@.len(),
    ensures
        r as int == read_u32(b@, at as int, le),
{
    let n = b.len();
    assert(at + 3 < n);
    let lo = get_u16(b, at, le) as u64;
    let hi = get_u16(b, at + 2, le) as u64;
    if le {
        lo + 65536 * hi
    } else {
        65536 * lo + hi
    }
}

proof fn lemma_read_shift(b: Seq<u8>, at: int, le: bool)
    requires
        6 <= at,
        at + 1 < b.len(),
    ensures
        read_u16(b, at, le) == read_u16(b.subrange(6, b.len() as int), at - 6, le),
{
}

/// Sets the EXIF orientation entry of the first image directory to 1 (normal), leaving every
/// other byte as it was; a blob that is too short, unmarked, truncated or without the entry is
/// left untouched.
pub fn patch_orientation_in_place(full_payload: &mut Vec<u8>)
    ensures
        final(full_payload)@ == patched_orientation(old(full_payload)@),
{
    let ghost b = full_payload@;
    let len = full_payload.len();
    if len < MIN_PATCHABLE_LEN {
        return ;
    }
    let mut i: usize = 0;
    while i < EXIF_MARKER_LEN
        invariant
            i <= 6,
            len == full_payload@.len(),
            len >= 18,
            full_payload@ == b,
            forall|j: int| 0 <= j < i ==> b[j] == exif_marker()[j],
        decreases 6 - i,
    {
        let expected: u8 = if i == 0 {
            0x45
        } else if i == 1 {
            0x78
        } else if i == 2 {
            0x69
        } else if i == 3 {
            0x66
        } else {
            0
        };
        if full_payload[i] != expected {
            proof {
                assert(!has_exif_marker(b)) by {
                    if has_exif_marker(b) {
                        assert(b.subrange(0, 6)[i as int] == b[i as int]);
                    }
                }
            }
            return ;
        }
        i = i + 1;
    }
    let ghost t = b.subrange(6, b.len() as int);
    assert(has_exif_marker(b)) by {
        assert(b.subrange(0, 6) =~= exif_marker());
    }
    let le = full_payload[6] == 0x49 && full_payload[7] == 0x49;
    assert(le == tiff_is_le(t));
    let tlen = (len - EXIF_MARKER_LEN) as u64;
    let offset = get_u32(full_payload, 10, le);
    proof {
        lemma_read_shift(b, 10, le);
        lemma_read_shift(b, 12, le);
    }
    assert(offset == read_u32(t, 4, le));
    if offset + 2 > tlen {
        return ;
    }
    let num_entries = get_u16(full_payload, offset as usize + 6, le);
    proof {
        lemma_read_shift(b, offset + 6, le);
    }
    let mut pos: u64 = offset + 2;
    let mut k: u16 = 0;
    while k < num_entries
        invariant
            full_payload@ == b,
            b == old(full_payload)@,
            len == b.len(),
            len >= 18,
            tlen + 6 == len,
            t == b.subrange(6, b.len() as int),
            tlen == t.len(),
            pos == offset + 2 + 12 * k,
            offset + 2 <= tlen,
            offset < 0x1_0000_0000,
            k <= num_entries,
            le == tiff_is_le(t),
            orientation_entry(b) == scan_entries(t, le, pos as int, (num_entries - k) as nat),
        decreases num_entries - k,
    {
        if pos + 12 > tlen {
            return ;
        }
        let tag = get_u16(full_payload, pos as usize + 6, le);
        proof {
            lemma_read_shift(b, pos + 6, le);
        }
        if tag == ORIENTATION_TAG {
            let at = pos as usize + 6 + 8;
            if le {
                full_payload.set(at, 1);
                full_payload.set(at + 1, 0);
            } else {
                full_payload.set(at, 0);
                full_payload.set(at + 1, 1);
            }
            return ;
        }
        pos = pos + 12;
        k = k + 1;
    }
}

proof fn lemma_scan_in_bounds(t: Seq<u8>, le: bool, pos: int, remaining: nat)
    ensures
        scan_entries(t, le, pos, remaining) matches Some(p) ==> pos <= p && p + 12 <= t.len(),
    decreases remaining,
{
    if remaining > 0 && pos + 12 <= t.len() && read_u16(t, pos, le) != ORIENTATION_TAG as int {
        lemma_scan_in_bounds(t, le, pos + 12, (remaining - 1) as nat);
    }
}

proof fn lemma_scan_ignores_value(
    t: Seq<u8>,
    le: bool,
    pos: int,
    remaining: nat,
    p: int,
    v0: u8,
    v1: u8,
)
    requires
        scan_entries(t, le, pos, remaining) == Some(p),
        0 <= pos,
    ensures
        scan_entries(t.update(p + 8, v0).update(p + 9, v1), le, pos, remaining) == Some(p),
    decreases remaining,
{
    lemma_scan_in_bounds(t, le, pos, remaining);
    let u = t.update(p + 8, v0).update(p + 9, v1);
    assert(u[pos] == t[pos] && u[pos + 1] == t[pos + 1]);
    if read_u16(t, pos, le) != ORIENTATION_TAG as int {
        lemma_scan_ignores_value(t, le, pos + 12, (remaining - 1) as nat, p, v0, v1);
    }
}

proof fn lemma_entry_in_bounds(b: Seq<u8>)
    ensures
        orientation_entry(b) matches Some(p) ==> 0 <= p && 6 + p + 12 <= b.len(),
{
    if has_exif_marker(b) && b.len() >= 18 {
        let t = b.subrange(6, b.len() as int);
        let le = tiff_is_le(t);
        let off = read_u32(t, 4, le);
        if off + 2 <= t.len() {
            lemma_scan_in_bounds(t, le, off + 2, read_u16(t, off, le) as nat);
        }
    }
}

/// Patching a blob whose orientation entry already reads 1 (or that has none) leaves it
/// byte-identical.
pub proof fn lemma_patch_of_normal_is_identity(b: Seq<u8>)
    requires
        orientation_is_normal(b),
    ensures
        patched_orientation(b) == b,
{
    lemma_entry_in_bounds(b);
    if let Some(pos) = orientation_entry(b) {
        assert(patched_orientation(b) =~= b);
    }
}

/// Patching is idempotent: a second patch changes nothing.
pub proof fn lemma_patch_idempotent(b: Seq<u8>)
    ensures
        patched_orientation(patched_orientation(b)) == patched_orientation(b),
        orientation_is_normal(patched_orientation(b)),
{
    lemma_entry_in_bounds(b);
    let c = patched_orientation(b);
    if let Some(p) = orientation_entry(b) {
        let t = b.subrange(6, b.len() as int);
        let le = tiff_is_le(t);
        let off = read_u32(t, 4, le);
        let (v0, v1) = one_bytes(le);
        let u = t.update(p + 8, v0).update(p + 9, v1);
        assert(c.subrange(6, c.len() as int) =~= u);
        assert(c.subrange(0, 6) =~= b.subrange(0, 6));
        assert(u[0] == t[0] && u[1] == t[1]);
        assert(forall|i: int| 4 <= i < 8 ==> u[i] == t[i]);
        lemma_scan_in_bounds(t, le, off + 2, read_u16(t, off, le) as nat);
        assert(u[off] == t[off] && u[off + 1] == t[off + 1]);
        lemma_scan_ignores_value(t, le, off + 2, read_u16(t, off, le) as nat, p, v0, v1);
        assert(orientation_entry(c) == Some(p));
        lemma_patch_of_normal_is_identity(c);
    }
}

/// A blob shorter than eighteen bytes is never altered.
pub proof fn lemma_short_blob_untouched(b: Seq<u8>)
    requires
        b.len() < 18,
    ensures
        patched_orientation(b) == b,
{
}

} // verus!
