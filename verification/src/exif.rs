//! EXIF resolution extraction: finds a JPEG APP1 segment tagged
//! "Exif\0\0", then walks the embedded TIFF structure (either byte
//! order) to read the XResolution rational (tag 0x011A) and the
//! ResolutionUnit short (tag 0x0128, 3 = per centimeter).

use vstd::prelude::*;
use crate::byteread::be16;
use crate::byteread::e16;
use crate::byteread::e32;
use crate::byteread::read_be16;
use crate::byteread::read_e16;
use crate::byteread::read_e32;

verus! {

/// Offset of the first directory entry with the given tag among the
/// `n` twelve-byte entries starting at `base`, if any.
pub open spec fn find_entry(little: bool, s: Seq<u8>, base: int, n: int, tag: int) -> Option<
    int,
>
    decreases n,
{
    if n <= 0 {
        None
    } else if e16(little, s, base) == tag {
        Some(base)
    } else {
        find_entry(little, s, base + 12, n - 1, tag)
    }
}

pub proof fn lemma_find_entry_bounds(little: bool, s: Seq<u8>, base: int, n: int, tag: int)
    requires
        find_entry(little, s, base, n, tag) is Some,
    ensures
        base <= find_entry(little, s, base, n, tag)->0,
        find_entry(little, s, base, n, tag)->0 + 12 <= base + 12 * n,
        e16(little, s, find_entry(little, s, base, n, tag)->0) == tag,
    decreases n,
{
    if n > 0 && e16(little, s, base) != tag {
        lemma_find_entry_bounds(little, s, base + 12, n - 1, tag);
    }
}

/// True when the directory holds a ResolutionUnit entry (tag 0x0128,
/// type SHORT) whose value is 3, i.e. pixels per centimeter.
pub open spec fn tiff_unit_is_cm(little: bool, s: Seq<u8>, base: int, n: int) -> bool {
    match find_entry(little, s, base, n, 0x0128) {
        None => false,
        Some(e) => e16(little, s, e + 2) == 3 && e16(little, s, e + 8) == 3,
    }
}

/// The X resolution read from a TIFF structure spanning `s[tb..te)`:
/// `Some((numerator, denominator, per_centimeter))` when the header,
/// the 0th IFD and an XResolution rational with nonzero parts are all
/// present and in bounds.
pub open spec fn tiff_resolution(s: Seq<u8>, tb: int, te: int) -> Option<(int, int, bool)> {
    let little = s[tb] == 0x49 && s[tb + 1] == 0x49;
    let big = s[tb] == 0x4D && s[tb + 1] == 0x4D;
    let off = e32(little, s, tb + 4);
    let n = e16(little, s, tb + off);
    let base = tb + off + 2;
    if te - tb < 8 {
        None
    } else if !little && !big {
        None
    } else if e16(little, s, tb + 2) != 42 {
        None
    } else if off + 2 + 12 * n > te - tb {
        None
    } else {
        match find_entry(little, s, base, n, 0x011A) {
            None => None,
            Some(e) => {
                let voff = e32(little, s, e + 8);
                let num = e32(little, s, tb + voff);
                let den = e32(little, s, tb + voff + 4);
                if e16(little, s, e + 2) != 5 || e32(little, s, e + 4) < 1 {
                    None
                } else if voff + 8 > te - tb {
                    None
                } else if num < 1 || den < 1 {
                    None
                } else {
                    Some((num, den, tiff_unit_is_cm(little, s, base, n)))
                }
            },
        }
    }
}

/// Resolution carried by an APP1 payload at `p` of length `m`: the
/// payload must open with "Exif\0\0" and embed a TIFF structure that
/// yields an X resolution.
pub open spec fn exif_payload_resolution(s: Seq<u8>, p: int, m: int) -> Option<(int, int, bool)> {
    if m >= 6 && s[p] == 0x45 && s[p + 1] == 0x78 && s[p + 2] == 0x69 && s[p + 3] == 0x66 && s[p
        + 4] == 0 && s[p + 5] == 0 {
        tiff_resolution(s, p + 6, p + m)
    } else {
        None
    }
}

/// Walk the marker segments of a JPEG stream from `pos`, returning
/// the first EXIF X resolution, or `None` once the start-of-scan
/// marker or the end of well-formed segments is reached.
pub open spec fn exif_scan(s: Seq<u8>, pos: int) -> Option<(int, int, bool)>
    decreases s.len() - pos,
{
    if pos < 0 || pos + 2 > s.len() {
        None
    } else if s[pos] != 0xFF {
        None
    } else if s[pos + 1] == 0xFF {
        exif_scan(s, pos + 1)
    } else if s[pos + 1] == 0xDA {
        None
    } else if s[pos + 1] == 0x01 || (0xD0 <= s[pos + 1] && s[pos + 1] <= 0xD9) {
        exif_scan(s, pos + 2)
    } else if pos + 4 > s.len() {
        None
    } else if be16(s, pos + 2) < 2 || pos + 2 + be16(s, pos + 2) > s.len() {
        None
    } else if s[pos + 1] == 0xE1 && exif_payload_resolution(s, pos + 4, be16(s, pos + 2) - 2)
        is Some {
        exif_payload_resolution(s, pos + 4, be16(s, pos + 2) - 2)
    } else {
        exif_scan(s, pos + 2 + be16(s, pos + 2))
    }
}

/// The result of the executable scanners, lifted to spec pairs.
pub open spec fn exif_opt(r: Option<(u32, u32, bool)>) -> Option<(int, int, bool)> {
    match r {
        Some((num, den, cm)) => Some((num as int, den as int, cm)),
        None => None,
    }
}

/// Find a directory entry by tag among `count` entries at `base`.
fn find_entry_exec(little: bool, b: &[u8], base: usize, count: usize, tag: u16) -> (r: Option<
    usize,
>)
    requires
        base + 12 * count <= b@.len(),
    ensures
        match r {
            Some(e) => find_entry(little, b@, base as int, count as int, tag as int) == Some(
                e as int,
            ) && base <= e && e + 12 <= base + 12 * count,
            None => find_entry(little, b@, base as int, count as int, tag as int) is None,
        },
{
    let _n: usize = b.len();
    let mut i: usize = 0;
    while i < count
        invariant
            i <= count,
            base + 12 * count <= b@.len(),
            b@.len() <= usize::MAX,
            find_entry(little, b@, base as int, count as int, tag as int) == find_entry(
                little,
                b@,
                base + 12 * i,
                count - i,
                tag as int,
            ),
        decreases count - i,
    {
        let e = base + 12 * i;
        if read_e16(little, b, e) == tag {
            return Some(e);
        }
        i = i + 1;
    }
    None
}

/// Parse the TIFF structure spanning `b[tb..te)` for an X resolution.
fn tiff_resolution_exec(b: &[u8], tb: usize, te: usize) -> (r: Option<(u32, u32, bool)>)
    requires
        tb <= te <= b@.len(),
    ensures
        exif_opt(r) == tiff_resolution(b@, tb as int, te as int),
        match r {
            Some((num, den, _)) => num >= 1 && den >= 1,
            None => true,
        },
{
    let avail = te - tb;
    if avail < 8 {
        return None;
    }
    let little = b[tb] == 0x49 && b[tb + 1] == 0x49;
    let big = b[tb] == 0x4D && b[tb + 1] == 0x4D;
    if !little && !big {
        return None;
    }
    if read_e16(little, b, tb + 2) != 42 {
        return None;
    }
    let off = read_e32(little, b, tb + 4);
    let count_pos = off as u64 + 2;
    if count_pos > avail as u64 {
        assert(e32(little, b@, tb + 4) + 2 + 12 * e16(little, b@, tb + e32(little, b@, tb + 4))
            > te - tb);
        return None;
    }
    let offu = off as usize;
    let n = read_e16(little, b, tb + offu) as usize;
    if off as u64 + 2 + 12 * (n as u64) > avail as u64 {
        return None;
    }
    let base = tb + offu + 2;
    let entry = find_entry_exec(little, b, base, n, 0x011A);
    match entry {
        None => None,
        Some(e) => {
            if read_e16(little, b, e + 2) != 5 || read_e32(little, b, e + 4) < 1 {
                return None;
            }
            let voff = read_e32(little, b, e + 8);
            if voff as u64 + 8 > avail as u64 {
                return None;
            }
            let voffu = voff as usize;
            let num = read_e32(little, b, tb + voffu);
            let den = read_e32(little, b, tb + voffu + 4);
            if num < 1 || den < 1 {
                return None;
            }
            let cm = match find_entry_exec(little, b, base, n, 0x0128) {
                None => false,
                Some(ue) => read_e16(little, b, ue + 2) == 3 && read_e16(little, b, ue + 8) == 3,
            };
            Some((num, den, cm))
        },
    }
}

/// Scan a whole byte stream for an EXIF X resolution.
pub fn scan_exif(b: &[u8]) -> (r: Option<(u32, u32, bool)>)
    ensures
        exif_opt(r) == exif_scan(b@, 0),
        match r {
            Some((num, den, _)) => num >= 1 && den >= 1,
            None => true,
        },
{
    let n: usize = b.len();
    let mut pos: usize = 0;
    loop
        invariant
            pos <= n,
            n == b@.len(),
            exif_scan(b@, 0) == exif_scan(b@, pos as int),
        decreases n - pos,
    {
        if n - pos < 2 {
            return None;
        }
        if b[pos] != 0xFF {
            return None;
        }
        let m = b[pos + 1];
        if m == 0xFF {
            pos = pos + 1;
        } else if m == 0xDA {
            return None;
        } else if m == 0x01 || (0xD0 <= m && m <= 0xD9) {
            pos = pos + 2;
        } else if n - pos < 4 {
            return None;
        } else {
            let l = read_be16(b, pos + 2) as usize;
            if l < 2 || l > n - pos - 2 {
                return None;
            }
            if m == 0xE1 && l >= 8 {
                let p = pos + 4;
                if b[p] == 0x45 && b[p + 1] == 0x78 && b[p + 2] == 0x69 && b[p + 3] == 0x66 && b[p
                    + 4] == 0 && b[p + 5] == 0 {
                    let res = tiff_resolution_exec(b, p + 6, pos + 2 + l);
                    if res.is_some() {
                        return res;
                    }
                }
            }
            proof {
                if b@[pos + 1] == 0xE1 {
                    assert(exif_payload_resolution(b@, pos + 4, l - 2) is None);
                }
            }
            pos = pos + 2 + l;
        }
    }
}

} // verus!
