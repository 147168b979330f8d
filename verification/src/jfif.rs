//! JFIF resolution extraction: a scan over JPEG marker segments that
//! stops at start-of-scan and reads the density unit and X-density
//! out of an APP0 segment whose payload begins with "JFIF\0".

use vstd::prelude::*;
use crate::byteread::be16;
use crate::byteread::read_be16;

verus! {

/// Density information read from a JFIF APP0 payload starting at `p`
/// with payload length `m`: `Some((unit, xdensity))` when the payload
/// carries the "JFIF\0" tag, a unit code of 1 (per inch) or 2 (per
/// centimeter), and a nonzero X-density. A zero density or an
/// unusable unit code yields `None` so the scan keeps looking.
pub open spec fn jfif_payload_resolution(s: Seq<u8>, p: int, m: int) -> Option<(int, int)> {
    if m >= 10 && s[p] == 0x4A && s[p + 1] == 0x46 && s[p + 2] == 0x49 && s[p + 3] == 0x46
        && s[p + 4] == 0 && (s[p + 7] == 1 || s[p + 7] == 2) && be16(s, p + 8) > 0 {
        Some((s[p + 7] as int, be16(s, p + 8)))
    } else {
        None
    }
}

/// Walk the marker segments of a JPEG stream from `pos`, returning
/// the first usable JFIF density, or `None` once the start-of-scan
/// marker (0xDA) or the end of well-formed segments is reached.
/// Stuffing bytes (0xFF) and the length-free markers (0x01 and
/// 0xD0..=0xD9) are skipped; every other segment is skipped by its
/// declared big-endian length plus the two marker bytes.
pub open spec fn jfif_scan(s: Seq<u8>, pos: int) -> Option<(int, int)>
    decreases s.len() - pos,
{
    if pos < 0 || pos + 2 > s.len() {
        None
    } else if s[pos] != 0xFF {
        None
    } else if s[pos + 1] == 0xFF {
        jfif_scan(s, pos + 1)
    } else if s[pos + 1] == 0xDA {
        None
    } else if s[pos + 1] == 0x01 || (0xD0 <= s[pos + 1] && s[pos + 1] <= 0xD9) {
        jfif_scan(s, pos + 2)
    } else if pos + 4 > s.len() {
        None
    } else if be16(s, pos + 2) < 2 || pos + 2 + be16(s, pos + 2) > s.len() {
        None
    } else if s[pos + 1] == 0xE0 && jfif_payload_resolution(s, pos + 4, be16(s, pos + 2) - 2)
        is Some {
        jfif_payload_resolution(s, pos + 4, be16(s, pos + 2) - 2)
    } else {
        jfif_scan(s, pos + 2 + be16(s, pos + 2))
    }
}

/// The result of `scan_jfif`, lifted to the spec-level pair.
pub open spec fn jfif_opt(r: Option<(u8, u16)>) -> Option<(int, int)> {
    match r {
        Some((u, d)) => Some((u as int, d as int)),
        None => None,
    }
}

/// Scan a whole byte stream for a JFIF density declaration.
pub fn scan_jfif(b: &[u8]) -> (r: Option<(u8, u16)>)
    ensures
        jfif_opt(r) == jfif_scan(b@, 0),
        match r {
            Some((u, d)) => (u == 1 || u == 2) && d > 0,
            None => true,
        },
{
    let n: usize = b.len();
    let mut pos: usize = 0;
    loop
        invariant
            pos <= n,
            n == b@.len(),
            jfif_scan(b@, 0) == jfif_scan(b@, pos as int),
        decreases n - pos,
    {
        if n - pos < 2 {
            return None;
        }
        if b[pos] != 0xFF {
            return None;
        }
        let m = b[pos + 1];
        if m == 0xFF {
            pos = pos + 1;
        } else if m == 0xDA {
            return None;
        } else if m == 0x01 || (0xD0 <= m && m <= 0xD9) {
            pos = pos + 2;
        } else if n - pos < 4 {
            return None;
        } else {
            let l = read_be16(b, pos + 2) as usize;
            if l < 2 || l > n - pos - 2 {
                return None;
            }
            if m == 0xE0 && l >= 12 {
                let p = pos + 4;
                if b[p] == 0x4A && b[p + 1] == 0x46 && b[p + 2] == 0x49 && b[p + 3] == 0x46
                    && b[p + 4] == 0 {
                    let unit = b[p + 7];
                    if unit == 1 || unit == 2 {
                        let density = read_be16(b, p + 8);
                        if density > 0 {
                            assert(jfif_payload_resolution(b@, p as int, l - 2) == Some((
                                unit as int,
                                density as int,
                            )));
                            return Some((unit, density));
                        }
                    }
                }
            }
            proof {
                if b@[pos + 1] == 0xE0 {
                    assert(jfif_payload_resolution(b@, pos + 4, l - 2) is None);
                }
            }
            pos = pos + 2 + l;
        }
    }
}

} // verus!
