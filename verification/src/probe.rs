//! Resolution probing: EXIF first, then JFIF, then the fixed
//! print-industry default of 300 pixels per inch. The probe never
//! fails outward; a centimeter-based source value is normalized to
//! pixels per inch by the exact factor 2.54.

use vstd::prelude::*;
use crate::dpi::Dpi;
use crate::dpi::DEFAULT_DPI;
use crate::exif::exif_scan;
use crate::exif::scan_exif;
use crate::jfif::jfif_scan;
use crate::jfif::scan_jfif;

verus! {

/// The resolution that probing a byte stream yields: the EXIF
/// XResolution rational when present (times 254/100 when the EXIF
/// unit is centimeters), else the JFIF X-density (times 254/100 when
/// the JFIF density unit is centimeters), else 300.
pub open spec fn spec_probe_resolution(s: Seq<u8>) -> Dpi {
    match exif_scan(s, 0) {
        Some((num, den, cm)) => if cm {
            Dpi { num: (num * 254) as u64, den: (den * 100) as u64 }
        } else {
            Dpi { num: num as u64, den: den as u64 }
        },
        None => match jfif_scan(s, 0) {
            Some((u, d)) => if u == 2 {
                Dpi { num: (d * 254) as u64, den: 100 }
            } else {
                Dpi { num: d as u64, den: 1 }
            },
            None => Dpi { num: DEFAULT_DPI as u64, den: 1 },
        },
    }
}

/// Probe a raw image byte stream for its physical resolution.
/// Best-effort: always returns a usable, well-formed resolution.
pub fn probe_resolution(b: &[u8]) -> (r: Dpi)
    ensures
        r == spec_probe_resolution(b@),
        r.wf(),
{
    proof {
        lemma_scan_value_bounds(b@);
    }
    match scan_exif(b) {
        Some((num, den, cm)) => {
            if cm {
                Dpi { num: num as u64 * 254, den: den as u64 * 100 }
            } else {
                Dpi { num: num as u64, den: den as u64 }
            }
        },
        None => {
            match scan_jfif(b) {
                Some((u, d)) => {
                    if u == 2 {
                        Dpi { num: d as u64 * 254, den: 100 }
                    } else {
                        Dpi { num: d as u64, den: 1 }
                    }
                },
                None => Dpi { num: DEFAULT_DPI, den: 1 },
            }
        },
    }
}

/// The values a scan can yield are bounded by their wire width: an
/// EXIF rational part is a 32-bit value and a JFIF density a 16-bit
/// value, so the normalized resolution stays well-formed.
proof fn lemma_scan_value_bounds(s: Seq<u8>)
    ensures
        match exif_scan(s, 0) {
            Some((num, den, _)) => num <= 0xFFFFFFFF && den <= 0xFFFFFFFF,
            None => true,
        },
        match jfif_scan(s, 0) {
            Some((u, d)) => d <= 0xFFFF,
            None => true,
        },
{
    lemma_exif_scan_bounds(s, 0);
    lemma_jfif_scan_bounds(s, 0);
}

proof fn lemma_exif_scan_bounds(s: Seq<u8>, pos: int)
    ensures
        match exif_scan(s, pos) {
            Some((num, den, _)) => num <= 0xFFFFFFFF && den <= 0xFFFFFFFF,
            None => true,
        },
    decreases s.len() - pos,
{
    if pos < 0 || pos + 2 > s.len() {
    } else if s[pos] != 0xFF {
    } else if s[pos + 1] == 0xFF {
        lemma_exif_scan_bounds(s, pos + 1);
    } else if s[pos + 1] == 0xDA {
    } else if s[pos + 1] == 0x01 || (0xD0 <= s[pos + 1] && s[pos + 1] <= 0xD9) {
        lemma_exif_scan_bounds(s, pos + 2);
    } else if pos + 4 > s.len() {
    } else if crate::byteread::be16(s, pos + 2) < 2 || pos + 2 + crate::byteread::be16(s, pos + 2)
        > s.len() {
    } else if s[pos + 1] == 0xE1 && crate::exif::exif_payload_resolution(
        s,
        pos + 4,
        crate::byteread::be16(s, pos + 2) - 2,
    ) is Some {
    } else {
        lemma_exif_scan_bounds(s, pos + 2 + crate::byteread::be16(s, pos + 2));
    }
}

proof fn lemma_jfif_scan_bounds(s: Seq<u8>, pos: int)
    ensures
        match jfif_scan(s, pos) {
            Some((u, d)) => d <= 0xFFFF,
            None => true,
        },
    decreases s.len() - pos,
{
    if pos < 0 || pos + 2 > s.len() {
    } else if s[pos] != 0xFF {
    } else if s[pos + 1] == 0xFF {
        lemma_jfif_scan_bounds(s, pos + 1);
    } else if s[pos + 1] == 0xDA {
    } else if s[pos + 1] == 0x01 || (0xD0 <= s[pos + 1] && s[pos + 1] <= 0xD9) {
        lemma_jfif_scan_bounds(s, pos + 2);
    } else if pos + 4 > s.len() {
    } else if crate::byteread::be16(s, pos + 2) < 2 || pos + 2 + crate::byteread::be16(s, pos + 2)
        > s.len() {
    } else if s[pos + 1] == 0xE0 && crate::jfif::jfif_payload_resolution(
        s,
        pos + 4,
        crate::byteread::be16(s, pos + 2) - 2,
    ) is Some {
    } else {
        lemma_jfif_scan_bounds(s, pos + 2 + crate::byteread::be16(s, pos + 2));
    }
}

/// Law: for an EXIF source whose resolution unit is inches, the
/// probed resolution is exactly the raw rational value.
pub proof fn lemma_probe_exif_inches(s: Seq<u8>, num: int, den: int)
    requires
        exif_scan(s, 0) == Some((num, den, false)),
        1 <= num <= 0xFFFFFFFF,
        1 <= den <= 0xFFFFFFFF,
    ensures
        spec_probe_resolution(s).num == num,
        spec_probe_resolution(s).den == den,
{
}

/// Law: for an EXIF source whose resolution unit is centimeters, the
/// probed resolution is exactly the raw rational value times 2.54:
/// the numerator carries the factor 254 and the denominator 100.
pub proof fn lemma_probe_exif_centimeters(s: Seq<u8>, num: int, den: int)
    requires
        exif_scan(s, 0) == Some((num, den, true)),
        1 <= num <= 0xFFFFFFFF,
        1 <= den <= 0xFFFFFFFF,
    ensures
        spec_probe_resolution(s).num == num * 254,
        spec_probe_resolution(s).den == den * 100,
{
}

/// Law: with no EXIF resolution, a JFIF density-unit of 1 (per inch)
/// yields the raw density; a density-unit of 2 (per centimeter)
/// yields the raw density times 2.54.
pub proof fn lemma_probe_jfif(s: Seq<u8>, u: int, d: int)
    requires
        exif_scan(s, 0) is None,
        jfif_scan(s, 0) == Some((u, d)),
        1 <= d <= 0xFFFF,
        u == 1 || u == 2,
    ensures
        u == 1 ==> spec_probe_resolution(s).num == d && spec_probe_resolution(s).den == 1,
        u == 2 ==> spec_probe_resolution(s).num == d * 254 && spec_probe_resolution(s).den == 100,
{
}

/// Law: when neither EXIF nor JFIF yields a resolution, the probe
/// returns exactly 300 pixels per inch.
pub proof fn lemma_probe_default(s: Seq<u8>)
    requires
        exif_scan(s, 0) is None,
        jfif_scan(s, 0) is None,
    ensures
        spec_probe_resolution(s) == (Dpi { num: DEFAULT_DPI as u64, den: 1 }),
{
}

} // verus!
