use imagetool::probe::probe_resolution;
use imagetool::Dpi;

fn push_u16_be(v: &mut Vec<u8>, x: u16) {
    v.push((x >> 8) as u8);
    v.push((x & 0xFF) as u8);
}

fn push_u16_le(v: &mut Vec<u8>, x: u16) {
    v.push((x & 0xFF) as u8);
    v.push((x >> 8) as u8);
}

fn push_u32_le(v: &mut Vec<u8>, x: u32) {
    v.push((x & 0xFF) as u8);
    v.push(((x >> 8) & 0xFF) as u8);
    v.push(((x >> 16) & 0xFF) as u8);
    v.push(((x >> 24) & 0xFF) as u8);
}

/// A little-endian TIFF with an XResolution rational and optionally
/// a ResolutionUnit short (2 = inch, 3 = centimeter).
fn tiff_le(num: u32, den: u32, unit: Option<u16>) -> Vec<u8> {
    let n_entries: u16 = if unit.is_some() { 2 } else { 1 };
    let mut t = Vec::new();
    t.push(0x49);
    t.push(0x49);
    push_u16_le(&mut t, 42);
    push_u32_le(&mut t, 8); // IFD0 at offset 8
    push_u16_le(&mut t, n_entries);
    let rational_off: u32 = 8 + 2 + 12 * (n_entries as u32);
    // XResolution: tag 0x011A, type RATIONAL, count 1, offset
    push_u16_le(&mut t, 0x011A);
    push_u16_le(&mut t, 5);
    push_u32_le(&mut t, 1);
    push_u32_le(&mut t, rational_off);
    if let Some(u) = unit {
        // ResolutionUnit: tag 0x0128, type SHORT, count 1, value
        push_u16_le(&mut t, 0x0128);
        push_u16_le(&mut t, 3);
        push_u32_le(&mut t, 1);
        push_u16_le(&mut t, u);
        push_u16_le(&mut t, 0);
    }
    push_u32_le(&mut t, num);
    push_u32_le(&mut t, den);
    t
}

fn jpeg_with_exif(tiff: Vec<u8>) -> Vec<u8> {
    let mut j = vec![0xFF, 0xD8];
    let payload_len = 6 + tiff.len();
    j.push(0xFF);
    j.push(0xE1);
    push_u16_be(&mut j, (payload_len + 2) as u16);
    j.extend_from_slice(&[0x45, 0x78, 0x69, 0x66, 0x00, 0x00]); // "Exif\0\0"
    j.extend_from_slice(&tiff);
    j.push(0xFF);
    j.push(0xDA);
    j
}

fn jpeg_with_jfif(unit: u8, density: u16) -> Vec<u8> {
    let mut j = vec![0xFF, 0xD8];
    j.push(0xFF);
    j.push(0xE0);
    push_u16_be(&mut j, 16); // 14-byte payload + length bytes
    j.extend_from_slice(&[0x4A, 0x46, 0x49, 0x46, 0x00]); // "JFIF\0"
    j.push(0x01);
    j.push(0x02);
    j.push(unit);
    push_u16_be(&mut j, density);
    push_u16_be(&mut j, density);
    j.push(0x00);
    j.push(0x00);
    j.push(0xFF);
    j.push(0xDA);
    j
}

#[test]
fn exif_inches_is_raw_rational() {
    let bytes = jpeg_with_exif(tiff_le(72, 1, Some(2)));
    assert_eq!(probe_resolution(&bytes), Dpi { num: 72, den: 1 });
}

#[test]
fn exif_without_unit_defaults_to_inches() {
    let bytes = jpeg_with_exif(tiff_le(240, 1, None));
    assert_eq!(probe_resolution(&bytes), Dpi { num: 240, den: 1 });
}

#[test]
fn exif_fractional_rational_is_kept_exact() {
    let bytes = jpeg_with_exif(tiff_le(7200, 100, Some(2)));
    assert_eq!(probe_resolution(&bytes), Dpi { num: 7200, den: 100 });
}

#[test]
fn exif_centimeters_scales_by_254_over_100() {
    let bytes = jpeg_with_exif(tiff_le(118, 1, Some(3)));
    assert_eq!(probe_resolution(&bytes), Dpi { num: 118 * 254, den: 100 });
}

#[test]
fn jfif_inches_is_raw_density() {
    let bytes = jpeg_with_jfif(1, 72);
    assert_eq!(probe_resolution(&bytes), Dpi { num: 72, den: 1 });
}

#[test]
fn jfif_centimeters_scales_by_254_over_100() {
    let bytes = jpeg_with_jfif(2, 118);
    assert_eq!(probe_resolution(&bytes), Dpi { num: 118 * 254, den: 100 });
}

#[test]
fn jfif_zero_density_is_skipped() {
    // A zero density is not a usable answer: the scan keeps going,
    // finds nothing else, and the default applies.
    let bytes = jpeg_with_jfif(1, 0);
    assert_eq!(probe_resolution(&bytes), Dpi { num: 300, den: 1 });
}

#[test]
fn jfif_zero_density_then_later_segment_wins() {
    let mut first = jpeg_with_jfif(2, 0);
    // Drop the trailing SOS and splice in a second, valid APP0.
    first.truncate(first.len() - 2);
    let second = jpeg_with_jfif(1, 72);
    first.extend_from_slice(&second[2..]);
    assert_eq!(probe_resolution(&first), Dpi { num: 72, den: 1 });
}

#[test]
fn no_metadata_falls_back_to_300() {
    let bytes = vec![0xFF, 0xD8, 0xFF, 0xDA, 0x00, 0x01, 0x02];
    assert_eq!(probe_resolution(&bytes), Dpi { num: 300, den: 1 });
}

#[test]
fn garbage_falls_back_to_300() {
    let bytes = b"not an image at all".to_vec();
    assert_eq!(probe_resolution(&bytes), Dpi { num: 300, den: 1 });
}

#[test]
fn empty_falls_back_to_300() {
    let bytes: Vec<u8> = Vec::new();
    assert_eq!(probe_resolution(&bytes), Dpi { num: 300, den: 1 });
}

#[test]
fn exif_wins_over_jfif() {
    // Both an EXIF APP1 and a JFIF APP0 are present: EXIF is
    // consulted first.
    let mut j = vec![0xFF, 0xD8];
    let jfif = jpeg_with_jfif(1, 96);
    j.extend_from_slice(&jfif[2..jfif.len() - 2]);
    let exif = jpeg_with_exif(tiff_le(72, 1, Some(2)));
    j.extend_from_slice(&exif[2..]);
    assert_eq!(probe_resolution(&j), Dpi { num: 72, den: 1 });
}
