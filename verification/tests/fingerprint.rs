use imagetool::fingerprint::encode62;
use imagetool::fingerprint::fingerprint_bytes;
use imagetool::fingerprint::missing_fingerprint;

#[test]
fn encode_zero_is_six_zero_characters() {
    assert_eq!(encode62(0), "000000");
}

#[test]
fn encode_known_values() {
    assert_eq!(encode62(61), "00000z");
    assert_eq!(encode62(62), "000010");
    assert_eq!(encode62(4294967295), "4gfFC3");
}

#[test]
fn missing_sentinel_is_six_zeros() {
    assert_eq!(missing_fingerprint(), "000000");
}

#[test]
fn fingerprint_is_six_characters() {
    let fp = fingerprint_bytes(5, b"hello");
    assert_eq!(fp.len(), 6);
    assert!(fp.chars().all(|c| c.is_ascii_alphanumeric()));
}

#[test]
fn fingerprint_is_deterministic() {
    let a = fingerprint_bytes(1234, b"some file content");
    let b = fingerprint_bytes(1234, b"some file content");
    assert_eq!(a, b);
}

#[test]
fn fingerprint_ignores_bytes_beyond_the_window() {
    // Same size, same first 256 KiB: the tail does not matter.
    let mut c1 = vec![7u8; 262144 + 512];
    let mut c2 = c1.clone();
    c2[262144 + 100] = 99;
    c1[262144 + 100] = 42;
    let size = c1.len() as u64;
    assert_eq!(fingerprint_bytes(size, &c1), fingerprint_bytes(size, &c2));
}

#[test]
fn fingerprint_depends_on_size() {
    let content = vec![7u8; 64];
    let a = fingerprint_bytes(64, &content);
    let b = fingerprint_bytes(65, &content);
    assert_ne!(a, b);
}

#[test]
fn fingerprint_depends_on_content_within_window() {
    let a = fingerprint_bytes(4, b"abcd");
    let b = fingerprint_bytes(4, b"abce");
    assert_ne!(a, b);
}

#[test]
fn fingerprint_same_for_equal_content_whatever_the_name() {
    // The fingerprint is a function of size and bytes alone; there
    // is no path or name anywhere in its inputs.
    let data = b"identical bytes".to_vec();
    assert_eq!(
        fingerprint_bytes(data.len() as u64, &data),
        fingerprint_bytes(data.len() as u64, &data.clone())
    );
}
