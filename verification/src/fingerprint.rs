//! Content fingerprinting: a 32-bit rolling checksum seeded with the
//! little-endian bytes of the file size, fed with at most the first
//! 256 KiB of content, and rendered as a fixed six-character
//! identifier over the 62-character alphabet of digits, uppercase
//! and lowercase letters. Deterministic and collision-resistant for
//! practical batch sizes; not cryptographic.

use vstd::prelude::*;
use vstd::string::StrSliceExecFns;
use vstd::string::StringExecFns;

verus! {

/// How many leading content bytes the fingerprint reads.
pub const FINGERPRINT_WINDOW: u64 = 262144;

/// Initial state of the rolling checksum.
pub const CHECKSUM_INIT: u32 = 2166136261;

/// One step of the rolling checksum: mix a byte in, then multiply by
/// a fixed odd prime, wrapping at 32 bits.
pub open spec fn checksum_step(h: u32, b: u8) -> u32 {
    (((h ^ (b as u32)) as nat * 16777619nat) % 0x1_0000_0000nat) as u32
}

/// Checksum state after feeding the first `i` bytes of `s` into
/// state `init`.
pub open spec fn checksum_prefix(init: u32, s: Seq<u8>, i: int) -> u32
    decreases i,
{
    if i <= 0 {
        init
    } else {
        checksum_step(checksum_prefix(init, s, i - 1), s[i - 1])
    }
}

/// 256 to the power `i`.
pub open spec fn pow256(i: int) -> int
    decreases i,
{
    if i <= 0 {
        1
    } else {
        256 * pow256(i - 1)
    }
}

proof fn lemma_pow256_pos(i: int)
    ensures
        pow256(i) >= 1,
    decreases i,
{
    if i > 0 {
        lemma_pow256_pos(i - 1);
    }
}

/// The eight little-endian bytes of a 64-bit size.
pub open spec fn spec_le_bytes8(n: int) -> Seq<u8> {
    Seq::new(8, |i: int| ((n / pow256(i)) % 256) as u8)
}

/// How many content bytes take part: all of them, capped at the
/// fingerprint window.
pub open spec fn window_len(len: int) -> int {
    if len < FINGERPRINT_WINDOW {
        len
    } else {
        FINGERPRINT_WINDOW as int
    }
}

/// The finalized 32-bit checksum of a file with the given total size
/// and leading content bytes.
pub open spec fn spec_checksum(size: int, content: Seq<u8>) -> u32 {
    let seeded = checksum_prefix(CHECKSUM_INIT, spec_le_bytes8(size), 8);
    checksum_prefix(seeded, content, window_len(content.len() as int))
}

/// The 62-character alphabet: digits, then uppercase, then
/// lowercase.
pub open spec fn b62_alphabet() -> Seq<char> {
    "0123456789ABCDEFGHIJKLMNOPQRSTUVWXYZabcdefghijklmnopqrstuvwxyz"@
}

/// The alphabet character for a value in 0..62.
pub open spec fn b62_digit(d: int) -> char {
    b62_alphabet()[d]
}

/// A 32-bit value in exactly six base-62 digits, most significant
/// first; the value 0 renders as six zero characters.
pub open spec fn spec_encode62(v: int) -> Seq<char> {
    seq![
        b62_digit((v / 916132832) % 62),
        b62_digit((v / 14776336) % 62),
        b62_digit((v / 238328) % 62),
        b62_digit((v / 3844) % 62),
        b62_digit((v / 62) % 62),
        b62_digit(v % 62),
    ]
}

/// The fingerprint of a file: its checksum over size and leading
/// content, base-62 encoded to fixed width.
pub open spec fn spec_fingerprint(size: int, content: Seq<u8>) -> Seq<char> {
    spec_encode62(spec_checksum(size, content) as int)
}

/// One base-62 digit as a string slice.
fn b62_char_str(d: u32) -> (r: &'static str)
    requires
        d < 62,
    ensures
        r@ =~= seq![b62_digit(d as int)],
{
    let alphabet = "0123456789ABCDEFGHIJKLMNOPQRSTUVWXYZabcdefghijklmnopqrstuvwxyz";
    proof {
        reveal_strlit("0123456789ABCDEFGHIJKLMNOPQRSTUVWXYZabcdefghijklmnopqrstuvwxyz");
        assert(alphabet@.len() == 62);
        assert(vstd::string::is_ascii(alphabet));
    }
    let r = alphabet.substring_ascii(d as usize, d as usize + 1);
    proof {
        assert(r@ =~= seq![b62_digit(d as int)]);
    }
    r
}

/// Render a 32-bit checksum in the fixed six-character form.
pub fn encode62(v: u32) -> (r: String)
    ensures
        r@ == spec_encode62(v as int),
{
    let mut s = String::new();
    s.append(b62_char_str((v / 916132832) % 62));
    s.append(b62_char_str((v / 14776336) % 62));
    s.append(b62_char_str((v / 238328) % 62));
    s.append(b62_char_str((v / 3844) % 62));
    s.append(b62_char_str((v / 62) % 62));
    s.append(b62_char_str(v % 62));
    proof {
        assert(s@ =~= spec_encode62(v as int));
    }
    s
}

/// The little-endian bytes of the size, as fed into the checksum.
fn le_bytes8(n: u64) -> (r: Vec<u8>)
    ensures
        r@ == spec_le_bytes8(n as int),
{
    let mut out: Vec<u8> = Vec::new();
    let mut m: u64 = n;
    let mut i: usize = 0;
    while i < 8
        invariant
            i <= 8,
            out@.len() == i,
            m == n as int / pow256(i as int),
            forall|j: int| 0 <= j < i ==> out@[j] == ((n as int / pow256(j)) % 256) as u8,
        decreases 8 - i,
    {
        out.push((m % 256) as u8);
        proof {
            lemma_pow256_pos(i as int);
            vstd::arithmetic::div_mod::lemma_div_denominator(n as int, pow256(i as int), 256);
            assert(pow256(i as int) * 256 == 256 * pow256(i as int)) by (nonlinear_arith);
            assert(pow256(i + 1) == 256 * pow256(i as int));
        }
        m = m / 256;
        i = i + 1;
    }
    proof {
        assert(out@ =~= spec_le_bytes8(n as int));
    }
    out
}

/// Feed `count` bytes of `data` into checksum state `h`.
fn checksum_feed(h: u32, data: &[u8], count: usize) -> (r: u32)
    requires
        count <= data@.len(),
    ensures
        r == checksum_prefix(h, data@, count as int),
{
    let mut acc = h;
    let mut i: usize = 0;
    while i < count
        invariant
            i <= count,
            count <= data@.len(),
            acc == checksum_prefix(h, data@, i as int),
        decreases count - i,
    {
        acc = (acc ^ (data[i] as u32)).wrapping_mul(16777619);
        i = i + 1;
    }
    acc
}

/// Compute the fingerprint of a file from its total byte size and
/// its leading content bytes (at most the fingerprint window is
/// read; passing more is harmless, passing the whole file is
/// correct).
pub fn fingerprint_bytes(size: u64, content: &[u8]) -> (r: String)
    ensures
        r@ == spec_fingerprint(size as int, content@),
{
    let le = le_bytes8(size);
    let seeded = checksum_feed(CHECKSUM_INIT, le.as_slice(), 8);
    let n = content.len();
    let count: usize = if (n as u64) < FINGERPRINT_WINDOW {
        n
    } else {
        FINGERPRINT_WINDOW as usize
    };
    let sum = checksum_feed(seeded, content, count);
    encode62(sum)
}

/// The sentinel identifier used when a file cannot be read at all:
/// the encoding of the zero checksum, six zero characters.
pub fn missing_fingerprint() -> (r: String)
    ensures
        r@ == spec_encode62(0),
{
    encode62(0)
}

/// Law: the fingerprint is a pure function of the total size and the
/// first window of content. Two files with the same size whose
/// in-window content agrees fingerprint identically, whatever their
/// names, paths or trailing bytes.
pub proof fn lemma_fingerprint_depends_only_on_window(
    size: int,
    c1: Seq<u8>,
    c2: Seq<u8>,
)
    requires
        c1.take(window_len(c1.len() as int)) == c2.take(window_len(c2.len() as int)),
    ensures
        spec_fingerprint(size, c1) == spec_fingerprint(size, c2),
{
    let w1 = window_len(c1.len() as int);
    let w2 = window_len(c2.len() as int);
    assert(c1.take(w1).len() == w1);
    assert(c2.take(w2).len() == w2);
    let seeded = checksum_prefix(CHECKSUM_INIT, spec_le_bytes8(size), 8);
    lemma_checksum_prefix_take(seeded, c1, w1);
    lemma_checksum_prefix_take(seeded, c2, w2);
}

/// Feeding the first `i` bytes only reads the first `i` bytes.
proof fn lemma_checksum_prefix_take(init: u32, s: Seq<u8>, i: int)
    requires
        0 <= i <= s.len(),
    ensures
        checksum_prefix(init, s, i) == checksum_prefix(init, s.take(i), i),
    decreases i,
{
    if i > 0 {
        lemma_checksum_prefix_take(init, s, i - 1);
        lemma_checksum_prefix_take(init, s.take(i), i - 1);
        assert(s.take(i).take(i - 1) =~= s.take(i - 1));
        assert(s.take(i)[i - 1] == s[i - 1]);
    }
}

} // verus!
