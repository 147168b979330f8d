//! Primitive big- and little-endian integer readers over a byte
//! buffer, with matching spec-level definitions. All offsets are
//! absolute indices into the buffer; callers prove bounds.

use vstd::prelude::*;

verus! {

/// Big-endian 16-bit value at offset `i`.
pub open spec fn be16(s: Seq<u8>, i: int) -> int {
    s[i] * 0x100 + s[i + 1]
}

/// Little-endian 16-bit value at offset `i`.
pub open spec fn le16(s: Seq<u8>, i: int) -> int {
    s[i + 1] * 0x100 + s[i]
}

/// Big-endian 32-bit value at offset `i`.
pub open spec fn be32(s: Seq<u8>, i: int) -> int {
    s[i] * 0x1000000 + s[i + 1] * 0x10000 + s[i + 2] * 0x100 + s[i + 3]
}

/// Little-endian 32-bit value at offset `i`.
pub open spec fn le32(s: Seq<u8>, i: int) -> int {
    s[i + 3] * 0x1000000 + s[i + 2] * 0x10000 + s[i + 1] * 0x100 + s[i]
}

/// 16-bit value at offset `i` in the byte order selected by `little`.
pub open spec fn e16(little: bool, s: Seq<u8>, i: int) -> int {
    if little {
        le16(s, i)
    } else {
        be16(s, i)
    }
}

/// 32-bit value at offset `i` in the byte order selected by `little`.
pub open spec fn e32(little: bool, s: Seq<u8>, i: int) -> int {
    if little {
        le32(s, i)
    } else {
        be32(s, i)
    }
}

pub fn read_be16(b: &[u8], i: usize) -> (r: u16)
    requires
        i + 2 <= b@.len(),
    ensures
        r == be16(b@, i as int),
{
    (b[i] as u16) * 0x100 + (b[i + 1] as u16)
}

pub fn read_e16(little: bool, b: &[u8], i: usize) -> (r: u16)
    requires
        i + 2 <= b@.len(),
    ensures
        r == e16(little, b@, i as int),
{
    let _n: usize = b.len();
    if little {
        (b[i + 1] as u16) * 0x100 + (b[i] as u16)
    } else {
        (b[i] as u16) * 0x100 + (b[i + 1] as u16)
    }
}

pub fn read_e32(little: bool, b: &[u8], i: usize) -> (r: u32)
    requires
        i + 4 <= b@.len(),
    ensures
        r == e32(little, b@, i as int),
{
    let _n: usize = b.len();
    if little {
        (b[i + 3] as u32) * 0x1000000 + (b[i + 2] as u32) * 0x10000 + (b[i + 1] as u32) * 0x100
            + (b[i] as u32)
    } else {
        (b[i] as u32) * 0x1000000 + (b[i + 1] as u32) * 0x10000 + (b[i + 2] as u32) * 0x100
            + (b[i + 3] as u32)
    }
}

} // verus!
