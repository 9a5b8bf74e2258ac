//! Fixed-width integers read from byte buffers, in either byte order.

use vstd::prelude::*;

verus! {

/// Two bytes, most significant first.
pub open spec fn be16(b0: u8, b1: u8) -> nat {
    b0 as nat * 256 + b1 as nat
}

/// Four bytes, most significant first.
pub open spec fn be32(b0: u8, b1: u8, b2: u8, b3: u8) -> nat {
    b0 as nat * 16777216 + b1 as nat * 65536 + b2 as nat * 256 + b3 as nat
}

/// Eight bytes, most significant first.
pub open spec fn be64(b: Seq<u8>, p: int) -> nat {
    be32(b[p], b[p + 1], b[p + 2], b[p + 3]) * 4294967296 + be32(
        b[p + 4],
        b[p + 5],
        b[p + 6],
        b[p + 7],
    )
}

/// The 16-bit value at `p` in the given byte order.
pub open spec fn u16_at(b: Seq<u8>, p: int, little: bool) -> nat {
    if little {
        be16(b[p + 1], b[p])
    } else {
        be16(b[p], b[p + 1])
    }
}

/// The 32-bit value at `p` in the given byte order.
pub open spec fn u32_at(b: Seq<u8>, p: int, little: bool) -> nat {
    if little {
        be32(b[p + 3], b[p + 2], b[p + 1], b[p])
    } else {
        be32(b[p], b[p + 1], b[p + 2], b[p + 3])
    }
}

/// A 32-bit value read as two's complement.
pub open spec fn as_i32(v: nat) -> int {
    if v >= 2147483648 {
        v - 4294967296
    } else {
        v as int
    }
}

/// A 16-bit value read as two's complement.
pub open spec fn as_i16(v: nat) -> int {
    if v >= 32768 {
        v - 65536
    } else {
        v as int
    }
}

/// The 16-bit value at `p`.
pub fn read_u16(b: &[u8], p: usize, little: bool) -> (r: u16)
    requires
        p + 2 <= b.len(),
    ensures
        r == u16_at(b@, p as int, little),
{
    let (hi, lo) = if little { (b[p + 1], b[p]) } else { (b[p], b[p + 1]) };
    (hi as u16) * 256 + (lo as u16)
}

/// The 32-bit value at `p`.
pub fn read_u32(b: &[u8], p: usize, little: bool) -> (r: u32)
    requires
        p + 4 <= b.len(),
    ensures
        r == u32_at(b@, p as int, little),
{
    let (b0, b1, b2, b3) = if little {
        (b[p + 3], b[p + 2], b[p + 1], b[p])
    } else {
        (b[p], b[p + 1], b[p + 2], b[p + 3])
    };
    (b0 as u32) * 16777216 + (b1 as u32) * 65536 + (b2 as u32) * 256 + (b3 as u32)
}

/// The 64-bit big-endian value at `p`.
pub fn read_u64_be_at(b: &[u8], p: usize) -> (r: u64)
    requires
        p + 8 <= b.len(),
    ensures
        r == be64(b@, p as int),
{
    let hi = read_u32(b, p, false) as u64;
    let lo = read_u32(b, p + 4, false) as u64;
    assert(hi * 4294967296 + lo <= u64::MAX) by (nonlinear_arith)
        requires
            hi < 4294967296,
            lo < 4294967296,
    ;
    hi * 4294967296 + lo
}

/// The 32-bit value at `p` read as a signed integer.
pub fn read_i32(b: &[u8], p: usize, little: bool) -> (r: i32)
    requires
        p + 4 <= b.len(),
    ensures
        r == as_i32(u32_at(b@, p as int, little)),
{
    let v = read_u32(b, p, little);
    if v >= 2147483648 {
        (v as i64 - 4294967296) as i32
    } else {
        v as i32
    }
}

/// The 16-bit value at `p` read as a signed integer.
pub fn read_i16(b: &[u8], p: usize, little: bool) -> (r: i16)
    requires
        p + 2 <= b.len(),
    ensures
        r == as_i16(u16_at(b@, p as int, little)),
{
    let v = read_u16(b, p, little);
    if v >= 32768 {
        (v as i32 - 65536) as i16
    } else {
        v as i16
    }
}

} // verus!
