//! Big-endian integer encoding used by the wire protocol.
//!
//! Every length field on the wire is big-endian: the 2-byte prefix of a
//! frame, and the 8-byte filename-length and file-size fields carried
//! inside encrypted frames.

use vstd::prelude::*;

verus! {

/// The value of a 2-byte big-endian sequence.
pub open spec fn be16(s: Seq<u8>) -> int
    recommends
        s.len() == 2,
{
    s[0] * 0x100 + s[1]
}

/// The value of an 8-byte big-endian sequence.
pub open spec fn be64(s: Seq<u8>) -> int
    recommends
        s.len() == 8,
{
    s[0] * 0x100000000000000 + s[1] * 0x1000000000000 + s[2] * 0x10000000000 + s[3] * 0x100000000
        + s[4] * 0x1000000 + s[5] * 0x10000 + s[6] * 0x100 + s[7]
}

/// Encode a `u16` as its 2-byte big-endian representation.
pub fn u16_to_be(v: u16) -> (r: Vec<u8>)
    ensures
        r@.len() == 2,
        be16(r@) == v,
{
    let b0: u8 = (v >> 8) as u8;
    let b1: u8 = (v & 0xff) as u8;
    assert(b0 * 0x100 + b1 == v) by (bit_vector)
        requires
            b0 == (v >> 8) as u8 && b1 == (v & 0xff) as u8,
    ;
    let mut r: Vec<u8> = Vec::new();
    r.push(b0);
    r.push(b1);
    r
}

/// Decode a 2-byte big-endian representation into a `u16`.
pub fn be_to_u16(b: &[u8]) -> (r: u16)
    requires
        b@.len() == 2,
    ensures
        r == be16(b@),
{
    let b0 = b[0];
    let b1 = b[1];
    let r: u16 = ((b0 as u16) << 8) | (b1 as u16);
    assert(r == b0 * 0x100 + b1) by (bit_vector)
        requires
            r == ((b0 as u16) << 8) | (b1 as u16),
    ;
    r
}

/// Encode a `u64` as its 8-byte big-endian representation.
pub fn u64_to_be(v: u64) -> (r: Vec<u8>)
    ensures
        r@.len() == 8,
        be64(r@) == v,
{
    let b0: u8 = (v >> 56) as u8;
    let b1: u8 = ((v >> 48) & 0xff) as u8;
    let b2: u8 = ((v >> 40) & 0xff) as u8;
    let b3: u8 = ((v >> 32) & 0xff) as u8;
    let b4: u8 = ((v >> 24) & 0xff) as u8;
    let b5: u8 = ((v >> 16) & 0xff) as u8;
    let b6: u8 = ((v >> 8) & 0xff) as u8;
    let b7: u8 = (v & 0xff) as u8;
    assert(b0 * 0x100000000000000 + b1 * 0x1000000000000 + b2 * 0x10000000000 + b3 * 0x100000000
        + b4 * 0x1000000 + b5 * 0x10000 + b6 * 0x100 + b7 == v) by (bit_vector)
        requires
            b0 == (v >> 56) as u8 && b1 == ((v >> 48) & 0xff) as u8 && b2 == ((v >> 40)
                & 0xff) as u8 && b3 == ((v >> 32) & 0xff) as u8 && b4 == ((v >> 24) & 0xff) as u8
                && b5 == ((v >> 16) & 0xff) as u8 && b6 == ((v >> 8) & 0xff) as u8 && b7 == (v
                & 0xff) as u8,
    ;
    let mut r: Vec<u8> = Vec::new();
    r.push(b0);
    r.push(b1);
    r.push(b2);
    r.push(b3);
    r.push(b4);
    r.push(b5);
    r.push(b6);
    r.push(b7);
    r
}

/// Decode an 8-byte big-endian representation into a `u64`.
pub fn be_to_u64(b: &[u8]) -> (r: u64)
    requires
        b@.len() == 8,
    ensures
        r == be64(b@),
{
    let b0 = b[0];
    let b1 = b[1];
    let b2 = b[2];
    let b3 = b[3];
    let b4 = b[4];
    let b5 = b[5];
    let b6 = b[6];
    let b7 = b[7];
    let r: u64 = ((b0 as u64) << 56) | ((b1 as u64) << 48) | ((b2 as u64) << 40) | ((b3 as u64)
        << 32) | ((b4 as u64) << 24) | ((b5 as u64) << 16) | ((b6 as u64) << 8) | (b7 as u64);
    assert(r == b0 * 0x100000000000000 + b1 * 0x1000000000000 + b2 * 0x10000000000 + b3
        * 0x100000000 + b4 * 0x1000000 + b5 * 0x10000 + b6 * 0x100 + b7) by (bit_vector)
        requires
            r == ((b0 as u64) << 56) | ((b1 as u64) << 48) | ((b2 as u64) << 40) | ((b3 as u64)
                << 32) | ((b4 as u64) << 24) | ((b5 as u64) << 16) | ((b6 as u64) << 8) | (
            b7 as u64),
    ;
    r
}

/// Two 2-byte sequences with the same big-endian value are equal: a
/// length field on the wire has exactly one encoding.
pub proof fn lemma_be16_injective(a: Seq<u8>, b: Seq<u8>)
    requires
        a.len() == 2,
        b.len() == 2,
        be16(a) == be16(b),
    ensures
        a =~= b,
{
    assert(a[0] == b[0] && a[1] == b[1]) by (nonlinear_arith)
        requires
            a[0] * 0x100 + a[1] == b[0] * 0x100 + b[1],
            0 <= a[0] < 0x100 && 0 <= a[1] < 0x100,
            0 <= b[0] < 0x100 && 0 <= b[1] < 0x100,
    ;
}

/// Two 8-byte sequences with the same big-endian value are equal.
pub proof fn lemma_be64_injective(a: Seq<u8>, b: Seq<u8>)
    requires
        a.len() == 8,
        b.len() == 8,
        be64(a) == be64(b),
    ensures
        a =~= b,
{
    assert(a[0] == b[0] && a[1] == b[1] && a[2] == b[2] && a[3] == b[3] && a[4] == b[4] && a[5]
        == b[5] && a[6] == b[6] && a[7] == b[7]) by (nonlinear_arith)
        requires
            a[0] * 0x100000000000000 + a[1] * 0x1000000000000 + a[2] * 0x10000000000 + a[3]
                * 0x100000000 + a[4] * 0x1000000 + a[5] * 0x10000 + a[6] * 0x100 + a[7] == b[0]
                * 0x100000000000000 + b[1] * 0x1000000000000 + b[2] * 0x10000000000 + b[3]
                * 0x100000000 + b[4] * 0x1000000 + b[5] * 0x10000 + b[6] * 0x100 + b[7],
            0 <= a[0] < 0x100 && 0 <= a[1] < 0x100 && 0 <= a[2] < 0x100 && 0 <= a[3] < 0x100 && 0
                <= a[4] < 0x100 && 0 <= a[5] < 0x100 && 0 <= a[6] < 0x100 && 0 <= a[7] < 0x100,
            0 <= b[0] < 0x100 && 0 <= b[1] < 0x100 && 0 <= b[2] < 0x100 && 0 <= b[3] < 0x100 && 0
                <= b[4] < 0x100 && 0 <= b[5] < 0x100 && 0 <= b[6] < 0x100 && 0 <= b[7] < 0x100,
    ;
}

} // verus!
