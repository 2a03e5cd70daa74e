//! Little-endian integer fields, as they appear inside packet payloads.
//!
//! Every multi-byte integer on the wire is little-endian. The spec functions
//! here give the value of a fixed number of bytes; the executable functions
//! read and write those bytes and are proved to match.

use vstd::prelude::*;

verus! {

/// Value of two bytes read little-endian.
pub open spec fn le16(b0: u8, b1: u8) -> nat {
    b0 as nat + 0x100 * (b1 as nat)
}

/// Value of three bytes read little-endian.
pub open spec fn le24(b0: u8, b1: u8, b2: u8) -> nat {
    b0 as nat + 0x100 * (b1 as nat) + 0x1_0000 * (b2 as nat)
}

/// Value of four bytes read little-endian.
pub open spec fn le32(b0: u8, b1: u8, b2: u8, b3: u8) -> nat {
    b0 as nat + 0x100 * (b1 as nat) + 0x1_0000 * (b2 as nat) + 0x100_0000 * (b3 as nat)
}

/// Value of eight bytes read little-endian.
pub open spec fn le64(b0: u8, b1: u8, b2: u8, b3: u8, b4: u8, b5: u8, b6: u8, b7: u8) -> nat {
    b0 as nat + 0x100 * (b1 as nat) + 0x1_0000 * (b2 as nat) + 0x100_0000 * (b3 as nat)
        + 0x1_0000_0000 * (b4 as nat) + 0x100_0000_0000 * (b5 as nat)
        + 0x1_0000_0000_0000 * (b6 as nat) + 0x100_0000_0000_0000 * (b7 as nat)
}

pub fn read_le16(b0: u8, b1: u8) -> (r: u16)
    ensures
        r == le16(b0, b1),
{
    b0 as u16 + 0x100 * (b1 as u16)
}

pub fn read_le24(b0: u8, b1: u8, b2: u8) -> (r: u32)
    ensures
        r == le24(b0, b1, b2),
{
    b0 as u32 + 0x100 * (b1 as u32) + 0x1_0000 * (b2 as u32)
}

pub fn read_le32(b0: u8, b1: u8, b2: u8, b3: u8) -> (r: u32)
    ensures
        r == le32(b0, b1, b2, b3),
{
    b0 as u32 + 0x100 * (b1 as u32) + 0x1_0000 * (b2 as u32) + 0x100_0000 * (b3 as u32)
}

pub fn read_le64(b0: u8, b1: u8, b2: u8, b3: u8, b4: u8, b5: u8, b6: u8, b7: u8) -> (r: u64)
    ensures
        r == le64(b0, b1, b2, b3, b4, b5, b6, b7),
{
    b0 as u64 + 0x100 * (b1 as u64) + 0x1_0000 * (b2 as u64) + 0x100_0000 * (b3 as u64)
        + 0x1_0000_0000 * (b4 as u64) + 0x100_0000_0000 * (b5 as u64)
        + 0x1_0000_0000_0000 * (b6 as u64) + 0x100_0000_0000_0000 * (b7 as u64)
}

/// Appends a copy of `bytes` to `buf`.
pub fn push_bytes(buf: &mut Vec<u8>, bytes: &[u8])
    ensures
        final(buf)@ == old(buf)@ + bytes@,
{
    let mut tail = vstd::slice::slice_to_vec(bytes);
    buf.append(&mut tail);
}

/// The two-byte little-endian encoding of a value below 2^16.
pub open spec fn le16_bytes(v: nat) -> Seq<u8>
    recommends
        v < 0x1_0000,
{
    seq![(v % 0x100) as u8, ((v / 0x100) % 0x100) as u8]
}

/// The three-byte little-endian encoding of a value below 2^24.
pub open spec fn le24_bytes(v: nat) -> Seq<u8>
    recommends
        v < 0x100_0000,
{
    seq![(v % 0x100) as u8, ((v / 0x100) % 0x100) as u8, ((v / 0x1_0000) % 0x100) as u8]
}

/// The four-byte little-endian encoding of a value below 2^32.
pub open spec fn le32_bytes(v: nat) -> Seq<u8>
    recommends
        v < 0x1_0000_0000,
{
    seq![
        (v % 0x100) as u8,
        ((v / 0x100) % 0x100) as u8,
        ((v / 0x1_0000) % 0x100) as u8,
        ((v / 0x100_0000) % 0x100) as u8,
    ]
}

/// The eight-byte little-endian encoding of a value below 2^64.
pub open spec fn le64_bytes(v: nat) -> Seq<u8>
    recommends
        v < 0x1_0000_0000_0000_0000,
{
    seq![
        (v % 0x100) as u8,
        ((v / 0x100) % 0x100) as u8,
        ((v / 0x1_0000) % 0x100) as u8,
        ((v / 0x100_0000) % 0x100) as u8,
        ((v / 0x1_0000_0000) % 0x100) as u8,
        ((v / 0x100_0000_0000) % 0x100) as u8,
        ((v / 0x1_0000_0000_0000) % 0x100) as u8,
        ((v / 0x100_0000_0000_0000) % 0x100) as u8,
    ]
}

pub fn push_le16(buf: &mut Vec<u8>, v: u16)
    ensures
        final(buf)@ == old(buf)@ + le16_bytes(v as nat),
{
    buf.push((v % 0x100) as u8);
    buf.push(((v / 0x100) % 0x100) as u8);
    assert(buf@ =~= old(buf)@ + le16_bytes(v as nat));
}

pub fn push_le24(buf: &mut Vec<u8>, v: u32)
    requires
        v < 0x100_0000,
    ensures
        final(buf)@ == old(buf)@ + le24_bytes(v as nat),
{
    buf.push((v % 0x100) as u8);
    buf.push(((v / 0x100) % 0x100) as u8);
    buf.push(((v / 0x1_0000) % 0x100) as u8);
    assert(buf@ =~= old(buf)@ + le24_bytes(v as nat));
}

pub fn push_le32(buf: &mut Vec<u8>, v: u32)
    ensures
        final(buf)@ == old(buf)@ + le32_bytes(v as nat),
{
    buf.push((v % 0x100) as u8);
    buf.push(((v / 0x100) % 0x100) as u8);
    buf.push(((v / 0x1_0000) % 0x100) as u8);
    buf.push(((v / 0x100_0000) % 0x100) as u8);
    assert(buf@ =~= old(buf)@ + le32_bytes(v as nat));
}

pub fn push_le64(buf: &mut Vec<u8>, v: u64)
    ensures
        final(buf)@ == old(buf)@ + le64_bytes(v as nat),
{
    buf.push((v % 0x100) as u8);
    buf.push(((v / 0x100) % 0x100) as u8);
    buf.push(((v / 0x1_0000) % 0x100) as u8);
    buf.push(((v / 0x100_0000) % 0x100) as u8);
    buf.push(((v / 0x1_0000_0000) % 0x100) as u8);
    buf.push(((v / 0x100_0000_0000) % 0x100) as u8);
    buf.push(((v / 0x1_0000_0000_0000) % 0x100) as u8);
    buf.push(((v / 0x100_0000_0000_0000) % 0x100) as u8);
    assert(buf@ =~= old(buf)@ + le64_bytes(v as nat));
}

/// Reading back the two-byte encoding gives the value back.
pub proof fn lemma_le16_roundtrip(v: nat)
    requires
        v < 0x1_0000,
    ensures
        le16(le16_bytes(v)[0], le16_bytes(v)[1]) == v,
{
    assert(v % 0x100 + 0x100 * ((v / 0x100) % 0x100) == v) by (nonlinear_arith)
        requires
            v < 0x1_0000,
    ;
}

/// Reading back the three-byte encoding gives the value back.
pub proof fn lemma_le24_roundtrip(v: nat)
    requires
        v < 0x100_0000,
    ensures
        le24(le24_bytes(v)[0], le24_bytes(v)[1], le24_bytes(v)[2]) == v,
{
    assert(v % 0x100 + 0x100 * ((v / 0x100) % 0x100) + 0x1_0000 * ((v / 0x1_0000) % 0x100) == v)
        by (nonlinear_arith)
        requires
            v < 0x100_0000,
    ;
}

/// Reading back the four-byte encoding gives the value back.
pub proof fn lemma_le32_roundtrip(v: nat)
    requires
        v < 0x1_0000_0000,
    ensures
        le32(le32_bytes(v)[0], le32_bytes(v)[1], le32_bytes(v)[2], le32_bytes(v)[3]) == v,
{
    let x = v as u32;
    assert(x % 0x100 + 0x100 * ((x / 0x100) % 0x100) + 0x1_0000 * ((x / 0x1_0000) % 0x100)
        + 0x100_0000 * ((x / 0x100_0000) % 0x100) == x) by (bit_vector);
}

/// Reading back the eight-byte encoding gives the value back.
pub proof fn lemma_le64_roundtrip(v: nat)
    requires
        v < 0x1_0000_0000_0000_0000,
    ensures
        le64(
            le64_bytes(v)[0],
            le64_bytes(v)[1],
            le64_bytes(v)[2],
            le64_bytes(v)[3],
            le64_bytes(v)[4],
            le64_bytes(v)[5],
            le64_bytes(v)[6],
            le64_bytes(v)[7],
        ) == v,
{
    let x = v as u64;
    assert(x % 0x100 + 0x100 * ((x / 0x100) % 0x100) + 0x1_0000 * ((x / 0x1_0000) % 0x100)
        + 0x100_0000 * ((x / 0x100_0000) % 0x100) + 0x1_0000_0000 * ((x / 0x1_0000_0000) % 0x100)
        + 0x100_0000_0000 * ((x / 0x100_0000_0000) % 0x100)
        + 0x1_0000_0000_0000 * ((x / 0x1_0000_0000_0000) % 0x100)
        + 0x100_0000_0000_0000 * ((x / 0x100_0000_0000_0000) % 0x100) == x) by (bit_vector);
}

} // verus!
