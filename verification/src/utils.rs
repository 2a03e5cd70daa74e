//! The two variable-width primitives that every packet body uses.
//!
//! A length-encoded integer selects its width by a leading discriminant byte:
//! 0x00–0xFA encode the value directly in one byte, 0xFC prefixes two bytes,
//! 0xFD three bytes and 0xFE eight bytes, all little-endian. Any other
//! discriminant (0xFB, 0xFF) is a decode error. A length-encoded string is a
//! one-byte length followed by that many bytes of UTF-8.
//!
//! The spec functions `lenenc_int_at` and `lenenc_str_at` define the decoding
//! relation at a position in a buffer; the executable decoders are proved to
//! return exactly what they say, and to fail (rather than read past the end)
//! on truncated buffers.

use vstd::prelude::*;
use vstd::slice::{slice_subrange, slice_to_vec};
use vstd::utf8::{decode_utf8, encode_utf8, valid_utf8};

use crate::error::ClientError;
use crate::wire::{le16, le16_bytes, le24, le24_bytes, le64, le64_bytes, read_le16, read_le24,
    read_le64};

verus! {

/// The length-encoded integer starting at `pos` in `b`, with the number of
/// bytes it occupies, or `None` if the discriminant is unrecognized or the
/// buffer is too short.
pub open spec fn lenenc_int_at(b: Seq<u8>, pos: int) -> Option<(nat, int)> {
    if 0 <= pos < b.len() {
        let head = b[pos];
        if head <= 0xfa {
            Some((head as nat, 1int))
        } else if head == 0xfc {
            if pos + 3 <= b.len() {
                Some((le16(b[pos + 1], b[pos + 2]), 3int))
            } else {
                None
            }
        } else if head == 0xfd {
            if pos + 4 <= b.len() {
                Some((le24(b[pos + 1], b[pos + 2], b[pos + 3]), 4int))
            } else {
                None
            }
        } else if head == 0xfe {
            if pos + 9 <= b.len() {
                Some(
                    (
                        le64(
                            b[pos + 1],
                            b[pos + 2],
                            b[pos + 3],
                            b[pos + 4],
                            b[pos + 5],
                            b[pos + 6],
                            b[pos + 7],
                            b[pos + 8],
                        ),
                        9int,
                    ),
                )
            } else {
                None
            }
        } else {
            None
        }
    } else {
        None
    }
}

/// The raw bytes of the length-encoded string starting at `pos` in `b`, with
/// the number of bytes the whole field occupies, or `None` if the buffer is
/// too short.
pub open spec fn lenenc_bytes_at(b: Seq<u8>, pos: int) -> Option<(Seq<u8>, int)> {
    if 0 <= pos < b.len() {
        let n = b[pos] as int;
        if pos + 1 + n <= b.len() {
            Some((b.subrange(pos + 1, pos + 1 + n), n + 1))
        } else {
            None
        }
    } else {
        None
    }
}

/// The length-encoded string starting at `pos` in `b`, decoded as UTF-8, with
/// the number of bytes it occupies, or `None` if the buffer is too short or
/// the bytes are not valid UTF-8.
pub open spec fn lenenc_str_at(b: Seq<u8>, pos: int) -> Option<(Seq<char>, int)> {
    match lenenc_bytes_at(b, pos) {
        Some((bytes, n)) => if valid_utf8(bytes) {
            Some((decode_utf8(bytes), n))
        } else {
            None
        },
        None => None,
    }
}

/// Relies on `String::from_utf8`: it succeeds exactly on valid UTF-8 input
/// and then returns the string those bytes spell.
#[verifier::external_body]
pub(crate) fn bytes_to_string(bytes: Vec<u8>) -> (r: Option<String>)
    ensures
        r is Some <==> valid_utf8(bytes@),
        r matches Some(s) ==> s@ == decode_utf8(bytes@),
{
    String::from_utf8(bytes).ok()
}

/// Decodes the length-encoded integer at `pos`, returning the value and the
/// number of bytes consumed.
pub fn decode_lenenc_integer(pkt: &Vec<u8>, pos: usize) -> (r: Result<(u64, usize), ClientError>)
    ensures
        r is Ok <==> lenenc_int_at(pkt@, pos as int) is Some,
        r matches Ok((v, n)) ==> lenenc_int_at(pkt@, pos as int) == Some((v as nat, n as int)),
        r matches Err(e) ==> e == ClientError::MalformedPacket,
{
    if pos >= pkt.len() {
        return Err(ClientError::MalformedPacket);
    }
    let head = pkt[pos];
    if head <= 0xfa {
        Ok((head as u64, 1))
    } else if head == 0xfc {
        if pkt.len() - pos < 3 {
            return Err(ClientError::MalformedPacket);
        }
        Ok((read_le16(pkt[pos + 1], pkt[pos + 2]) as u64, 3))
    } else if head == 0xfd {
        if pkt.len() - pos < 4 {
            return Err(ClientError::MalformedPacket);
        }
        Ok((read_le24(pkt[pos + 1], pkt[pos + 2], pkt[pos + 3]) as u64, 4))
    } else if head == 0xfe {
        if pkt.len() - pos < 9 {
            return Err(ClientError::MalformedPacket);
        }
        Ok(
            (
                read_le64(
                    pkt[pos + 1],
                    pkt[pos + 2],
                    pkt[pos + 3],
                    pkt[pos + 4],
                    pkt[pos + 5],
                    pkt[pos + 6],
                    pkt[pos + 7],
                    pkt[pos + 8],
                ),
                9,
            ),
        )
    } else {
        Err(ClientError::MalformedPacket)
    }
}

/// Decodes the length-encoded string at `pos`, returning the string and the
/// number of bytes consumed.
pub fn decode_lenenc_string(pkt: &Vec<u8>, pos: usize) -> (r: Result<(String, usize), ClientError>)
    ensures
        r is Ok <==> lenenc_str_at(pkt@, pos as int) is Some,
        r matches Ok((s, n)) ==> lenenc_str_at(pkt@, pos as int) == Some((s@, n as int)),
        r matches Err(e) ==> e == ClientError::MalformedPacket,
{
    if pos >= pkt.len() {
        return Err(ClientError::MalformedPacket);
    }
    let head = pkt[pos] as usize;
    if pkt.len() - pos - 1 < head {
        return Err(ClientError::MalformedPacket);
    }
    let bytes = slice_to_vec(slice_subrange(pkt.as_slice(), pos + 1, pos + 1 + head));
    match bytes_to_string(bytes) {
        Some(s) => Ok((s, head + 1)),
        None => Err(ClientError::MalformedPacket),
    }
}

/// The canonical encoding of a length-encoded integer: the shortest of the
/// four recognized widths that holds the value.
pub open spec fn lenenc_int_bytes(v: nat) -> Seq<u8>
    recommends
        v < 0x1_0000_0000_0000_0000,
{
    if v <= 0xfa {
        seq![v as u8]
    } else if v < 0x1_0000 {
        seq![0xfcu8] + le16_bytes(v)
    } else if v < 0x100_0000 {
        seq![0xfdu8] + le24_bytes(v)
    } else {
        seq![0xfeu8] + le64_bytes(v)
    }
}

/// The encoding of a length-encoded string: a one-byte length, then the
/// string's UTF-8 bytes.
pub open spec fn lenenc_str_bytes(s: Seq<char>) -> Seq<u8>
    recommends
        encode_utf8(s).len() <= 255,
{
    seq![encode_utf8(s).len() as u8] + encode_utf8(s)
}

/// Appends the canonical length-encoded form of `v` to `buf`.
pub fn encode_lenenc_integer(buf: &mut Vec<u8>, v: u64)
    ensures
        final(buf)@ == old(buf)@ + lenenc_int_bytes(v as nat),
{
    if v <= 0xfa {
        buf.push(v as u8);
        assert(buf@ =~= old(buf)@ + lenenc_int_bytes(v as nat));
    } else if v < 0x1_0000 {
        buf.push(0xfc);
        crate::wire::push_le16(buf, v as u16);
        assert(buf@ =~= old(buf)@ + lenenc_int_bytes(v as nat));
    } else if v < 0x100_0000 {
        buf.push(0xfd);
        crate::wire::push_le24(buf, v as u32);
        assert(buf@ =~= old(buf)@ + lenenc_int_bytes(v as nat));
    } else {
        buf.push(0xfe);
        crate::wire::push_le64(buf, v);
        assert(buf@ =~= old(buf)@ + lenenc_int_bytes(v as nat));
    }
}

/// Appends the length-encoded form of `s` to `buf`. The one-byte length
/// prefix limits the string to 255 bytes of UTF-8.
pub fn encode_lenenc_string(buf: &mut Vec<u8>, s: &str)
    requires
        encode_utf8(s@).len() <= 255,
    ensures
        final(buf)@ == old(buf)@ + lenenc_str_bytes(s@),
{
    buf.push(s.len() as u8);
    crate::wire::push_bytes(buf, s.as_bytes());
    assert(buf@ =~= old(buf)@ + lenenc_str_bytes(s@));
}

/// Wherever the canonical encoding of `v` sits in a buffer, decoding at its
/// first byte yields `v` and consumes exactly the encoding.
pub proof fn lemma_parse_lenenc_int(b: Seq<u8>, pos: int, v: nat)
    requires
        v < 0x1_0000_0000_0000_0000,
        0 <= pos,
        pos + lenenc_int_bytes(v).len() <= b.len(),
        b.subrange(pos, pos + lenenc_int_bytes(v).len()) == lenenc_int_bytes(v),
    ensures
        lenenc_int_at(b, pos) == Some((v, lenenc_int_bytes(v).len() as int)),
{
    let e = lenenc_int_bytes(v);
    let sub = b.subrange(pos, pos + e.len() as int);
    if v <= 0xfa {
        assert(b[pos] == sub[0]);
    } else if v < 0x1_0000 {
        assert(b[pos] == sub[0] && b[pos + 1] == sub[1] && b[pos + 2] == sub[2]);
        crate::wire::lemma_le16_roundtrip(v);
    } else if v < 0x100_0000 {
        assert(b[pos] == sub[0] && b[pos + 1] == sub[1] && b[pos + 2] == sub[2] && b[pos + 3]
            == sub[3]);
        crate::wire::lemma_le24_roundtrip(v);
    } else {
        assert(b[pos] == sub[0] && b[pos + 1] == sub[1] && b[pos + 2] == sub[2] && b[pos + 3]
            == sub[3] && b[pos + 4] == sub[4] && b[pos + 5] == sub[5] && b[pos + 6] == sub[6] && b[
            pos + 7
        ] == sub[7] && b[pos + 8] == sub[8]);
        crate::wire::lemma_le64_roundtrip(v);
    }
}

/// Wherever the encoding of `s` sits in a buffer, decoding at its first byte
/// yields `s` and consumes exactly the encoding.
pub proof fn lemma_parse_lenenc_str(b: Seq<u8>, pos: int, s: Seq<char>)
    requires
        encode_utf8(s).len() <= 255,
        0 <= pos,
        pos + lenenc_str_bytes(s).len() <= b.len(),
        b.subrange(pos, pos + lenenc_str_bytes(s).len()) == lenenc_str_bytes(s),
    ensures
        lenenc_str_at(b, pos) == Some((s, lenenc_str_bytes(s).len() as int)),
{
    broadcast use vstd::utf8::encode_utf8_valid_utf8;
    broadcast use vstd::utf8::encode_utf8_decode_utf8;

    let e = lenenc_str_bytes(s);
    let sub = b.subrange(pos, pos + e.len() as int);
    let bytes = encode_utf8(s);
    assert(b[pos] == sub[0]);
    assert forall|i: int| 0 <= i < bytes.len() implies b.subrange(
        pos + 1,
        pos + 1 + bytes.len() as int,
    )[i] == bytes[i] by {
        assert(sub[i + 1] == bytes[i + 1 - 1]);
        assert(b[pos + 1 + i] == sub[i + 1]);
    }
    assert(b.subrange(pos + 1, pos + 1 + bytes.len() as int) =~= bytes);
}

/// A single byte in 0x00–0xFA decodes as itself, one byte long.
pub proof fn lemma_lenenc_integer_one_byte(n: u8)
    requires
        n <= 0xfa,
    ensures
        lenenc_int_at(seq![n], 0) == Some((n as nat, 1int)),
{
}

/// A 0xFC discriminant followed by the two-byte little-endian encoding of a
/// 16-bit value decodes as that value, three bytes long.
pub proof fn lemma_lenenc_integer_two_bytes(v: u16)
    ensures
        lenenc_int_at(seq![0xfcu8] + le16_bytes(v as nat), 0) == Some((v as nat, 3int)),
{
    let b = seq![0xfcu8] + le16_bytes(v as nat);
    assert(b[1] == le16_bytes(v as nat)[0] && b[2] == le16_bytes(v as nat)[1]);
    crate::wire::lemma_le16_roundtrip(v as nat);
}

/// A 0xFD discriminant followed by the three-byte little-endian encoding of a
/// 24-bit value decodes as that value, four bytes long.
pub proof fn lemma_lenenc_integer_three_bytes(v: u32)
    requires
        v < 0x100_0000,
    ensures
        lenenc_int_at(seq![0xfdu8] + le24_bytes(v as nat), 0) == Some((v as nat, 4int)),
{
    let b = seq![0xfdu8] + le24_bytes(v as nat);
    assert(b[1] == le24_bytes(v as nat)[0] && b[2] == le24_bytes(v as nat)[1] && b[3]
        == le24_bytes(v as nat)[2]);
    crate::wire::lemma_le24_roundtrip(v as nat);
}

/// A 0xFE discriminant followed by the eight-byte little-endian encoding of a
/// 64-bit value decodes as that value, nine bytes long.
pub proof fn lemma_lenenc_integer_eight_bytes(v: u64)
    ensures
        lenenc_int_at(seq![0xfeu8] + le64_bytes(v as nat), 0) == Some((v as nat, 9int)),
{
    let e = le64_bytes(v as nat);
    let b = seq![0xfeu8] + e;
    assert(b[1] == e[0] && b[2] == e[1] && b[3] == e[2] && b[4] == e[3] && b[5] == e[4] && b[6]
        == e[5] && b[7] == e[6] && b[8] == e[7]);
    crate::wire::lemma_le64_roundtrip(v as nat);
}

/// A one-byte length prefix followed by a string's UTF-8 bytes decodes as
/// that string, consuming the prefix and the bytes.
pub proof fn lemma_lenenc_string_roundtrip(s: Seq<char>)
    requires
        encode_utf8(s).len() <= 250,
    ensures
        lenenc_str_at(seq![encode_utf8(s).len() as u8] + encode_utf8(s), 0) == Some(
            (s, encode_utf8(s).len() + 1int),
        ),
{
    broadcast use vstd::utf8::encode_utf8_valid_utf8;
    broadcast use vstd::utf8::encode_utf8_decode_utf8;

    let bytes = encode_utf8(s);
    let b = seq![bytes.len() as u8] + bytes;
    assert(b.subrange(1, 1 + bytes.len() as int) =~= bytes);
}

} // verus!
