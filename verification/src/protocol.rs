//! The generic response packets: OK (success or end-of-rows) and ERR, and
//! the dispatch on the leading header byte that tells them apart.

use vstd::prelude::*;

use crate::command::{err_packet_at, ErrPacket};
use crate::error::ClientError;
use crate::utils::{decode_lenenc_integer, lenenc_int_at};

verus! {

/// The mathematical content of an OK packet.
pub struct OkView {
    pub header: u8,
    pub affected_rows: nat,
    pub last_insert_id: nat,
}

/// The OK packet parsed from `b`: a header byte that must be 0x00 (success)
/// or 0xFE (end of rows), then two length-encoded integers. Fields after the
/// last-insert id are ignored.
pub open spec fn ok_packet_at(b: Seq<u8>) -> Option<OkView> {
    if b.len() >= 1 && (b[0] == 0 || b[0] == 0xfe) {
        match lenenc_int_at(b, 1) {
            None => None,
            Some((affected_rows, n)) => match lenenc_int_at(b, 1 + n) {
                None => None,
                Some((last_insert_id, _)) => Some(
                    OkView { header: b[0], affected_rows, last_insert_id },
                ),
            },
        }
    } else {
        None
    }
}

/// A success (or end-of-rows) response from the server.
#[derive(Debug, PartialEq)]
pub struct OkPacket {
    pub header: u8,
    pub affected_rows: u64,
    pub last_insert_id: u64,
}

impl View for OkPacket {
    type V = OkView;

    open spec fn view(&self) -> OkView {
        OkView {
            header: self.header,
            affected_rows: self.affected_rows as nat,
            last_insert_id: self.last_insert_id as nat,
        }
    }
}

impl OkPacket {
    /// Decodes an OK packet, failing on a header byte other than 0x00 or
    /// 0xFE, or on malformed length-encoded integers.
    pub fn decode(pkt: Vec<u8>) -> (r: Result<Self, ClientError>)
        ensures
            r is Ok <==> ok_packet_at(pkt@) is Some,
            r matches Ok(p) ==> ok_packet_at(pkt@) == Some(p@),
            r matches Err(e) ==> e == ClientError::MalformedPacket,
    {
        if pkt.len() < 1 {
            return Err(ClientError::MalformedPacket);
        }
        let header = pkt[0];
        if header != 0x00 && header != 0xfe {
            return Err(ClientError::MalformedPacket);
        }
        let (affected_rows, consumed) = match decode_lenenc_integer(&pkt, 1) {
            Ok(v) => v,
            Err(e) => { return Err(e); },
        };
        let (last_insert_id, _) = match decode_lenenc_integer(&pkt, 1 + consumed) {
            Ok(v) => v,
            Err(e) => { return Err(e); },
        };
        Ok(Self { header, affected_rows, last_insert_id })
    }
}

/// A generic response, told apart by its leading byte: 0x00 or 0xFE is an OK
/// packet, 0xFF an ERR packet.
#[derive(Debug, PartialEq)]
pub enum ResponsePacket {
    Success(OkPacket),
    Failure(ErrPacket),
}

impl ResponsePacket {
    /// Dispatches on the header byte, then decodes the matching shape.
    pub fn decode(pkt: Vec<u8>) -> (r: Result<Self, ClientError>)
        ensures
            r is Ok <==> (pkt@.len() >= 1 && ((pkt@[0] == 0 || pkt@[0] == 0xfe) && ok_packet_at(
                pkt@,
            ) is Some || pkt@[0] == 0xff && err_packet_at(pkt@) is Some)),
            r matches Ok(p) ==> match p {
                ResponsePacket::Success(okp) => ok_packet_at(pkt@) == Some(okp@),
                ResponsePacket::Failure(ep) => err_packet_at(pkt@) == Some(ep@),
            },
            r matches Err(e) ==> e == ClientError::MalformedPacket,
    {
        if pkt.len() < 1 {
            return Err(ClientError::MalformedPacket);
        }
        let header = pkt[0];
        if header == 0x00 || header == 0xfe {
            match OkPacket::decode(pkt) {
                Ok(p) => Ok(Self::Success(p)),
                Err(e) => Err(e),
            }
        } else if header == 0xff {
            match ErrPacket::decode(pkt) {
                Ok(p) => Ok(Self::Failure(p)),
                Err(e) => Err(e),
            }
        } else {
            Err(ClientError::MalformedPacket)
        }
    }
}

} // verus!
