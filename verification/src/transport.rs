//! Packet framing: the 4-byte header (3-byte little-endian payload length,
//! 1-byte sequence number) put in front of every payload, and the expected
//! sequence counter that both directions of one logical exchange share.
//!
//! The framer never touches a byte stream itself. The caller reads and
//! writes; the framer builds outgoing frames and validates incoming headers,
//! so that everything the protocol decides is verified here.

use vstd::prelude::*;

use crate::error::ClientError;
use crate::wire::{le24, le24_bytes, push_bytes, push_le24};

verus! {

/// The frame put on the wire for `payload` at sequence number `seq`.
pub open spec fn frame_bytes(payload: Seq<u8>, seq: u8) -> Seq<u8>
    recommends
        payload.len() < 0x100_0000,
{
    le24_bytes(payload.len()) + seq![seq] + payload
}

/// The sequence counter, incremented once per packet in either direction and
/// wrapping modulo 256.
pub struct PacketFramer {
    pub sequence: u8,
}

impl PacketFramer {
    /// A framer at the start of a logical exchange.
    pub fn new() -> (r: Self)
        ensures
            r.sequence == 0,
    {
        Self { sequence: 0 }
    }

    /// Restarts the counter: every logical exchange (the handshake, then
    /// each query) is numbered independently from 0.
    pub fn reset(&mut self)
        ensures
            final(self).sequence == 0,
    {
        self.sequence = 0;
    }

    /// Builds the frame for `payload` with the current sequence number and
    /// advances the counter. A payload that does not fit the 3-byte length
    /// field is rejected, and the counter does not move.
    pub fn frame_packet(&mut self, payload: &Vec<u8>) -> (r: Result<Vec<u8>, ClientError>)
        ensures
            payload@.len() < 0x100_0000 ==> (r matches Ok(f) && f@ == frame_bytes(
                payload@,
                old(self).sequence,
            ) && final(self).sequence == (old(self).sequence + 1) % 256),
            payload@.len() >= 0x100_0000 ==> r == Err::<Vec<u8>, ClientError>(
                ClientError::MalformedPacket,
            ) && *final(self) == *old(self),
    {
        if payload.len() >= 0x100_0000 {
            return Err(ClientError::MalformedPacket);
        }
        let mut frame: Vec<u8> = Vec::new();
        push_le24(&mut frame, payload.len() as u32);
        frame.push(self.sequence);
        push_bytes(&mut frame, payload.as_slice());
        self.sequence = if self.sequence == 255 {
            0
        } else {
            self.sequence + 1
        };
        assert(frame@ =~= frame_bytes(payload@, old(self).sequence));
        Ok(frame)
    }

    /// Validates a received 4-byte header. If the sequence byte equals the
    /// expected counter, returns the payload length the header declares and
    /// advances the counter; otherwise fails with a malformed-packet error
    /// and leaves the counter where it was.
    pub fn check_header(&mut self, header: &Vec<u8>) -> (r: Result<u32, ClientError>)
        ensures
            header@.len() == 4 && header@[3] == old(self).sequence ==> (r matches Ok(n) && n
                == le24(header@[0], header@[1], header@[2]) && final(self).sequence == (old(
                self,
            ).sequence + 1) % 256),
            header@.len() != 4 || header@[3] != old(self).sequence ==> r == Err::<
                u32,
                ClientError,
            >(ClientError::MalformedPacket) && *final(self) == *old(self),
    {
        if header.len() != 4 {
            return Err(ClientError::MalformedPacket);
        }
        if header[3] != self.sequence {
            return Err(ClientError::MalformedPacket);
        }
        let n = crate::wire::read_le24(header[0], header[1], header[2]);
        self.sequence = if self.sequence == 255 {
            0
        } else {
            self.sequence + 1
        };
        Ok(n)
    }
}

} // verus!
