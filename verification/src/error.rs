use vstd::prelude::*;

verus! {

/// How a protocol exchange can fail on the client side.
///
/// A well-formed `ERR` packet from the server is not represented here: it is
/// a successfully parsed response and is surfaced as a decoded value, not as
/// a client-side fault.
#[derive(Debug, Clone, Copy, PartialEq, Eq, Structural)]
pub enum ClientError {
    /// A packet whose bytes do not match the wire format: bad length or
    /// sequence number, truncated buffer, invalid UTF-8, an unrecognized
    /// length-encoding discriminant, or an unexpected header byte.
    MalformedPacket,
    /// A well-formed packet that is not allowed in the current state, or an
    /// unsupported protocol version.
    ProtocolViolation,
    /// A failure of the underlying byte stream. Never produced by the
    /// decoders in this crate; reserved for the code that drives them over
    /// a real connection.
    TransportFailure,
}

} // verus!
