//! A client-side implementation of the MySQL binary wire protocol: packet
//! framing, the handshake with native-password authentication, and the
//! encoders and decoders for text queries and their result sets.
//!
//! Networking itself (connecting, reading, writing) is left to the caller;
//! every function here works on plain byte buffers and is verified against
//! a specification of the wire format.

pub mod command;
pub mod error;
pub mod handshake;
pub mod protocol;
pub mod session;
pub mod transport;
pub mod utils;
pub mod wire;
