//! The connection handshake: the server's greeting packet, the
//! challenge-response password proof, and the client's response packet.

use vstd::prelude::*;
use vstd::slice::{slice_subrange, slice_to_vec};
use vstd::utf8::{decode_utf8, encode_utf8, valid_utf8};

use crate::error::ClientError;
use crate::utils::bytes_to_string;
use crate::wire::{le16, le32, le32_bytes, push_le32, read_le16, read_le32};

verus! {

/// Position of the first NUL byte at or after `pos`, if any.
pub open spec fn nul_pos(b: Seq<u8>, pos: int) -> Option<int>
    decreases b.len() - pos,
{
    if 0 <= pos < b.len() {
        if b[pos] == 0 {
            Some(pos)
        } else {
            nul_pos(b, pos + 1)
        }
    } else {
        None
    }
}

/// Finds the first NUL byte at or after `start`.
fn find_nul(pkt: &Vec<u8>, start: usize) -> (r: Option<usize>)
    ensures
        r is Some <==> nul_pos(pkt@, start as int) is Some,
        r matches Some(i) ==> nul_pos(pkt@, start as int) == Some(i as int) && start <= i
            < pkt@.len() && pkt@[i as int] == 0,
{
    let mut i: usize = start;
    while i < pkt.len()
        invariant
            start <= i,
            i <= pkt@.len() || i == start,
            nul_pos(pkt@, start as int) == nul_pos(pkt@, i as int),
        decreases pkt@.len() - i,
    {
        if pkt[i] == 0 {
            return Some(i);
        }
        i = i + 1;
    }
    None
}

/// The mathematical content of the server's greeting packet.
pub struct GreetingView {
    pub protocol_version: u8,
    pub server_version: Seq<char>,
    pub thread_id: nat,
    pub auth_plugin_data_part_1: Seq<u8>,
    pub filler: u8,
    pub capability_flags_1: nat,
    pub character_set: u8,
    pub status_flags: nat,
    pub capability_flags_2: nat,
    pub auth_plugin_data_len: u8,
    pub auth_plugin_data_part_2: Seq<u8>,
    pub auth_plugin_name: Seq<char>,
}

/// The greeting parsed from `b`: a protocol-version byte that must be 10, a
/// NUL-terminated server version, fixed fields, the second fragment of the
/// authentication challenge (whose length is the declared total minus 8, but
/// at least 13, and whose last byte must be the NUL that is stripped), and a
/// NUL-terminated plugin name. A declared challenge length below 8 is
/// malformed.
pub open spec fn greeting_at(b: Seq<u8>) -> Option<GreetingView> {
    if b.len() < 1 || b[0] != 10 {
        None
    } else {
        match nul_pos(b, 1) {
            None => None,
            Some(nul1) => {
                let version_bytes = b.subrange(1, nul1);
                let p = nul1 + 1;
                if !valid_utf8(version_bytes) || p + 31 > b.len() {
                    None
                } else {
                    let auth_len = b[p + 20];
                    let part2_total = if auth_len >= 21 {
                        auth_len - 8
                    } else {
                        13int
                    };
                    let q = p + 31;
                    if auth_len < 8 || q + part2_total > b.len() || b[q + part2_total - 1] != 0 {
                        None
                    } else {
                        match nul_pos(b, q + part2_total) {
                            None => None,
                            Some(nul2) => {
                                let plugin_bytes = b.subrange(q + part2_total, nul2);
                                if !valid_utf8(plugin_bytes) {
                                    None
                                } else {
                                    Some(
                                        GreetingView {
                                            protocol_version: 10,
                                            server_version: decode_utf8(version_bytes),
                                            thread_id: le32(b[p], b[p + 1], b[p + 2], b[p + 3]),
                                            auth_plugin_data_part_1: b.subrange(p + 4, p + 12),
                                            filler: b[p + 12],
                                            capability_flags_1: le16(b[p + 13], b[p + 14]),
                                            character_set: b[p + 15],
                                            status_flags: le16(b[p + 16], b[p + 17]),
                                            capability_flags_2: le16(b[p + 18], b[p + 19]),
                                            auth_plugin_data_len: auth_len,
                                            auth_plugin_data_part_2: b.subrange(
                                                q,
                                                q + part2_total - 1,
                                            ),
                                            auth_plugin_name: decode_utf8(plugin_bytes),
                                        },
                                    )
                                }
                            },
                        }
                    }
                }
            },
        }
    }
}

/// The server's initial greeting (protocol handshake, version 10).
#[derive(Debug, PartialEq)]
pub struct HandshakeV10 {
    pub protocol_version: u8,
    pub server_version: String,
    pub thread_id: u32,
    pub auth_plugin_data_part_1: Vec<u8>,
    pub filler: u8,
    pub capability_flags_1: u16,
    pub character_set: u8,
    pub status_flags: u16,
    pub capability_flags_2: u16,
    pub auth_plugin_data_len: u8,
    pub reserved: [u8; 10],
    pub auth_plugin_data_part_2: Vec<u8>,
    pub auth_plugin_name: String,
}

impl View for HandshakeV10 {
    type V = GreetingView;

    open spec fn view(&self) -> GreetingView {
        GreetingView {
            protocol_version: self.protocol_version,
            server_version: self.server_version@,
            thread_id: self.thread_id as nat,
            auth_plugin_data_part_1: self.auth_plugin_data_part_1@,
            filler: self.filler,
            capability_flags_1: self.capability_flags_1 as nat,
            character_set: self.character_set,
            status_flags: self.status_flags as nat,
            capability_flags_2: self.capability_flags_2 as nat,
            auth_plugin_data_len: self.auth_plugin_data_len,
            auth_plugin_data_part_2: self.auth_plugin_data_part_2@,
            auth_plugin_name: self.auth_plugin_name@,
        }
    }
}

impl HandshakeV10 {
    /// Decodes the greeting. A protocol version other than 10 is a protocol
    /// violation; any truncation, missing terminator, undersized challenge
    /// length, or invalid UTF-8 is a malformed packet.
    pub fn decode(pkt: Vec<u8>) -> (r: Result<Self, ClientError>)
        ensures
            r is Ok <==> greeting_at(pkt@) is Some,
            r matches Ok(h) ==> greeting_at(pkt@) == Some(h@),
            r matches Err(e) ==> e == (if pkt@.len() >= 1 && pkt@[0] != 10 {
                ClientError::ProtocolViolation
            } else {
                ClientError::MalformedPacket
            }),
    {
        if pkt.len() < 1 {
            return Err(ClientError::MalformedPacket);
        }
        let protocol_version = pkt[0];
        if protocol_version != 10 {
            return Err(ClientError::ProtocolViolation);
        }

        let nul1 = match find_nul(&pkt, 1) {
            Some(i) => i,
            None => { return Err(ClientError::MalformedPacket); },
        };
        let server_version = match bytes_to_string(
            slice_to_vec(slice_subrange(pkt.as_slice(), 1, nul1)),
        ) {
            Some(s) => s,
            None => { return Err(ClientError::MalformedPacket); },
        };
        let p = nul1 + 1;
        if pkt.len() - p < 31 {
            return Err(ClientError::MalformedPacket);
        }

        let thread_id = read_le32(pkt[p], pkt[p + 1], pkt[p + 2], pkt[p + 3]);
        let auth_plugin_data_part_1 = slice_to_vec(slice_subrange(pkt.as_slice(), p + 4, p + 12));
        let filler = pkt[p + 12];
        let capability_flags_1 = read_le16(pkt[p + 13], pkt[p + 14]);
        let character_set = pkt[p + 15];
        let status_flags = read_le16(pkt[p + 16], pkt[p + 17]);
        let capability_flags_2 = read_le16(pkt[p + 18], pkt[p + 19]);
        let auth_plugin_data_len = pkt[p + 20];
        if auth_plugin_data_len < 8 {
            return Err(ClientError::MalformedPacket);
        }
        let reserved = [0u8; 10];

        let part2_total: usize = if auth_plugin_data_len >= 21 {
            auth_plugin_data_len as usize - 8
        } else {
            13
        };
        let q = p + 31;
        if pkt.len() - q < part2_total {
            return Err(ClientError::MalformedPacket);
        }
        if pkt[q + part2_total - 1] != 0 {
            return Err(ClientError::MalformedPacket);
        }
        let auth_plugin_data_part_2 = slice_to_vec(
            slice_subrange(pkt.as_slice(), q, q + part2_total - 1),
        );

        let nul2 = match find_nul(&pkt, q + part2_total) {
            Some(i) => i,
            None => { return Err(ClientError::MalformedPacket); },
        };
        let auth_plugin_name = match bytes_to_string(
            slice_to_vec(slice_subrange(pkt.as_slice(), q + part2_total, nul2)),
        ) {
            Some(s) => s,
            None => { return Err(ClientError::MalformedPacket); },
        };

        Ok(
            Self {
                protocol_version,
                server_version,
                thread_id,
                auth_plugin_data_part_1,
                filler,
                capability_flags_1,
                character_set,
                status_flags,
                capability_flags_2,
                auth_plugin_data_len,
                reserved,
                auth_plugin_data_part_2,
                auth_plugin_name,
            },
        )
    }

    /// The full authentication challenge: the two fragments, concatenated.
    pub fn auth_plugin_data(&self) -> (r: Vec<u8>)
        ensures
            r@ == self.auth_plugin_data_part_1@ + self.auth_plugin_data_part_2@,
    {
        let mut r = slice_to_vec(self.auth_plugin_data_part_1.as_slice());
        crate::wire::push_bytes(&mut r, self.auth_plugin_data_part_2.as_slice());
        r
    }
}

/// Relies on `sha1::Sha1` (through the `Digest` trait): the 20-byte SHA-1
/// digest of the input, a function of the input bytes alone.
pub uninterp spec fn sha1_of(input: Seq<u8>) -> Seq<u8>;

/// Relies on `sha1::Sha1` (through the `Digest` trait) to compute the SHA-1
/// digest; its 20-byte result depends on the input bytes alone.
#[verifier::external_body]
fn sha1_digest(input: &Vec<u8>) -> (r: Vec<u8>)
    ensures
        r@ == sha1_of(input@),
        r@.len() == 20,
{
    let digest = <sha1::Sha1 as sha1::Digest>::digest(input.as_slice());
    digest.to_vec()
}

/// The native-password proof:
/// `SHA1(password) XOR SHA1(challenge ++ SHA1(SHA1(password)))`,
/// or the empty sequence for an empty password.
pub open spec fn auth_proof(password: Seq<u8>, challenge: Seq<u8>) -> Seq<u8> {
    if password.len() == 0 {
        seq![]
    } else {
        let first = sha1_of(password);
        let salted = sha1_of(challenge + sha1_of(first));
        Seq::new(first.len(), |i: int| first[i] ^ salted[i])
    }
}

/// Computes the challenge-response password proof. Deterministic: the result
/// is a function of the password and the challenge alone.
pub fn compute_auth_proof(password: &str, challenge: &Vec<u8>) -> (r: Vec<u8>)
    ensures
        r@ == auth_proof(encode_utf8(password@), challenge@),
{
    let pw = slice_to_vec(password.as_bytes());
    if pw.len() == 0 {
        return Vec::new();
    }
    let first = sha1_digest(&pw);
    let double = sha1_digest(&first);
    let mut salted_input = slice_to_vec(challenge.as_slice());
    crate::wire::push_bytes(&mut salted_input, double.as_slice());
    let salted = sha1_digest(&salted_input);

    let mut out: Vec<u8> = Vec::new();
    let mut i: usize = 0;
    while i < 20
        invariant
            i <= 20,
            first@ == sha1_of(encode_utf8(password@)),
            salted@ == sha1_of(challenge@ + sha1_of(first@)),
            first@.len() == 20,
            salted@.len() == 20,
            out@ =~= Seq::new(i as nat, |j: int| first@[j] ^ salted@[j]),
        decreases 20 - i,
    {
        out.push(first[i] ^ salted[i]);
        i = i + 1;
    }
    assert(out@ =~= auth_proof(encode_utf8(password@), challenge@));
    out
}

/// Two results of `compute_auth_proof` for the same password and challenge
/// are equal: the proof depends on its inputs alone.
pub proof fn lemma_auth_proof_deterministic(
    password: &str,
    challenge: &Vec<u8>,
    r1: Vec<u8>,
    r2: Vec<u8>,
)
    requires
        call_ensures(compute_auth_proof, (password, challenge), r1),
        call_ensures(compute_auth_proof, (password, challenge), r2),
    ensures
        r1@ == r2@,
{
}

/// The client's reply to the greeting.
#[derive(Debug)]
pub struct HandshakeResponse41 {
    pub client_flag: u32,
    pub max_packet_size: u32,
    pub character_set: u8,
    pub filler: [u8; 23],
    pub username: String,
    pub auth_response: Vec<u8>,
    pub database: String,
    pub client_plugin_name: String,
}

/// One key/value pair of the attribute block: each part is a one-byte
/// (truncated) length, then the UTF-8 bytes.
pub open spec fn kv_bytes(k: Seq<char>, v: Seq<char>) -> Seq<u8> {
    seq![encode_utf8(k).len() as u8] + encode_utf8(k) + seq![encode_utf8(v).len() as u8]
        + encode_utf8(v)
}

/// The fixed diagnostic attribute set sent with every handshake response.
pub open spec fn default_attributes_bytes() -> Seq<u8> {
    kv_bytes("_pid"@, "246"@) + kv_bytes("_platform"@, "aarch64"@) + kv_bytes("_os"@, "Linux"@)
        + kv_bytes("_client_name"@, "libmysql"@) + kv_bytes("os_user"@, "root"@) + kv_bytes(
        "_client_version"@,
        "8.3.0"@,
    ) + kv_bytes("program_name"@, "mysql"@)
}

/// The handshake-response payload: a 32-byte fixed header (flags, max packet
/// size, character set, 23 zero bytes), the NUL-terminated username, the
/// length-prefixed proof, the NUL-terminated database and plugin names, then
/// the length-prefixed attribute block. Length prefixes are single
/// (truncated) bytes.
pub open spec fn response_bytes(r: HandshakeResponse41) -> Seq<u8> {
    le32_bytes(r.client_flag as nat) + le32_bytes(r.max_packet_size as nat) + seq![r.character_set]
        + r.filler@ + encode_utf8(r.username@) + seq![0u8] + seq![r.auth_response@.len() as u8]
        + r.auth_response@ + encode_utf8(r.database@) + seq![0u8] + encode_utf8(
        r.client_plugin_name@,
    ) + seq![0u8] + seq![default_attributes_bytes().len() as u8] + default_attributes_bytes()
}

/// Appends one attribute pair in its wire form.
fn push_kv(buf: &mut Vec<u8>, k: &str, v: &str)
    ensures
        final(buf)@ == old(buf)@ + kv_bytes(k@, v@),
{
    let mut key_bytes = slice_to_vec(k.as_bytes());
    let mut value_bytes = slice_to_vec(v.as_bytes());
    buf.push(key_bytes.len() as u8);
    buf.append(&mut key_bytes);
    buf.push(value_bytes.len() as u8);
    buf.append(&mut value_bytes);
    assert(buf@ =~= old(buf)@ + kv_bytes(k@, v@));
}

impl HandshakeResponse41 {
    /// Builds the response for the given credentials and challenge, with the
    /// fixed capability flags, packet-size limit and character set that this
    /// client always announces.
    pub fn new(username: &str, password: &str, database: &str, auth_plugin_data: Vec<u8>) -> (r:
        Self)
        ensures
            r.client_flag == 0x19bfa28d,
            r.max_packet_size == 16777216,
            r.character_set == 8,
            r.filler@ == Seq::new(23, |i: int| 0u8),
            r.username@ == username@,
            r.auth_response@ == auth_proof(encode_utf8(password@), auth_plugin_data@),
            r.database@ == database@,
            r.client_plugin_name@ == "mysql_native_password"@,
    {
        let auth_response = compute_auth_proof(password, &auth_plugin_data);
        let filler = [0u8; 23];
        assert(filler@ =~= Seq::new(23, |i: int| 0u8));
        Self {
            client_flag: 0x19bfa28d,
            max_packet_size: 16777216,
            character_set: 8,
            filler,
            username: username.to_owned(),
            auth_response,
            database: database.to_owned(),
            client_plugin_name: "mysql_native_password".to_owned(),
        }
    }

    /// Encodes the response payload.
    pub fn encode(&self) -> (r: Vec<u8>)
        ensures
            r@ == response_bytes(*self),
    {
        let mut pkt: Vec<u8> = Vec::new();
        push_le32(&mut pkt, self.client_flag);
        push_le32(&mut pkt, self.max_packet_size);
        pkt.push(self.character_set);
        crate::wire::push_bytes(&mut pkt, self.filler.as_slice());
        crate::wire::push_bytes(&mut pkt, self.username.as_str().as_bytes());
        pkt.push(0);
        pkt.push(self.auth_response.len() as u8);
        crate::wire::push_bytes(&mut pkt, self.auth_response.as_slice());
        crate::wire::push_bytes(&mut pkt, self.database.as_str().as_bytes());
        pkt.push(0);
        crate::wire::push_bytes(&mut pkt, self.client_plugin_name.as_str().as_bytes());
        pkt.push(0);

        let mut attributes: Vec<u8> = Vec::new();
        push_kv(&mut attributes, "_pid", "246");
        push_kv(&mut attributes, "_platform", "aarch64");
        push_kv(&mut attributes, "_os", "Linux");
        push_kv(&mut attributes, "_client_name", "libmysql");
        push_kv(&mut attributes, "os_user", "root");
        push_kv(&mut attributes, "_client_version", "8.3.0");
        push_kv(&mut attributes, "program_name", "mysql");
        assert(attributes@ =~= default_attributes_bytes());

        pkt.push(attributes.len() as u8);
        crate::wire::push_bytes(&mut pkt, attributes.as_slice());
        assert(pkt@ =~= response_bytes(*self));
        pkt
    }
}

} // verus!
