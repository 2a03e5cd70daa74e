//! The text-query command packet and the packets of its response: column
//! definitions, result rows, and the server's error packet.

use vstd::prelude::*;
use vstd::slice::{slice_subrange, slice_to_vec};
use vstd::string::StringExecFns;
use vstd::utf8::{encode_utf8, valid_utf8, decode_utf8};

use crate::error::ClientError;
use crate::utils::{bytes_to_string, decode_lenenc_integer, decode_lenenc_string,
    encode_lenenc_integer, encode_lenenc_string, lenenc_int_at, lenenc_int_bytes, lenenc_str_at,
    lenenc_str_bytes, lemma_parse_lenenc_int, lemma_parse_lenenc_str};
use crate::wire::{le16, le16_bytes, le32, le32_bytes, read_le16, read_le32, push_le16, push_le32};

verus! {

/// A COM_QUERY request: command byte 0x03, a parameter count (always 0 for
/// text queries), a parameter-set count (always 1), then the raw SQL text.
#[derive(Debug)]
pub struct ComQuery {
    pub command: u8,
    pub parameter_count: u64,
    pub parameter_set_count: u64,
    pub query: String,
}

impl ComQuery {
    pub fn new(query: &str) -> (r: Self)
        ensures
            r.command == 0x03,
            r.parameter_count == 0,
            r.parameter_set_count == 1,
            r.query@ == query@,
    {
        Self {
            command: 0x03,
            parameter_count: 0,
            parameter_set_count: 1,
            query: query.to_owned(),
        }
    }

    /// The packet payload: the three leading bytes, then the SQL text as
    /// UTF-8. The two count fields are sent as single (truncated) bytes.
    pub fn encode(&self) -> (r: Vec<u8>)
        ensures
            r@ == seq![
                self.command,
                self.parameter_count as u8,
                self.parameter_set_count as u8,
            ] + encode_utf8(self.query@),
    {
        let mut pkt: Vec<u8> = Vec::new();
        pkt.push(self.command);
        pkt.push(self.parameter_count as u8);
        pkt.push(self.parameter_set_count as u8);
        crate::wire::push_bytes(&mut pkt, self.query.as_str().as_bytes());
        assert(pkt@ =~= seq![
            self.command,
            self.parameter_count as u8,
            self.parameter_set_count as u8,
        ] + encode_utf8(self.query@));
        pkt
    }
}

/// The mathematical content of a column-definition packet.
pub struct ColumnDefinitionView {
    pub catalog: Seq<char>,
    pub schema: Seq<char>,
    pub table: Seq<char>,
    pub org_table: Seq<char>,
    pub name: Seq<char>,
    pub org_name: Seq<char>,
    pub length_of_fixed_length_fields: nat,
    pub character_set: nat,
    pub column_length: nat,
    pub type_: u8,
    pub flags: nat,
    pub decimals: u8,
}

impl ColumnDefinitionView {
    /// The bounds that the wire format imposes: each string fits its one-byte
    /// length prefix and each integer fits its field width.
    pub open spec fn wf(self) -> bool {
        &&& encode_utf8(self.catalog).len() <= 255
        &&& encode_utf8(self.schema).len() <= 255
        &&& encode_utf8(self.table).len() <= 255
        &&& encode_utf8(self.org_table).len() <= 255
        &&& encode_utf8(self.name).len() <= 255
        &&& encode_utf8(self.org_name).len() <= 255
        &&& self.length_of_fixed_length_fields < 0x1_0000_0000_0000_0000
        &&& self.character_set < 0x1_0000
        &&& self.column_length < 0x1_0000_0000
        &&& self.flags < 0x1_0000
    }
}

/// The column-definition packet parsed from `b`: six length-encoded strings,
/// a length-encoded integer, then five fixed-width fields. Trailing bytes
/// after the fixed fields are ignored.
pub open spec fn column_definition_at(b: Seq<u8>) -> Option<ColumnDefinitionView> {
    match lenenc_str_at(b, 0) {
        None => None,
        Some((catalog, n0)) => match lenenc_str_at(b, n0) {
            None => None,
            Some((schema, n1)) => match lenenc_str_at(b, n0 + n1) {
                None => None,
                Some((table, n2)) => match lenenc_str_at(b, n0 + n1 + n2) {
                    None => None,
                    Some((org_table, n3)) => match lenenc_str_at(b, n0 + n1 + n2 + n3) {
                        None => None,
                        Some((name, n4)) => match lenenc_str_at(b, n0 + n1 + n2 + n3 + n4) {
                            None => None,
                            Some((org_name, n5)) => match lenenc_int_at(
                                b,
                                n0 + n1 + n2 + n3 + n4 + n5,
                            ) {
                                None => None,
                                Some((fixed_len, n6)) => {
                                    let p = n0 + n1 + n2 + n3 + n4 + n5 + n6;
                                    if p + 10 <= b.len() {
                                        Some(
                                            ColumnDefinitionView {
                                                catalog,
                                                schema,
                                                table,
                                                org_table,
                                                name,
                                                org_name,
                                                length_of_fixed_length_fields: fixed_len,
                                                character_set: le16(b[p], b[p + 1]),
                                                column_length: le32(
                                                    b[p + 2],
                                                    b[p + 3],
                                                    b[p + 4],
                                                    b[p + 5],
                                                ),
                                                type_: b[p + 6],
                                                flags: le16(b[p + 7], b[p + 8]),
                                                decimals: b[p + 9],
                                            },
                                        )
                                    } else {
                                        None
                                    }
                                },
                            },
                        },
                    },
                },
            },
        },
    }
}

/// The encoding that `column_definition_at` parses back: the six strings and
/// the integer in their length-encoded forms, then the fixed-width fields.
pub open spec fn column_definition_bytes(c: ColumnDefinitionView) -> Seq<u8>
    recommends
        c.wf(),
{
    lenenc_str_bytes(c.catalog) + lenenc_str_bytes(c.schema) + lenenc_str_bytes(c.table)
        + lenenc_str_bytes(c.org_table) + lenenc_str_bytes(c.name) + lenenc_str_bytes(c.org_name)
        + lenenc_int_bytes(c.length_of_fixed_length_fields) + le16_bytes(c.character_set)
        + le32_bytes(c.column_length) + seq![c.type_] + le16_bytes(c.flags) + seq![c.decimals]
}

/// A column of a result set, as described by the packets that precede the
/// rows.
#[derive(Debug, PartialEq)]
pub struct ColumnDefinition41 {
    pub catalog: String,
    pub schema: String,
    pub table: String,
    pub org_table: String,
    pub name: String,
    pub org_name: String,
    pub length_of_fixed_length_fields: u64,
    pub character_set: u16,
    pub column_length: u32,
    pub type_: u8,
    pub flags: u16,
    pub decimals: u8,
}

impl View for ColumnDefinition41 {
    type V = ColumnDefinitionView;

    open spec fn view(&self) -> ColumnDefinitionView {
        ColumnDefinitionView {
            catalog: self.catalog@,
            schema: self.schema@,
            table: self.table@,
            org_table: self.org_table@,
            name: self.name@,
            org_name: self.org_name@,
            length_of_fixed_length_fields: self.length_of_fixed_length_fields as nat,
            character_set: self.character_set as nat,
            column_length: self.column_length as nat,
            type_: self.type_,
            flags: self.flags as nat,
            decimals: self.decimals,
        }
    }
}

impl DeepView for ColumnDefinition41 {
    type V = ColumnDefinitionView;

    open spec fn deep_view(&self) -> ColumnDefinitionView {
        self.view()
    }
}

impl ColumnDefinition41 {
    /// Decodes a column-definition packet, failing on any truncation,
    /// invalid UTF-8, or bad length-encoding discriminant.
    #[verifier::rlimit(100)]
    #[verifier::spinoff_prover]
    pub fn decode(pkt: Vec<u8>) -> (r: Result<Self, ClientError>)
        ensures
            r is Ok <==> column_definition_at(pkt@) is Some,
            r matches Ok(c) ==> column_definition_at(pkt@) == Some(c@),
            r matches Err(e) ==> e == ClientError::MalformedPacket,
    {
        let mut pos: usize = 0;

        let (catalog, consumed) = match decode_lenenc_string(&pkt, pos) {
            Ok(v) => v,
            Err(e) => { return Err(e); },
        };
        pos = pos + consumed;

        let (schema, consumed) = match decode_lenenc_string(&pkt, pos) {
            Ok(v) => v,
            Err(e) => { return Err(e); },
        };
        pos = pos + consumed;

        let (table, consumed) = match decode_lenenc_string(&pkt, pos) {
            Ok(v) => v,
            Err(e) => { return Err(e); },
        };
        pos = pos + consumed;

        let (org_table, consumed) = match decode_lenenc_string(&pkt, pos) {
            Ok(v) => v,
            Err(e) => { return Err(e); },
        };
        pos = pos + consumed;

        let (name, consumed) = match decode_lenenc_string(&pkt, pos) {
            Ok(v) => v,
            Err(e) => { return Err(e); },
        };
        pos = pos + consumed;

        let (org_name, consumed) = match decode_lenenc_string(&pkt, pos) {
            Ok(v) => v,
            Err(e) => { return Err(e); },
        };
        pos = pos + consumed;

        let (length_of_fixed_length_fields, consumed) = match decode_lenenc_integer(&pkt, pos) {
            Ok(v) => v,
            Err(e) => { return Err(e); },
        };
        pos = pos + consumed;

        if pkt.len() - pos < 10 {
            return Err(ClientError::MalformedPacket);
        }
        let character_set = read_le16(pkt[pos], pkt[pos + 1]);
        let column_length = read_le32(pkt[pos + 2], pkt[pos + 3], pkt[pos + 4], pkt[pos + 5]);
        let type_ = pkt[pos + 6];
        let flags = read_le16(pkt[pos + 7], pkt[pos + 8]);
        let decimals = pkt[pos + 9];

        Ok(
            Self {
                catalog,
                schema,
                table,
                org_table,
                name,
                org_name,
                length_of_fixed_length_fields,
                character_set,
                column_length,
                type_,
                flags,
                decimals,
            },
        )
    }

    /// Encodes this column definition into the packet form that `decode`
    /// parses. Each string must fit its one-byte length prefix.
    pub fn encode(&self) -> (r: Vec<u8>)
        requires
            encode_utf8(self.catalog@).len() <= 255,
            encode_utf8(self.schema@).len() <= 255,
            encode_utf8(self.table@).len() <= 255,
            encode_utf8(self.org_table@).len() <= 255,
            encode_utf8(self.name@).len() <= 255,
            encode_utf8(self.org_name@).len() <= 255,
        ensures
            r@ == column_definition_bytes(self@),
    {
        let mut pkt: Vec<u8> = Vec::new();
        encode_lenenc_string(&mut pkt, self.catalog.as_str());
        encode_lenenc_string(&mut pkt, self.schema.as_str());
        encode_lenenc_string(&mut pkt, self.table.as_str());
        encode_lenenc_string(&mut pkt, self.org_table.as_str());
        encode_lenenc_string(&mut pkt, self.name.as_str());
        encode_lenenc_string(&mut pkt, self.org_name.as_str());
        encode_lenenc_integer(&mut pkt, self.length_of_fixed_length_fields);
        push_le16(&mut pkt, self.character_set);
        push_le32(&mut pkt, self.column_length);
        pkt.push(self.type_);
        push_le16(&mut pkt, self.flags);
        pkt.push(self.decimals);
        assert(pkt@ =~= column_definition_bytes(self@));
        pkt
    }
}

/// Encoding a well-formed column definition and decoding the bytes gives the
/// same column definition back.
#[verifier::rlimit(100)]
#[verifier::spinoff_prover]
pub proof fn lemma_column_definition_roundtrip(c: ColumnDefinitionView)
    requires
        c.wf(),
    ensures
        column_definition_at(column_definition_bytes(c)) == Some(c),
{
    let b = column_definition_bytes(c);
    let e0 = lenenc_str_bytes(c.catalog);
    let e1 = lenenc_str_bytes(c.schema);
    let e2 = lenenc_str_bytes(c.table);
    let e3 = lenenc_str_bytes(c.org_table);
    let e4 = lenenc_str_bytes(c.name);
    let e5 = lenenc_str_bytes(c.org_name);
    let e6 = lenenc_int_bytes(c.length_of_fixed_length_fields);
    let p0 = 0int;
    let p1 = p0 + e0.len();
    let p2 = p1 + e1.len();
    let p3 = p2 + e2.len();
    let p4 = p3 + e3.len();
    let p5 = p4 + e4.len();
    let p6 = p5 + e5.len();
    let p = p6 + e6.len();

    assert(b.subrange(p0, p1) =~= e0);
    lemma_parse_lenenc_str(b, p0, c.catalog);
    assert(b.subrange(p1, p2) =~= e1);
    lemma_parse_lenenc_str(b, p1, c.schema);
    assert(b.subrange(p2, p3) =~= e2);
    lemma_parse_lenenc_str(b, p2, c.table);
    assert(b.subrange(p3, p4) =~= e3);
    lemma_parse_lenenc_str(b, p3, c.org_table);
    assert(b.subrange(p4, p5) =~= e4);
    lemma_parse_lenenc_str(b, p4, c.name);
    assert(b.subrange(p5, p6) =~= e5);
    lemma_parse_lenenc_str(b, p5, c.org_name);
    assert(b.subrange(p6, p) =~= e6);
    lemma_parse_lenenc_int(b, p6, c.length_of_fixed_length_fields);

    assert(b.len() == p + 10);
    assert(b[p] == le16_bytes(c.character_set)[0]);
    assert(b[p + 1] == le16_bytes(c.character_set)[1]);
    crate::wire::lemma_le16_roundtrip(c.character_set);
    assert(b[p + 2] == le32_bytes(c.column_length)[0]);
    assert(b[p + 3] == le32_bytes(c.column_length)[1]);
    assert(b[p + 4] == le32_bytes(c.column_length)[2]);
    assert(b[p + 5] == le32_bytes(c.column_length)[3]);
    crate::wire::lemma_le32_roundtrip(c.column_length);
    assert(b[p + 6] == c.type_);
    assert(b[p + 7] == le16_bytes(c.flags)[0]);
    assert(b[p + 8] == le16_bytes(c.flags)[1]);
    crate::wire::lemma_le16_roundtrip(c.flags);
    assert(b[p + 9] == c.decimals);

    assert(column_definition_at(b) == Some(c));
}

/// One row of a text result set: an ordered sequence of string columns.
#[derive(Debug, PartialEq)]
pub struct ResultsetRow(pub Vec<String>);

impl View for ResultsetRow {
    type V = Seq<Seq<char>>;

    open spec fn view(&self) -> Seq<Seq<char>> {
        self.0.deep_view()
    }
}

impl DeepView for ResultsetRow {
    type V = Seq<Seq<char>>;

    open spec fn deep_view(&self) -> Seq<Seq<char>> {
        self.view()
    }
}

/// The strings read back-to-back from `pos` to the end of the buffer, or
/// `None` if any of them is truncated or not valid UTF-8.
pub open spec fn row_fields_at(b: Seq<u8>, pos: int) -> Option<Seq<Seq<char>>>
    decreases b.len() - pos,
{
    if pos == b.len() {
        Some(seq![])
    } else if 0 <= pos < b.len() {
        match lenenc_str_at(b, pos) {
            None => None,
            Some((s, n)) => match row_fields_at(b, pos + n) {
                None => None,
                Some(rest) => Some(seq![s] + rest),
            },
        }
    } else {
        None
    }
}

impl ResultsetRow {
    /// Decodes length-encoded strings until the payload is exhausted.
    pub fn decode(pkt: Vec<u8>) -> (r: Result<Self, ClientError>)
        ensures
            r is Ok <==> row_fields_at(pkt@, 0) is Some,
            r matches Ok(row) ==> row_fields_at(pkt@, 0) == Some(row@),
            r matches Err(e) ==> e == ClientError::MalformedPacket,
    {
        let mut fields: Vec<String> = Vec::new();
        let mut pos: usize = 0;
        while pos < pkt.len()
            invariant
                pos <= pkt@.len(),
                row_fields_at(pkt@, pos as int) matches Some(rest) ==> row_fields_at(pkt@, 0)
                    == Some(fields.deep_view() + rest),
                row_fields_at(pkt@, pos as int) is None ==> row_fields_at(pkt@, 0) is None,
            decreases pkt@.len() - pos,
        {
            let (s, consumed) = match decode_lenenc_string(&pkt, pos) {
                Ok(v) => v,
                Err(e) => { return Err(e); },
            };
            let ghost prev_fields = fields.deep_view();
            let ghost prev_pos = pos as int;
            fields.push(s);
            pos = pos + consumed;
            proof {
                assert(fields.deep_view() =~= prev_fields + seq![s@]);
                match row_fields_at(pkt@, pos as int) {
                    Some(rest) => {
                        assert(row_fields_at(pkt@, prev_pos) == Some(seq![s@] + rest));
                        assert(prev_fields + (seq![s@] + rest) =~= (prev_fields + seq![s@])
                            + rest);
                    },
                    None => {},
                }
            }
        }
        Ok(Self(fields))
    }
}

/// The mathematical content of an ERR packet.
pub struct ErrView {
    pub header: u8,
    pub error_code: nat,
    pub sql_state_marker: Seq<char>,
    pub sql_state: Seq<char>,
    pub error_message: Seq<char>,
}

/// The ERR packet parsed from `b`: header byte 0xFF, a two-byte error code,
/// a one-byte SQL-state marker, a five-byte SQL state, and the rest of the
/// packet as the error message.
pub open spec fn err_packet_at(b: Seq<u8>) -> Option<ErrView> {
    if b.len() >= 9 && b[0] == 0xff {
        let marker = b.subrange(3, 4);
        let state = b.subrange(4, 9);
        let message = b.subrange(9, b.len() as int);
        if valid_utf8(marker) && valid_utf8(state) && valid_utf8(message) {
            Some(
                ErrView {
                    header: 0xff,
                    error_code: le16(b[1], b[2]),
                    sql_state_marker: decode_utf8(marker),
                    sql_state: decode_utf8(state),
                    error_message: decode_utf8(message),
                },
            )
        } else {
            None
        }
    } else {
        None
    }
}

/// A well-formed error response from the server.
#[derive(Debug, PartialEq)]
pub struct ErrPacket {
    pub header: u8,
    pub error_code: u16,
    pub sql_state_marker: String,
    pub sql_state: String,
    pub error_message: String,
}

impl View for ErrPacket {
    type V = ErrView;

    open spec fn view(&self) -> ErrView {
        ErrView {
            header: self.header,
            error_code: self.error_code as nat,
            sql_state_marker: self.sql_state_marker@,
            sql_state: self.sql_state@,
            error_message: self.error_message@,
        }
    }
}

/// The character for a single decimal digit.
pub open spec fn decimal_digit(d: nat) -> char {
    if d == 0 {
        '0'
    } else if d == 1 {
        '1'
    } else if d == 2 {
        '2'
    } else if d == 3 {
        '3'
    } else if d == 4 {
        '4'
    } else if d == 5 {
        '5'
    } else if d == 6 {
        '6'
    } else if d == 7 {
        '7'
    } else if d == 8 {
        '8'
    } else {
        '9'
    }
}

/// The decimal rendering of a number: no sign, no padding, most significant
/// digit first.
pub open spec fn decimal_digits(v: nat) -> Seq<char>
    decreases v,
{
    if v < 10 {
        seq![decimal_digit(v)]
    } else {
        decimal_digits(v / 10).push(decimal_digit(v % 10))
    }
}

/// Relies on the standard decimal `Display` formatting of `u16`: the digits
/// of the value in base ten, no sign, no padding.
#[verifier::external_body]
fn u16_to_decimal(v: u16) -> (r: String)
    ensures
        r@ == decimal_digits(v as nat),
{
    v.to_string()
}

/// The text a user sees for a server error.
pub open spec fn error_text(e: ErrView) -> Seq<char> {
    "ERROR "@ + decimal_digits(e.error_code) + " ("@ + e.sql_state + "): "@ + e.error_message
}

impl ErrPacket {
    /// Decodes an ERR packet, failing on a short packet, a header other than
    /// 0xFF, or invalid UTF-8 in any text field.
    pub fn decode(pkt: Vec<u8>) -> (r: Result<Self, ClientError>)
        ensures
            r is Ok <==> err_packet_at(pkt@) is Some,
            r matches Ok(p) ==> err_packet_at(pkt@) == Some(p@),
            r matches Err(e) ==> e == ClientError::MalformedPacket,
    {
        if pkt.len() < 9 {
            return Err(ClientError::MalformedPacket);
        }
        if pkt[0] != 0xff {
            return Err(ClientError::MalformedPacket);
        }
        let error_code = read_le16(pkt[1], pkt[2]);
        let sql_state_marker = match bytes_to_string(
            slice_to_vec(slice_subrange(pkt.as_slice(), 3, 4)),
        ) {
            Some(s) => s,
            None => { return Err(ClientError::MalformedPacket); },
        };
        let sql_state = match bytes_to_string(slice_to_vec(slice_subrange(pkt.as_slice(), 4, 9))) {
            Some(s) => s,
            None => { return Err(ClientError::MalformedPacket); },
        };
        let error_message = match bytes_to_string(
            slice_to_vec(slice_subrange(pkt.as_slice(), 9, pkt.len())),
        ) {
            Some(s) => s,
            None => { return Err(ClientError::MalformedPacket); },
        };
        Ok(
            Self {
                header: 0xff,
                error_code,
                sql_state_marker,
                sql_state,
                error_message,
            },
        )
    }

    /// Renders the error the way the interactive client shows it:
    /// `ERROR <code> (<sql_state>): <message>`.
    pub fn human_readable_text(&self) -> (r: String)
        ensures
            r@ == error_text(self@),
    {
        let mut out = String::new();
        out.append("ERROR ");
        let code = u16_to_decimal(self.error_code);
        out.append(code.as_str());
        out.append(" (");
        out.append(self.sql_state.as_str());
        out.append("): ");
        out.append(self.error_message.as_str());
        assert(out@ =~= error_text(self@));
        out
    }
}

} // verus!
