use toy_mysql_client::command::{ColumnDefinition41, ErrPacket, ResultsetRow};
use toy_mysql_client::error::ClientError;
use toy_mysql_client::protocol::{OkPacket, ResponsePacket};
use toy_mysql_client::utils::{decode_lenenc_integer, decode_lenenc_string};

#[test]
fn lenenc_integer_single_byte_values_decode_as_themselves() {
    for n in 0x00..=0xfau8 {
        let pkt = vec![n];
        assert_eq!(decode_lenenc_integer(&pkt, 0), Ok((n as u64, 1)));
    }
}

#[test]
fn lenenc_integer_two_byte_form_decodes_little_endian() {
    let pkt = vec![0xfc, 0x34, 0x12];
    assert_eq!(decode_lenenc_integer(&pkt, 0), Ok((0x1234, 3)));
}

#[test]
fn lenenc_integer_three_byte_form_decodes_little_endian() {
    let pkt = vec![0xfd, 0x56, 0x34, 0x12];
    assert_eq!(decode_lenenc_integer(&pkt, 0), Ok((0x123456, 4)));
}

#[test]
fn lenenc_integer_eight_byte_form_decodes_little_endian() {
    let pkt = vec![0xfe, 0xef, 0xcd, 0xab, 0x89, 0x67, 0x45, 0x23, 0x01];
    assert_eq!(decode_lenenc_integer(&pkt, 0), Ok((0x0123456789abcdef, 9)));
}

#[test]
fn lenenc_integer_rejects_the_two_unused_discriminants() {
    assert_eq!(
        decode_lenenc_integer(&vec![0xfb], 0),
        Err(ClientError::MalformedPacket)
    );
    assert_eq!(
        decode_lenenc_integer(&vec![0xff], 0),
        Err(ClientError::MalformedPacket)
    );
}

#[test]
fn lenenc_integer_rejects_truncated_buffers() {
    assert_eq!(
        decode_lenenc_integer(&vec![0xfc, 0x34], 0),
        Err(ClientError::MalformedPacket)
    );
    assert_eq!(
        decode_lenenc_integer(&vec![], 0),
        Err(ClientError::MalformedPacket)
    );
}

#[test]
fn lenenc_string_round_trips_through_its_encoding() {
    let s = "hello";
    let mut pkt = vec![s.len() as u8];
    pkt.extend_from_slice(s.as_bytes());
    assert_eq!(
        decode_lenenc_string(&pkt, 0),
        Ok((String::from("hello"), 6))
    );
}

#[test]
fn lenenc_string_rejects_invalid_utf8() {
    let pkt = vec![2, 0xff, 0xfe];
    assert_eq!(
        decode_lenenc_string(&pkt, 0),
        Err(ClientError::MalformedPacket)
    );
}

#[test]
fn lenenc_string_rejects_truncated_buffers() {
    let pkt = vec![5, b'h', b'i'];
    assert_eq!(
        decode_lenenc_string(&pkt, 0),
        Err(ClientError::MalformedPacket)
    );
}

fn sample_column() -> ColumnDefinition41 {
    ColumnDefinition41 {
        catalog: String::from("def"),
        schema: String::from("test"),
        table: String::from("t"),
        org_table: String::from("t"),
        name: String::from("id"),
        org_name: String::from("id"),
        length_of_fixed_length_fields: 0x0c,
        character_set: 0x3f,
        column_length: 11,
        type_: 3,
        flags: 0x5003,
        decimals: 0,
    }
}

#[test]
fn column_definition_encode_then_decode_is_the_identity() {
    let column = sample_column();
    let decoded = ColumnDefinition41::decode(column.encode()).unwrap();
    assert_eq!(decoded, sample_column());
}

#[test]
fn column_definition_with_large_fixed_length_field_round_trips() {
    let mut column = sample_column();
    column.length_of_fixed_length_fields = 0x123456789a;
    let encoded = column.encode();
    let decoded = ColumnDefinition41::decode(encoded).unwrap();
    assert_eq!(decoded.length_of_fixed_length_fields, 0x123456789a);
}

#[test]
fn column_definition_rejects_truncated_packets() {
    let column = sample_column();
    let mut encoded = column.encode();
    encoded.truncate(encoded.len() - 1);
    assert_eq!(
        ColumnDefinition41::decode(encoded),
        Err(ClientError::MalformedPacket)
    );
}

#[test]
fn resultset_row_decodes_each_column_in_order() {
    let pkt = vec![1, b'1', 5, b'h', b'e', b'l', b'l', b'o'];
    let row = ResultsetRow::decode(pkt).unwrap();
    assert_eq!(row.0, vec![String::from("1"), String::from("hello")]);
}

#[test]
fn resultset_row_of_empty_payload_has_no_columns() {
    let row = ResultsetRow::decode(vec![]).unwrap();
    assert_eq!(row.0, Vec::<String>::new());
}

#[test]
fn ok_packet_decodes_both_counters() {
    let pkt = vec![0x00, 0x03, 0xfc, 0x34, 0x12];
    let ok = OkPacket::decode(pkt).unwrap();
    assert_eq!(ok.header, 0x00);
    assert_eq!(ok.affected_rows, 3);
    assert_eq!(ok.last_insert_id, 0x1234);
}

#[test]
fn ok_packet_rejects_other_headers() {
    assert_eq!(
        OkPacket::decode(vec![0x01, 0x00, 0x00]),
        Err(ClientError::MalformedPacket)
    );
}

#[test]
fn response_packet_dispatches_on_the_header_byte() {
    let ok = ResponsePacket::decode(vec![0x00, 0x00, 0x00]).unwrap();
    assert!(matches!(ok, ResponsePacket::Success(_)));

    let eof = ResponsePacket::decode(vec![0xfe, 0x00, 0x00]).unwrap();
    assert!(matches!(eof, ResponsePacket::Success(_)));

    let mut err_pkt = vec![0xff, 0x28, 0x04, b'#'];
    err_pkt.extend_from_slice(b"42000");
    err_pkt.extend_from_slice(b"boom");
    let err = ResponsePacket::decode(err_pkt).unwrap();
    assert!(matches!(err, ResponsePacket::Failure(_)));

    assert_eq!(
        ResponsePacket::decode(vec![0x07]),
        Err(ClientError::MalformedPacket)
    );
}

#[test]
fn err_packet_fields_and_rendering() {
    let mut pkt = vec![0xff, 0x28, 0x04, b'#'];
    pkt.extend_from_slice(b"42000");
    pkt.extend_from_slice("You have an error in your SQL syntax".as_bytes());
    let err = ErrPacket::decode(pkt).unwrap();
    assert_eq!(err.header, 0xff);
    assert_eq!(err.error_code, 1064);
    assert_eq!(err.sql_state_marker, "#");
    assert_eq!(err.sql_state, "42000");
    assert_eq!(err.error_message, "You have an error in your SQL syntax");
    assert_eq!(
        err.human_readable_text(),
        "ERROR 1064 (42000): You have an error in your SQL syntax"
    );
}

#[test]
fn err_packet_rejects_other_headers_and_short_packets() {
    assert_eq!(
        ErrPacket::decode(vec![0x00, 0x28, 0x04, b'#', b'4', b'2', b'0', b'0', b'0']),
        Err(ClientError::MalformedPacket)
    );
    assert_eq!(
        ErrPacket::decode(vec![0xff, 0x28]),
        Err(ClientError::MalformedPacket)
    );
}
