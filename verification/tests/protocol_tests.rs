use toy_mysql_client::handshake::{HandshakeResponse41, HandshakeV10};

#[test]
fn test_handshake_v10() {
    let pkt = vec![
        0xa, 0x38, 0x2e, 0x33, 0x2e, 0x30, 0x0, 0x8, 0x0, 0x0, 0x0, 0x9, 0x12, 0x1, 0x3f, 0x41,
        0x22, 0x33, 0x36, 0x0, 0xff, 0xff, 0xff, 0x2, 0x0, 0xff, 0xdf, 0x15, 0x0, 0x0, 0x0, 0x0,
        0x0, 0x0, 0x0, 0x0, 0x0, 0x0, 0x15, 0x2, 0x25, 0xd, 0x44, 0xc, 0xc, 0x2c, 0x4f, 0x5b,
        0x6a, 0x55, 0x0, 0x6d, 0x79, 0x73, 0x71, 0x6c, 0x5f, 0x6e, 0x61, 0x74, 0x69, 0x76, 0x65,
        0x5f, 0x70, 0x61, 0x73, 0x73, 0x77, 0x6f, 0x72, 0x64, 0x0,
    ];
    let handshake = HandshakeV10::decode(pkt).unwrap();
    assert_eq!(handshake.protocol_version, 10);
    assert_eq!(handshake.server_version, "8.3.0");
    assert_eq!(handshake.thread_id, 8);
    assert_eq!(
        handshake.auth_plugin_data_part_1,
        vec![0x9, 0x12, 0x1, 0x3f, 0x41, 0x22, 0x33, 0x36]
    );
    assert_eq!(handshake.capability_flags_1, 0xffff);
    assert_eq!(handshake.character_set, 0xff);
    assert_eq!(handshake.status_flags, 0x0002);
    assert_eq!(handshake.capability_flags_2, 0xdfff);
    assert_eq!(handshake.auth_plugin_data_len, 21);
    assert_eq!(handshake.reserved, [0; 10]);
    assert_eq!(
        handshake.auth_plugin_data_part_2,
        vec![0x15, 0x2, 0x25, 0xd, 0x44, 0xc, 0xc, 0x2c, 0x4f, 0x5b, 0x6a, 0x55]
    );
    assert_eq!(handshake.auth_plugin_name, "mysql_native_password");
}

#[test]
fn test_handshake_response_41() {
    let response = HandshakeResponse41::new(
        "root",
        "root",
        "test",
        vec![
            0x9, 0x12, 0x1, 0x3f, 0x41, 0x22, 0x33, 0x36, 0x15, 0x2, 0x25, 0xd, 0x44, 0xc, 0xc,
            0x2c, 0x4f, 0x5b, 0x6a, 0x55,
        ],
    );
    assert_eq!(response.client_flag, 0x19bfa28d);
    assert_eq!(response.max_packet_size, 16777216);
    assert_eq!(response.character_set, 8);
    assert_eq!(response.filler, [0; 23]);
    assert_eq!(response.username, "root");
    assert_eq!(
        response.auth_response,
        vec![
            0xd5, 0xd2, 0xff, 0x2c, 0x94, 0x92, 0x95, 0x6f, 0x7f, 0xfa, 0x6c, 0x59, 0x21, 0x84,
            0xf1, 0x7e, 0xdf, 0xbe, 0x4b, 0x40,
        ]
    );
    assert_eq!(response.database, "test");
    assert_eq!(response.client_plugin_name, "mysql_native_password");

    let encoded = response.encode();
    assert_eq!(
        encoded,
        vec![
            0x8d, 0xa2, 0xbf, 0x19, 0x0, 0x0, 0x0, 0x1, 0x8, 0x0, 0x0, 0x0, 0x0, 0x0, 0x0, 0x0,
            0x0, 0x0, 0x0, 0x0, 0x0, 0x0, 0x0, 0x0, 0x0, 0x0, 0x0, 0x0, 0x0, 0x0, 0x0, 0x0, 0x72,
            0x6f, 0x6f, 0x74, 0x0, 0x14, 0xd5, 0xd2, 0xff, 0x2c, 0x94, 0x92, 0x95, 0x6f, 0x7f,
            0xfa, 0x6c, 0x59, 0x21, 0x84, 0xf1, 0x7e, 0xdf, 0xbe, 0x4b, 0x40, 0x74, 0x65, 0x73,
            0x74, 0x0, 0x6d, 0x79, 0x73, 0x71, 0x6c, 0x5f, 0x6e, 0x61, 0x74, 0x69, 0x76, 0x65,
            0x5f, 0x70, 0x61, 0x73, 0x73, 0x77, 0x6f, 0x72, 0x64, 0x0, 0x71, 0x4, 0x5f, 0x70,
            0x69, 0x64, 0x3, 0x32, 0x34, 0x36, 0x9, 0x5f, 0x70, 0x6c, 0x61, 0x74, 0x66, 0x6f,
            0x72, 0x6d, 0x7, 0x61, 0x61, 0x72, 0x63, 0x68, 0x36, 0x34, 0x3, 0x5f, 0x6f, 0x73,
            0x5, 0x4c, 0x69, 0x6e, 0x75, 0x78, 0xc, 0x5f, 0x63, 0x6c, 0x69, 0x65, 0x6e, 0x74,
            0x5f, 0x6e, 0x61, 0x6d, 0x65, 0x8, 0x6c, 0x69, 0x62, 0x6d, 0x79, 0x73, 0x71, 0x6c,
            0x7, 0x6f, 0x73, 0x5f, 0x75, 0x73, 0x65, 0x72, 0x4, 0x72, 0x6f, 0x6f, 0x74, 0xf,
            0x5f, 0x63, 0x6c, 0x69, 0x65, 0x6e, 0x74, 0x5f, 0x76, 0x65, 0x72, 0x73, 0x69, 0x6f,
            0x6e, 0x5, 0x38, 0x2e, 0x33, 0x2e, 0x30, 0xc, 0x70, 0x72, 0x6f, 0x67, 0x72, 0x61,
            0x6d, 0x5f, 0x6e, 0x61, 0x6d, 0x65, 0x5, 0x6d, 0x79, 0x73, 0x71, 0x6c,
        ]
    );
}

#[test]
fn greeting_challenge_is_the_two_fragments_concatenated() {
    let pkt = vec![
        0xa, 0x38, 0x2e, 0x33, 0x2e, 0x30, 0x0, 0x8, 0x0, 0x0, 0x0, 0x9, 0x12, 0x1, 0x3f, 0x41,
        0x22, 0x33, 0x36, 0x0, 0xff, 0xff, 0xff, 0x2, 0x0, 0xff, 0xdf, 0x15, 0x0, 0x0, 0x0, 0x0,
        0x0, 0x0, 0x0, 0x0, 0x0, 0x0, 0x15, 0x2, 0x25, 0xd, 0x44, 0xc, 0xc, 0x2c, 0x4f, 0x5b,
        0x6a, 0x55, 0x0, 0x6d, 0x79, 0x73, 0x71, 0x6c, 0x5f, 0x6e, 0x61, 0x74, 0x69, 0x76, 0x65,
        0x5f, 0x70, 0x61, 0x73, 0x73, 0x77, 0x6f, 0x72, 0x64, 0x0,
    ];
    let handshake = HandshakeV10::decode(pkt).unwrap();
    assert_eq!(
        handshake.auth_plugin_data(),
        vec![
            0x9, 0x12, 0x1, 0x3f, 0x41, 0x22, 0x33, 0x36, 0x15, 0x2, 0x25, 0xd, 0x44, 0xc, 0xc,
            0x2c, 0x4f, 0x5b, 0x6a, 0x55,
        ]
    );
}

#[test]
fn greeting_with_wrong_protocol_version_is_a_protocol_violation() {
    let pkt = vec![0x9, 0x0];
    assert_eq!(
        HandshakeV10::decode(pkt),
        Err(toy_mysql_client::error::ClientError::ProtocolViolation)
    );
}

#[test]
fn greeting_with_undersized_challenge_length_is_malformed() {
    // A greeting whose declared challenge length is 7 (below the 8 bytes of
    // the first fragment) must be rejected, not wrapped around.
    let mut pkt = vec![0xa, 0x38, 0x0]; // version, "8", NUL
    pkt.extend_from_slice(&[0x8, 0x0, 0x0, 0x0]); // thread id
    pkt.extend_from_slice(&[1, 2, 3, 4, 5, 6, 7, 8]); // fragment one
    pkt.push(0); // filler
    pkt.extend_from_slice(&[0xff, 0xff]); // capability flags, low half
    pkt.push(0xff); // character set
    pkt.extend_from_slice(&[0x2, 0x0]); // status flags
    pkt.extend_from_slice(&[0xff, 0xdf]); // capability flags, high half
    pkt.push(7); // declared challenge length: too small
    pkt.extend_from_slice(&[0; 10]); // reserved
    pkt.extend_from_slice(&[1, 2, 3, 4, 5, 6, 7, 8, 9, 10, 11, 12, 0]); // fragment two
    pkt.extend_from_slice(&[0x61, 0x0]); // plugin name "a"
    assert_eq!(
        HandshakeV10::decode(pkt),
        Err(toy_mysql_client::error::ClientError::MalformedPacket)
    );
}

#[test]
fn auth_proof_matches_the_reference_vector_and_is_deterministic() {
    let challenge = vec![
        0x9, 0x12, 0x1, 0x3f, 0x41, 0x22, 0x33, 0x36, 0x15, 0x2, 0x25, 0xd, 0x44, 0xc, 0xc, 0x2c,
        0x4f, 0x5b, 0x6a, 0x55,
    ];
    let proof = toy_mysql_client::handshake::compute_auth_proof("root", &challenge);
    assert_eq!(
        proof,
        vec![
            0xd5, 0xd2, 0xff, 0x2c, 0x94, 0x92, 0x95, 0x6f, 0x7f, 0xfa, 0x6c, 0x59, 0x21, 0x84,
            0xf1, 0x7e, 0xdf, 0xbe, 0x4b, 0x40,
        ]
    );
    let again = toy_mysql_client::handshake::compute_auth_proof("root", &challenge);
    assert_eq!(proof, again);
}

#[test]
fn auth_proof_of_empty_password_is_empty() {
    let challenge = vec![0u8; 20];
    let proof = toy_mysql_client::handshake::compute_auth_proof("", &challenge);
    assert_eq!(proof, Vec::<u8>::new());
}
