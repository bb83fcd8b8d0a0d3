use jarm::parse::Part;

fn blank_response() -> Vec<u8> {
    vec![0u8; 1484]
}

#[test]
fn alert_reply_yields_empty_observation() {
    let mut data = blank_response();
    data[0] = 21;
    let part = Part::new(data);
    assert!(part.cipher.is_none());
    assert!(part.version.is_none());
    assert!(part.extensions.version.is_none());
    assert!(part.extensions.fingerprint.is_none());
}

#[test]
fn non_server_hello_yields_empty_observation() {
    let mut data = blank_response();
    data[0] = 22;
    data[5] = 11;
    let part = Part::new(data);
    assert!(part.cipher.is_none());
    assert!(part.version.is_none());
}

#[test]
fn handcrafted_server_hello_parses_exactly() {
    let mut data = blank_response();
    data[0] = 22;
    data[3] = 5; // announced record length 1280
    data[5] = 2;
    data[9] = 3;
    data[10] = 3; // selected version 0303
    data[43] = 0; // empty session id
    data[44] = 0xc0;
    data[45] = 0x2f; // selected cipher c02f
    data[48] = 31; // extensions block length
    let exts: [u8; 31] = [
        0xff, 0x01, 0x00, 0x00, // renegotiation_info, empty
        0x00, 0x00, 0x00, 0x00, // server_name, empty
        0x00, 0x17, 0x00, 0x00, // extended_master_secret, empty
        0x00, 0x23, 0x00, 0x00, // session_ticket, empty
        0x00, 0x10, 0x00, 0x05, 0x00, 0x03, 0x02, 0x68, 0x32, // ALPN: h2
        0x00, 0x2b, 0x00, 0x02, 0x03, 0x04, // supported_versions
    ];
    data[49..49 + 31].copy_from_slice(&exts);
    let part = Part::new(data);
    assert_eq!(part.cipher, Some("c02f".to_string()));
    assert_eq!(part.version, Some("0303".to_string()));
    assert_eq!(part.extensions.version, Some("h2".to_string()));
    assert_eq!(
        part.extensions.fingerprint,
        Some("ff01-0000-0017-0023-0010-002b".to_string())
    );
}

#[test]
fn announced_length_caps_the_extension_walk() {
    let mut data = blank_response();
    data[0] = 22;
    data[3] = 5;
    data[5] = 2;
    data[9] = 3;
    data[10] = 3;
    data[43] = 0;
    data[44] = 0xc0;
    data[45] = 0x2f;
    data[48] = 8; // the block is announced as 8 bytes
    let exts: [u8; 9] = [0xff, 0x01, 0x00, 0x01, 0x00, 0x00, 0x17, 0x00, 0x00];
    data[49..49 + 9].copy_from_slice(&exts);
    let part = Part::new(data);
    assert_eq!(part.extensions.fingerprint, Some("ff01-0017".to_string()));
    assert_eq!(part.extensions.version, Some("".to_string()));
}

#[test]
fn certificate_byte_in_length_position_rejects_extensions() {
    let mut data = blank_response();
    data[0] = 22;
    data[3] = 5;
    data[5] = 2;
    data[43] = 0;
    data[44] = 0xc0;
    data[45] = 0x2f;
    data[47] = 11; // collides with the certificate handshake type
    let part = Part::new(data);
    assert_eq!(part.cipher, Some("c02f".to_string()));
    assert!(part.extensions.version.is_none());
    assert!(part.extensions.fingerprint.is_none());
}

#[test]
fn short_announced_record_rejects_extensions() {
    let mut data = blank_response();
    data[0] = 22;
    data[3] = 0;
    data[4] = 40; // announced length 40 < counter + 42
    data[5] = 2;
    data[43] = 0;
    let part = Part::new(data);
    assert!(part.extensions.version.is_none());
    assert!(part.extensions.fingerprint.is_none());
}

#[test]
fn version_byte_remaps_fourth_hex_digit() {
    assert_eq!(Part::version_byte(""), '0');
    assert_eq!(Part::version_byte("0300"), 'a');
    assert_eq!(Part::version_byte("0301"), 'b');
    assert_eq!(Part::version_byte("0302"), 'c');
    assert_eq!(Part::version_byte("0303"), 'd');
    assert_eq!(Part::version_byte("0304"), 'e');
    assert_eq!(Part::version_byte("0309"), '0');
    assert_eq!(Part::version_byte("030x"), '0');
}

#[test]
fn cipher_bytes_is_the_one_based_table_position() {
    assert_eq!(Part::cipher_bytes(""), "00");
    assert_eq!(Part::cipher_bytes("0004"), "01");
    assert_eq!(Part::cipher_bytes("c02f"), "29");
    assert_eq!(Part::cipher_bytes("1305"), "45");
    assert_eq!(Part::cipher_bytes("beef"), "00");
    assert_eq!(Part::cipher_bytes("C02F"), "00");
}
