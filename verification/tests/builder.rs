use jarm::probe::{probe_table, Version};

fn be16(b: &[u8], i: usize) -> usize {
    (b[i] as usize) * 256 + (b[i + 1] as usize)
}

#[test]
fn every_packet_opens_with_handshake_type_and_record_version() {
    for probe in probe_table() {
        let b = probe.build_packet("example.com");
        assert_eq!(b[0], 0x16);
        let expected = match probe.version {
            Version::SslV3 => [3, 0],
            Version::Tls10 => [3, 1],
            Version::Tls11 => [3, 2],
            Version::Tls12 => [3, 3],
            Version::Tls13 => [3, 1],
        };
        assert_eq!(&b[1..3], &expected);
    }
}

#[test]
fn packet_layout_of_plain_probe() {
    let b = probe_table()[1].build_packet("example.com");
    // record length covers everything after the record header
    assert_eq!(be16(&b, 3), b.len() - 5);
    // handshake header: type 1, 3-byte length
    assert_eq!(b[5], 1);
    assert_eq!(b[6], 0);
    assert_eq!(be16(&b, 7), b.len() - 9);
    // client version, then 32-byte random, then a 32-byte session id
    assert_eq!(&b[9..11], &[3, 3]);
    assert_eq!(b[43], 32);
    // 69 suites, 2 bytes each, no GREASE
    assert_eq!(be16(&b, 76), 138);
    // compression methods
    assert_eq!(b[216], 1);
    assert_eq!(b[217], 0);
}

#[test]
fn grease_probe_leads_ciphers_with_a_grease_pair() {
    // cipher suites start at offset 78; the fifth probe asks for GREASE
    let b = probe_table()[4].build_packet("example.com");
    assert_eq!(b[78], b[79]);
    assert_eq!(b[78] % 16, 10);
    assert_ne!(b[78], 250);
    // with the pair in front the suite list is two bytes longer
    assert_eq!(be16(&b, 76), 140);
}

#[test]
fn server_name_extension_bytes() {
    let sni = probe_table()[0].extension_server_name("hi");
    assert_eq!(sni, vec![0, 0, 0, 7, 0, 5, 0, 0, 2, 104, 105]);
}

#[test]
fn rare_alpn_extension_bytes() {
    // the fourth probe selects the rare list with forward order
    let alpn = probe_table()[3].apln();
    let mut expected: Vec<u8> = vec![0x00, 0x10, 0x00, 0x30, 0x00, 0x2e];
    expected.extend([8, 104, 116, 116, 112, 47, 48, 46, 57]);
    expected.extend([8, 104, 116, 116, 112, 47, 49, 46, 48]);
    expected.extend([6, 115, 112, 100, 121, 47, 49]);
    expected.extend([6, 115, 112, 100, 121, 47, 50]);
    expected.extend([6, 115, 112, 100, 121, 47, 51]);
    expected.extend([3, 104, 50, 99]);
    expected.extend([2, 104, 113]);
    assert_eq!(alpn, expected);
}

#[test]
fn common_alpn_reversed_leads_with_hq_and_keeps_fused_entry() {
    // the first probe uses the common list with reverse order
    let alpn = probe_table()[0].apln();
    assert_eq!(&alpn[0..6], &[0x00, 0x10, 0x00, 0x3c, 0x00, 0x3a]);
    assert_eq!(&alpn[6..9], &[2, 104, 113]);
    // the malformed spdy/3 entry keeps its fused h2 tail
    let fused = [6, 115, 112, 100, 121, 47, 51, 2, 104, 50];
    assert!(alpn.windows(fused.len()).any(|w| w == fused));
}

#[test]
fn key_share_extension_without_grease() {
    let ks = probe_table()[0].key_share();
    assert_eq!(ks.len(), 42);
    assert_eq!(&ks[0..10], &[0, 0x33, 0, 38, 0, 36, 0, 0x1d, 0, 0x20]);
}

#[test]
fn supported_versions_forward_and_reverse() {
    // second probe: support up to TLS 1.2, forward inner order
    let sv = probe_table()[1].supported_versions();
    assert_eq!(sv, vec![0, 0x2b, 0, 7, 6, 3, 1, 3, 2, 3, 3]);
    // first probe: the same list reversed
    let sv = probe_table()[0].supported_versions();
    assert_eq!(sv, vec![0, 0x2b, 0, 7, 6, 3, 3, 3, 2, 3, 1]);
}

#[test]
fn supported_versions_absent_without_tls13_or_12_support() {
    // third probe: TLS 1.2 wire version, support NONE: no supported_versions,
    // so the block ends with psk_key_exchange_modes
    let exts = probe_table()[2].get_extensions("example.com");
    assert_eq!(&exts[exts.len() - 6..], &[0, 0x2d, 0, 2, 1, 1]);
    // first probe: support up to TLS 1.2: the block ends with
    // supported_versions
    let exts = probe_table()[0].get_extensions("example.com");
    assert_eq!(&exts[exts.len() - 11..], &[0, 0x2b, 0, 7, 6, 3, 3, 3, 2, 3, 1]);
}
