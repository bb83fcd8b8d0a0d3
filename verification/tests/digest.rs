use jarm::parse::{Extensions, Part};
use jarm::reduce::fingerprint_from_parts;
use sha2::Digest;

fn observation(cipher: &str, version: &str, alpn: &str, exts: &str) -> Part {
    Part {
        cipher: Some(cipher.to_string()),
        version: Some(version.to_string()),
        extensions: Extensions {
            version: Some(alpn.to_string()),
            fingerprint: Some(exts.to_string()),
        },
    }
}

#[test]
fn all_dead_scan_digest() {
    let parts: Vec<Part> = (0..10).map(|_| Part::default()).collect();
    assert_eq!(
        fingerprint_from_parts(&parts),
        "000000000000000000000000000000e3b0c44298fc1c149afbf4c8996fb924"
    );
}

#[test]
fn sha256_of_empty_string_matches_the_known_value() {
    let digest = sha2::Sha256::digest(b"");
    assert_eq!(
        hex::encode(digest),
        "e3b0c44298fc1c149afbf4c8996fb92427ae41e4649b934ca495991b7852b855"
    );
}

#[test]
fn digest_is_pinned_by_the_observations() {
    let ciphers = [
        "0004", "0005", "0007", "000a", "0016", "002f", "0033", "0035", "0039", "003c",
    ];
    let parts: Vec<Part> = ciphers
        .iter()
        .map(|c| observation(c, "0303", "", c))
        .collect();
    let digest = fingerprint_from_parts(&parts);
    assert_eq!(digest.len(), 62);
    // short codes 01..0a, each followed by 'd' for version 0303
    assert_eq!(&digest[..30], "01d02d03d04d05d06d07d08d09d0ad");
    // hash half: first 32 hex digits of SHA-256 over the concatenated
    // ALPN-and-extensions strings
    let ae: String = ciphers.concat();
    let sha = sha2::Sha256::digest(ae.as_bytes());
    assert_eq!(&digest[30..], &hex::encode(sha)[..32]);
}

#[test]
fn digest_depends_on_observation_order() {
    let ciphers = [
        "0004", "0005", "0007", "000a", "0016", "002f", "0033", "0035", "0039", "003c",
    ];
    let parts: Vec<Part> = ciphers
        .iter()
        .map(|c| observation(c, "0303", "", c))
        .collect();
    let reversed: Vec<Part> = ciphers
        .iter()
        .rev()
        .map(|c| observation(c, "0303", "", c))
        .collect();
    assert_ne!(fingerprint_from_parts(&parts), fingerprint_from_parts(&reversed));
}

#[test]
fn digest_characters_are_lowercase_hex() {
    let parts: Vec<Part> = (0..10)
        .map(|i| {
            if i % 2 == 0 {
                Part::default()
            } else {
                observation("c02f", "0304", "h2", "ff01-0010")
            }
        })
        .collect();
    let digest = fingerprint_from_parts(&parts);
    assert_eq!(digest.len(), 62);
    assert!(digest.chars().all(|c| c.is_ascii_hexdigit() && !c.is_ascii_uppercase()));
}

#[test]
fn parsed_alert_replies_digest_like_a_dead_target() {
    let mut alert = vec![0u8; 1484];
    alert[0] = 21;
    let parts: Vec<Part> = (0..10).map(|_| Part::new(alert.clone())).collect();
    assert_eq!(
        fingerprint_from_parts(&parts),
        "000000000000000000000000000000e3b0c44298fc1c149afbf4c8996fb924"
    );
}
