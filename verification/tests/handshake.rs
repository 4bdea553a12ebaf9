use fpush::handshake::{handshake_credential, to_hex_lower};

#[test]
fn credential_is_hex_sha1_of_id_and_secret() {
    assert_eq!(
        handshake_credential("abc123", "secret"),
        "b67adbb9f7287b8f2d9c809b39a804b2123fc4c0"
    );
}

#[test]
fn credential_of_another_stream() {
    assert_eq!(
        handshake_credential("3BF96D32", "secret"),
        "b09ea9b3b7f586be8a08d0a3dd7466f110aeb136"
    );
}

#[test]
fn credential_depends_only_on_the_concatenation() {
    assert_eq!(handshake_credential("abc", "123secret"), handshake_credential("abc123", "secret"));
    assert_eq!(handshake_credential("", "abc"), "a9993e364706816aba3e25717850c26c9cd0d89d");
    assert_eq!(handshake_credential("abc", ""), "a9993e364706816aba3e25717850c26c9cd0d89d");
}

#[test]
fn credential_of_nothing_is_the_digest_of_the_empty_message() {
    assert_eq!(handshake_credential("", ""), "da39a3ee5e6b4b0d3255bfef95601890afd80709");
}

#[test]
fn credential_takes_text_as_utf8() {
    assert_eq!(
        handshake_credential("idé€", "𝄞key"),
        "7b16a134c598ad2f1f847f19aa2e7f3835dae48c"
    );
}

#[test]
fn credential_is_forty_lower_case_hex_digits() {
    let credential = handshake_credential("stream", "key");
    assert_eq!(credential.len(), 40);
    assert!(credential.chars().all(|c| c.is_ascii_digit() || ('a'..='f').contains(&c)));
}

#[test]
fn hex_of_bytes() {
    assert_eq!(to_hex_lower(&[]), "");
    assert_eq!(to_hex_lower(&[0x00]), "00");
    assert_eq!(to_hex_lower(&[0x0f, 0xf0, 0xff]), "0ff0ff");
    assert_eq!(to_hex_lower(&[0x01, 0x23, 0x45, 0x67, 0x89, 0xab, 0xcd, 0xef]), "0123456789abcdef");
}

#[test]
fn hex_of_every_byte() {
    for byte in 0..=255u8 {
        assert_eq!(to_hex_lower(&[byte]), format!("{:02x}", byte));
    }
}
