use bybit_rs::signer::{auth_message, auth_signature, sign, to_hex};

// The published HMAC-SHA256 test vector: a wrong digest or a wrong hex
// rendering would both fail here.
#[test]
fn hmac_sha256_test_vector() {
    let s = sign("key", "The quick brown fox jumps over the lazy dog");
    assert_eq!(s, "f7bc83f430538424b13298e6aa6fb143ef4d59a14946175997479dbc2d1a3cd8");
}

#[test]
fn signature_is_deterministic() {
    let a = sign("this-is-secret", "api_key=this-is-key&key=value");
    let b = sign("this-is-secret", "api_key=this-is-key&key=value");
    assert_eq!(a, b);
    assert_eq!(a.len(), 64);
    assert!(a.chars().all(|c| c.is_ascii_hexdigit() && !c.is_ascii_uppercase()));
}

// An empty secret still yields a well-formed signature; the remote peer, not
// this library, rejects it.
#[test]
fn empty_secret_signs() {
    let s = sign("", "GET/realtime1617706010000");
    assert_eq!(s.len(), 64);
}

#[test]
fn handshake_message() {
    assert_eq!(auth_message(1617706010000), "GET/realtime1617706010000");
    assert_eq!(
        auth_signature("this-is-secret", 1617706010000),
        sign("this-is-secret", "GET/realtime1617706010000"),
    );
}

#[test]
fn hex_rendering() {
    assert_eq!(to_hex(&vec![0xbe, 0xef]), "beef");
    assert_eq!(to_hex(&vec![0x00, 0x0f, 0xf0]), "000ff0");
    assert_eq!(to_hex(&Vec::new()), "");
}
