use kerbridge_client::device::{
    assertion, payload, public_key, thumbprint, to_sign, ASSERTION_LIFETIME_SECONDS,
};
use kerbridge_client::json::{i64_field, parse};

const IDENTITY: &str = "kb1|entra|33334444-dddd-5555-eeee-6666ffff7777";

/// The payload the broker parses, built without a TPM. Signing needs one; the shape does
/// not, and the shape is what a typo would break.
#[test]
fn the_assertion_payload_carries_what_the_broker_binds_to() {
    let payload = payload(IDENTITY, &[0x04; 65], "kerbridge://EXAMPLE.SITE", "n", 1_785_000_000);
    let parsed = parse(&payload).unwrap();
    assert_eq!(parsed.get("identity").unwrap().as_str(), Some(IDENTITY));
    assert_eq!(parsed.get("nonce").unwrap().as_str(), Some("n"));
    assert_eq!(parsed.get("aud").unwrap().as_str(), Some("kerbridge://EXAMPLE.SITE"));
    let encoded = to_sign(&payload);
    assert!(!encoded.contains('='), "base64url here is unpadded");
    assert!(!encoded.contains('+') && !encoded.contains('/'));
    assert_eq!(i64_field(&parsed, "exp"), Some(1_785_000_060));
    assert_eq!(ASSERTION_LIFETIME_SECONDS, 60);
}

#[test]
fn an_assertion_is_two_parts() {
    let signed = to_sign("{}");
    assert_eq!(signed, "e30");
    assert_eq!(assertion(&signed, &[0xff, 0xfe]), "e30.__4");
}

#[test]
fn a_thumbprint_is_a_digest() {
    // The SHA-256 of nothing, and of "abc".
    assert_eq!(thumbprint(&[]), "47DEQpj8HBSa-_TImW-5JCeuQeRkm5NMpJWZG3hSuFU");
    assert_eq!(thumbprint(b"abc"), "ungWv48Bz-pBQUDeXa4iI7ADYaOWF3qctBD_YfIAFa0");
}

#[test]
fn a_public_key_is_sent_unpadded() {
    for (bytes, text) in [
        (&b""[..], ""),
        (b"f", "Zg"),
        (b"fo", "Zm8"),
        (b"foo", "Zm9v"),
        (b"foob", "Zm9vYg"),
        (b"fooba", "Zm9vYmE"),
        (b"foobar", "Zm9vYmFy"),
        (&[0xfb, 0xff, 0xbf], "-_-_"),
    ] {
        assert_eq!(public_key(bytes), text);
    }
    assert_eq!(public_key(&[0x04; 65]).len(), 87);
}
