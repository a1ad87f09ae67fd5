use authtoken::codec::{decode, encode, Claims, TOKEN_TTL_SECONDS};
use authtoken::errors::Error;

const KEY: &[u8] = b"0123456789abcdef";

fn claims(sub: &str, exp: u64) -> Claims {
    Claims { sub: sub.to_string(), exp }
}

#[test]
fn roundtrip_returns_the_claims() {
    let c = claims("user_id_example", 10_000);
    let token = encode(&c, KEY);
    let decoded = decode(&token, KEY, 9_000).expect("token is live at 9000");
    assert_eq!(decoded, c);
}

#[test]
fn token_is_valid_through_its_last_whole_second() {
    let c = claims("user_id_example", 10_000);
    let token = encode(&c, KEY);
    assert_eq!(decode(&token, KEY, 10_000).expect("live at its expiry second"), c);
    assert_eq!(decode(&token, KEY, 10_001), Err(Error::Expired));
}

#[test]
fn encoding_is_deterministic() {
    let c = claims("user_id_example", 77);
    assert_eq!(encode(&c, KEY), encode(&c, KEY));
}

#[test]
fn flipping_any_bit_never_succeeds_and_never_reports_expired() {
    let c = claims("user_id_example", u64::MAX);
    let token = encode(&c, KEY);
    assert_eq!(decode(&token, KEY, u64::MAX).expect("untampered token is live"), c);
    let bytes = token.as_bytes();
    for i in 0..bytes.len() {
        for bit in 0..8 {
            let mut tampered = bytes.to_vec();
            tampered[i] ^= 1u8 << bit;
            let Ok(tampered) = String::from_utf8(tampered) else {
                continue;
            };
            let r = decode(&tampered, KEY, 0);
            assert!(r.is_err(), "bit {bit} of byte {i}: tampered token accepted");
            assert_ne!(r, Err(Error::Expired), "bit {bit} of byte {i}: misreported as expired");
        }
    }
}

#[test]
fn flipping_a_signature_bit_reports_invalid_signature() {
    let c = claims("user_id_example", u64::MAX);
    let token = encode(&c, KEY);
    let mut bytes = token.into_bytes();
    let last = bytes.len() - 1;
    // stay inside the base64url alphabet: '0' (0b0110000) becomes '1' (0b0110001)
    bytes[last] ^= 1;
    let tampered = String::from_utf8(bytes).unwrap();
    assert_eq!(decode(&tampered, KEY, 0), Err(Error::InvalidSignature));
}

#[test]
fn wrong_key_reports_invalid_signature() {
    let token = encode(&claims("user_id_example", 10_000), KEY);
    assert_eq!(decode(&token, b"another key", 0), Err(Error::InvalidSignature));
}

#[test]
fn expired_with_valid_signature_reports_expired() {
    let now: u64 = 5_000;
    let token = encode(&claims("user_id_example", now - 1), KEY);
    assert_eq!(decode(&token, KEY, now), Err(Error::Expired));
}

#[test]
fn forged_token_with_expired_timestamp_reports_invalid_signature() {
    let now: u64 = 5_000;
    let forged = encode(&claims("user_id_example", now - 1), b"attacker key");
    assert_eq!(decode(&forged, KEY, now), Err(Error::InvalidSignature));
}

#[test]
fn garbage_reports_malformed() {
    assert_eq!(decode("garbage", KEY, 0), Err(Error::Malformed));
    assert_eq!(decode("not.a.jwt", KEY, 0), Err(Error::Malformed));
    assert_eq!(decode("", KEY, 0), Err(Error::Malformed));
}

#[test]
fn well_signed_token_without_the_claim_shape_reports_malformed() {
    // a token signed under the right key whose payload lacks `exp`
    let mut payload = serde_json::Map::new();
    payload.insert("sub".to_string(), serde_json::Value::String("user_id_example".to_string()));
    let token = jsonwebtoken::encode(
        &jsonwebtoken::Header::default(),
        &serde_json::Value::Object(payload),
        &jsonwebtoken::EncodingKey::from_secret(KEY),
    )
    .unwrap();
    assert_eq!(decode(&token, KEY, 0), Err(Error::Malformed));
}

#[test]
fn ttl_is_sixty_seconds() {
    assert_eq!(TOKEN_TTL_SECONDS, 60);
}
