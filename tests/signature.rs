use openssl::bn::{BigNum, BigNumContext};
use openssl::ec::{EcGroup, EcKey};
use openssl::nid::Nid;
use openssl::pkey::PKey;
use plaid::verification::crypto::ClaimFields;
use plaid::{
    check_claims, string_to_big_num, verify_token_at, Claims, EllipticCurve, Jwk, KeyParameters,
    WebhookVerificationError,
};

const ISSUED_AT: u64 = 1_700_000_000;

struct Signer {
    jwk: Jwk,
    encoding_key: jsonwebtoken::EncodingKey,
}

fn b64url(bytes: &[u8]) -> String {
    base64::encode_config(bytes, base64::URL_SAFE_NO_PAD)
}

fn signer(kid: &str) -> Signer {
    let group = EcGroup::from_curve_name(Nid::X9_62_PRIME256V1).unwrap();
    let key = EcKey::generate(&group).unwrap();
    let mut x = BigNum::new().unwrap();
    let mut y = BigNum::new().unwrap();
    let mut ctx = BigNumContext::new().unwrap();
    key.public_key().affine_coordinates(&group, &mut x, &mut y, &mut ctx).unwrap();
    let pem = PKey::from_ec_key(key).unwrap().private_key_to_pem_pkcs8().unwrap();
    Signer {
        jwk: Jwk {
            key_id: kid.to_string(),
            algorithm: KeyParameters::EllipticCurve {
                curve: EllipticCurve::P256,
                x: b64url(&x.to_vec()),
                y: b64url(&y.to_vec()),
            },
            created_at: ISSUED_AT - 1000,
            expired_at: None,
        },
        encoding_key: jsonwebtoken::EncodingKey::from_ec_pem(&pem).unwrap(),
    }
}

fn claims(iat: Option<u64>, digest: Option<&str>) -> serde_json::Value {
    let mut map = serde_json::Map::new();
    if let Some(iat) = iat {
        map.insert("iat".to_string(), serde_json::Value::from(iat));
    }
    if let Some(digest) = digest {
        map.insert("request_body_sha256".to_string(), serde_json::Value::from(digest));
    }
    serde_json::Value::Object(map)
}

fn body_digest(body: &[u8]) -> String {
    hex::encode(openssl::sha::sha256(body))
}

fn sign(s: &Signer, kid: &str, claims: &serde_json::Value) -> String {
    let mut header = jsonwebtoken::Header::new(jsonwebtoken::Algorithm::ES256);
    header.kid = Some(kid.to_string());
    jsonwebtoken::encode(&header, claims, &s.encoding_key).unwrap()
}

fn signed_body(s: &Signer, body: &[u8], iat: u64) -> String {
    sign(s, "k1", &claims(Some(iat), Some(&body_digest(body))))
}

#[test]
fn valid_signature_fresh_token_matching_body_is_accepted() {
    let s = signer("k1");
    let body = br#"{"webhook_type":"ITEM"}"#;
    let token = signed_body(&s, body, ISSUED_AT);
    assert!(matches!(verify_token_at(&s.jwk, &token, body, ISSUED_AT), Ok(true)));
    assert!(matches!(verify_token_at(&s.jwk, &token, body, ISSUED_AT + 300), Ok(true)));
}

#[test]
fn body_changed_by_one_byte_is_rejected() {
    let s = signer("k1");
    let body = br#"{"webhook_type":"ITEM"}"#.to_vec();
    let token = signed_body(&s, &body, ISSUED_AT);
    let mut altered = body.clone();
    altered[3] ^= 1;
    assert!(matches!(verify_token_at(&s.jwk, &token, &altered, ISSUED_AT), Ok(false)));
}

#[test]
fn token_older_than_five_minutes_is_rejected() {
    let s = signer("k1");
    let body = b"payload";
    let token = signed_body(&s, body, ISSUED_AT);
    assert!(matches!(verify_token_at(&s.jwk, &token, body, ISSUED_AT + 301), Ok(false)));
    assert!(matches!(verify_token_at(&s.jwk, &token, body, ISSUED_AT + 300), Ok(true)));
    assert!(matches!(verify_token_at(&s.jwk, &token, body, ISSUED_AT + 10_000), Ok(false)));
}

#[test]
fn token_from_the_future_is_accepted() {
    let s = signer("k1");
    let body = b"payload";
    let token = signed_body(&s, body, ISSUED_AT + 3600);
    assert!(matches!(verify_token_at(&s.jwk, &token, body, ISSUED_AT), Ok(true)));
}

#[test]
fn early_clock_does_not_underflow() {
    let s = signer("k1");
    let body = b"payload";
    let token = signed_body(&s, body, 5);
    assert!(matches!(verify_token_at(&s.jwk, &token, body, 100), Ok(true)));
}

#[test]
fn signature_of_another_key_does_not_validate() {
    let s = signer("k1");
    let other = signer("k1");
    let body = b"payload";
    let token = signed_body(&other, body, ISSUED_AT);
    assert!(matches!(
        verify_token_at(&s.jwk, &token, body, ISSUED_AT),
        Err(WebhookVerificationError::CouldNotValidate)
    ));
}

#[test]
fn key_of_another_curve_gives_false() {
    let s = signer("k1");
    let body = b"payload";
    let token = signed_body(&s, body, ISSUED_AT);
    let mut key = s.jwk.clone();
    if let KeyParameters::EllipticCurve { curve, .. } = &mut key.algorithm {
        *curve = EllipticCurve::P384;
    }
    assert!(matches!(verify_token_at(&key, &token, body, ISSUED_AT), Ok(false)));
    key.algorithm = KeyParameters::Rsa;
    assert!(matches!(verify_token_at(&key, &token, body, ISSUED_AT), Ok(false)));
}

#[test]
fn malformed_coordinate_does_not_parse() {
    let s = signer("k1");
    let body = b"payload";
    let token = signed_body(&s, body, ISSUED_AT);
    let mut key = s.jwk.clone();
    if let KeyParameters::EllipticCurve { y, .. } = &mut key.algorithm {
        *y = "not base64!".to_string();
    }
    assert!(matches!(
        verify_token_at(&key, &token, body, ISSUED_AT),
        Err(WebhookVerificationError::CouldNotParse)
    ));
}

#[test]
fn point_off_the_curve_is_a_cryptography_error() {
    let s = signer("k1");
    let body = b"payload";
    let token = signed_body(&s, body, ISSUED_AT);
    let mut key = s.jwk.clone();
    if let KeyParameters::EllipticCurve { x, y, .. } = &mut key.algorithm {
        *x = b64url(&[1]);
        *y = b64url(&[1]);
    }
    assert!(matches!(
        verify_token_at(&key, &token, body, ISSUED_AT),
        Err(WebhookVerificationError::Cryptography)
    ));
}

#[test]
fn missing_claim_does_not_validate() {
    let s = signer("k1");
    let body = b"payload";
    let token = sign(&s, "k1", &claims(None, Some(&body_digest(body))));
    assert!(matches!(
        verify_token_at(&s.jwk, &token, body, ISSUED_AT),
        Err(WebhookVerificationError::CouldNotValidate)
    ));
    let token = sign(&s, "k1", &claims(Some(ISSUED_AT), None));
    assert!(matches!(
        verify_token_at(&s.jwk, &token, body, ISSUED_AT),
        Err(WebhookVerificationError::CouldNotValidate)
    ));
}

#[test]
fn digest_that_is_not_hex_does_not_parse() {
    let s = signer("k1");
    let body = b"payload";
    let token = sign(&s, "k1", &claims(Some(ISSUED_AT), Some("zz")));
    assert!(matches!(
        verify_token_at(&s.jwk, &token, body, ISSUED_AT),
        Err(WebhookVerificationError::CouldNotParse)
    ));
}

#[test]
fn check_claims_compares_the_decoded_digest() {
    let digest = openssl::sha::sha256(b"abc");
    let fresh = Claims { iat: 1000, request_body_sha256: hex::encode_upper(digest) };
    assert!(matches!(check_claims(&fresh, &digest, 1000), Ok(true)));
    assert!(matches!(check_claims(&fresh, &digest, 1300), Ok(true)));
    assert!(matches!(check_claims(&fresh, &digest, 1301), Ok(false)));
    assert!(matches!(check_claims(&fresh, &digest, 0), Ok(true)));
    let other = openssl::sha::sha256(b"abd");
    assert!(matches!(check_claims(&fresh, &other, 1000), Ok(false)));
    let short = Claims { iat: 1000, request_body_sha256: hex::encode(&digest[..31]) };
    assert!(matches!(
        check_claims(&short, &digest, 1000),
        Err(WebhookVerificationError::CouldNotParse)
    ));
    let stale_and_short = Claims { iat: 1000, request_body_sha256: "zz".to_string() };
    assert!(matches!(check_claims(&stale_and_short, &digest, 2000), Ok(false)));
}

#[test]
fn claims_need_both_fields() {
    let both = ClaimFields { iat: Some(7), request_body_sha256: Some("ab".to_string()) };
    let c = Claims::from_fields(both).unwrap();
    assert_eq!(c.iat, 7);
    assert_eq!(c.request_body_sha256, "ab");
    assert!(Claims::from_fields(ClaimFields { iat: None, request_body_sha256: Some("ab".to_string()) })
        .is_none());
    assert!(Claims::from_fields(ClaimFields { iat: Some(7), request_body_sha256: None }).is_none());
}

#[test]
fn coordinates_decode_as_big_endian_integers() {
    let n = string_to_big_num("AQI").unwrap();
    assert_eq!(n.as_bignum().to_vec(), vec![1, 2]);
    assert_eq!(*n.as_bignum(), BigNum::from_u32(258).unwrap());
    assert_eq!(*string_to_big_num("AQAB").unwrap().as_bignum(), BigNum::from_u32(65537).unwrap());
    assert_eq!(*string_to_big_num("_w").unwrap().as_bignum(), BigNum::from_u32(255).unwrap());
    assert_eq!(*string_to_big_num("AAAB").unwrap().as_bignum(), BigNum::from_u32(1).unwrap());
    assert!(matches!(string_to_big_num("+/8"), Err(WebhookVerificationError::CouldNotParse)));
    assert!(matches!(string_to_big_num("A"), Err(WebhookVerificationError::CouldNotParse)));
}
