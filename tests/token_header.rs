use plaid::{extract_key_id, WebhookVerificationError};

fn b64url(bytes: &[u8]) -> String {
    base64::encode_config(bytes, base64::URL_SAFE_NO_PAD)
}

fn token_with_header(header_json: &str) -> String {
    format!("{}.{}.{}", b64url(header_json.as_bytes()), b64url(b"{}"), b64url(b"sig"))
}

#[test]
fn key_id_of_an_es256_token() {
    let token = token_with_header(r#"{"alg":"ES256","kid":"k1","typ":"JWT"}"#);
    assert_eq!(extract_key_id(&token).unwrap(), "k1");
}

#[test]
fn other_algorithm_is_refused() {
    for alg in ["HS256", "RS256", "ES384", "EdDSA", "none", "es256", "XX1"] {
        let token = token_with_header(&format!(r#"{{"alg":"{}","kid":"k1"}}"#, alg));
        assert!(matches!(extract_key_id(&token), Err(WebhookVerificationError::IncorrectAlgorithm)));
    }
}

#[test]
fn missing_kid_is_reported() {
    let token = token_with_header(r#"{"alg":"ES256"}"#);
    match extract_key_id(&token) {
        Err(WebhookVerificationError::MissingParameter(p)) => assert_eq!(p, "kid"),
        other => panic!("unexpected {:?}", other),
    }
}

#[test]
fn malformed_tokens_do_not_parse() {
    assert!(matches!(extract_key_id("not a token"), Err(WebhookVerificationError::CouldNotParse)));
    assert!(matches!(extract_key_id("a.b"), Err(WebhookVerificationError::CouldNotParse)));
    let bad_json = format!("{}.e30.c2ln", b64url(b"{\"alg\":"));
    assert!(matches!(extract_key_id(&bad_json), Err(WebhookVerificationError::CouldNotParse)));
    let no_alg = token_with_header(r#"{"kid":"k1"}"#);
    assert!(matches!(extract_key_id(&no_alg), Err(WebhookVerificationError::CouldNotParse)));
    let numeric_alg = token_with_header(r#"{"alg":256,"kid":"k1"}"#);
    assert!(matches!(extract_key_id(&numeric_alg), Err(WebhookVerificationError::CouldNotParse)));
    let four = format!("{}.x", token_with_header(r#"{"alg":"ES256","kid":"k1"}"#));
    assert!(matches!(extract_key_id(&four), Err(WebhookVerificationError::CouldNotParse)));
}

#[test]
fn alg_none_is_an_incorrect_algorithm() {
    assert!(matches!(
        extract_key_id("eyJhbGciOiJub25lIiwia2lkIjoiazEifQ.e30.c2ln"),
        Err(WebhookVerificationError::IncorrectAlgorithm)
    ));
}

#[test]
fn only_the_header_segment_is_read() {
    assert_eq!(extract_key_id("eyJhbGciOiJFUzI1NiIsImtpZCI6ImsxIn0.!!!.@@@").unwrap(), "k1");
    assert_eq!(extract_key_id("eyJhbGciOiJFUzI1NiIsImtpZCI6ImsxIn0..").unwrap(), "k1");
}
