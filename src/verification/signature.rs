//! Checking a token's signature, freshness and body digest against one key.

use vstd::prelude::*;

use crate::error::Error;
use crate::verification::codec::{
    base64url_decoding, decode_base64url, decode_hex_digest, digest_from_hex, digests_equal,
    sha256, sha256_of,
};
use crate::verification::crypto::{
    be_value, bignum_from_be_bytes, decode_claims, ec_decoding_key, ec_public_key, jws_decoded,
    opt_view, p256_group, p256_point, public_key_pem, signature_validation, BigUint, ClaimFields,
};
use crate::verification::jwk::{EllipticCurve, Jwk, KeyParameters};
use crate::verification::token::JwsAlgorithm;

verus! {

/// The ways in which a webhook can fail to be verified.
#[derive(Debug)]
pub enum WebhookVerificationError {
    /// Fetching the verification keys failed.
    ApiError(Error),
    /// The fetched keys hold no usable key of the requested identifier.
    KeyNotFound,
    /// A required header or header parameter is missing.
    MissingParameter(String),
    /// The token declares an algorithm other than ES256.
    IncorrectAlgorithm,
    /// A value could not be decoded.
    CouldNotParse,
    /// The token's signature or claims did not validate.
    CouldNotValidate,
    /// A lower-level cryptographic operation failed.
    Cryptography,
}

impl From<Error> for WebhookVerificationError {
    fn from(error: Error) -> (r: Self)
        ensures
            r == WebhookVerificationError::ApiError(error),
    {
        WebhookVerificationError::ApiError(error)
    }
}

impl vstd::std_specs::convert::FromSpecImpl<Error> for WebhookVerificationError {
    open spec fn obeys_from_spec() -> bool {
        true
    }

    open spec fn from_spec(error: Error) -> Self {
        WebhookVerificationError::ApiError(error)
    }
}

/// The claims of a webhook token.
#[derive(Debug, Clone)]
pub struct Claims {
    /// Issued-at time, as a Unix timestamp.
    pub iat: u64,
    /// The hexadecimal SHA-256 digest of the webhook body.
    pub request_body_sha256: String,
}

/// How many seconds a token stays fresh after it was issued.
pub const MAX_TOKEN_AGE_SECS: u64 = 300;

/// Whether a token issued at `iat` is too old to accept at `now`.
pub open spec fn is_stale(iat: u64, now: u64) -> bool {
    iat + MAX_TOKEN_AGE_SECS < now
}

/// The verdict on a token's claims, once its signature has been accepted:
/// `false` for a stale token or a digest that is not the body's.
pub open spec fn claims_verdict(
    iat: u64,
    request_body_sha256: Seq<char>,
    body_digest: Seq<u8>,
    now: u64,
) -> Result<bool, WebhookVerificationError> {
    if is_stale(iat, now) {
        Ok(false)
    } else {
        match digest_from_hex(request_body_sha256) {
            Some(d) => Ok(d == body_digest),
            None => Err(WebhookVerificationError::CouldNotParse),
        }
    }
}

/// The verdict on the claim fields of a token whose signature has been
/// accepted: a missing claim does not validate.
pub open spec fn fields_verdict(
    iat: Option<u64>,
    request_body_sha256: Option<Seq<char>>,
    body_digest: Seq<u8>,
    now: u64,
) -> Result<bool, WebhookVerificationError> {
    match (iat, request_body_sha256) {
        (Some(iat), Some(digest_hex)) => claims_verdict(iat, digest_hex, body_digest, now),
        _ => Err(WebhookVerificationError::CouldNotValidate),
    }
}

/// The outcome of verifying `token` and `body` with `key` at `now`: a key
/// of another curve or type gives `Ok(false)`; coordinates that are no
/// base64url, or too long to read, give `CouldNotParse`; coordinates off the
/// curve give `Cryptography`; a token that does not verify under the key as
/// ES256 gives `CouldNotValidate`; otherwise the verdict on its claims.
pub open spec fn token_verified(
    key: Jwk,
    token: Seq<char>,
    body: Seq<u8>,
    now: u64,
    r: Result<bool, WebhookVerificationError>,
) -> bool {
    match key.algorithm {
        KeyParameters::EllipticCurve { curve, x, y } => if curve != EllipticCurve::P256 {
            r == Ok::<bool, WebhookVerificationError>(false)
        } else {
            match (base64url_decoding(x@), base64url_decoding(y@)) {
                (Some(xb), Some(yb)) => if xb.len() > i32::MAX || yb.len() > i32::MAX {
                    r == Err::<bool, WebhookVerificationError>(WebhookVerificationError::CouldNotParse)
                } else if !p256_point(xb, yb) {
                    r == Err::<bool, WebhookVerificationError>(WebhookVerificationError::Cryptography)
                } else {
                    match jws_decoded(token, xb, yb, JwsAlgorithm::Es256, Seq::empty()) {
                        None => r == Err::<bool, WebhookVerificationError>(
                            WebhookVerificationError::CouldNotValidate,
                        ),
                        Some((iat, digest_hex)) => r == fields_verdict(
                            iat,
                            digest_hex,
                            sha256_of(body),
                            now,
                        ),
                    }
                },
                _ => r == Err::<bool, WebhookVerificationError>(
                    WebhookVerificationError::CouldNotParse,
                ),
            }
        },
        _ => r == Ok::<bool, WebhookVerificationError>(false),
    }
}

/// Decodes an unpadded base64url coordinate into a big-endian unsigned
/// integer.
pub fn string_to_big_num(val: &str) -> (r: Result<BigUint, WebhookVerificationError>)
    ensures
        match base64url_decoding(val@) {
            Some(b) => if b.len() <= i32::MAX {
                r is Ok && r->Ok_0.be_bytes() == b && r->Ok_0.value() == be_value(b)
            } else {
                r matches Err(WebhookVerificationError::CouldNotParse)
            },
            None => r matches Err(WebhookVerificationError::CouldNotParse),
        },
{
    let bytes = match decode_base64url(val) {
        Ok(b) => b,
        Err(_) => return Err(WebhookVerificationError::CouldNotParse),
    };
    if bytes.len() > i32::MAX as usize {
        return Err(WebhookVerificationError::CouldNotParse);
    }
    match bignum_from_be_bytes(bytes.as_slice()) {
        Ok(n) => Ok(n),
        Err(_) => Err(WebhookVerificationError::CouldNotParse),
    }
}

impl Claims {
    /// The claims, where both are present with their types.
    pub fn from_fields(fields: ClaimFields) -> (r: Option<Claims>)
        ensures
            match (fields.iat, opt_view(fields.request_body_sha256)) {
                (Some(iat), Some(digest_hex)) => r matches Some(c) && c.iat == iat
                    && c.request_body_sha256@ == digest_hex,
                _ => r is None,
            },
    {
        match (fields.iat, fields.request_body_sha256) {
            (Some(iat), Some(request_body_sha256)) => Some(Claims { iat, request_body_sha256 }),
            _ => None,
        }
    }
}

/// Judges the claims of a token whose signature was accepted, against the
/// digest of the body that came with it.
pub fn check_claims(claims: &Claims, body_digest: &[u8; 32], now: u64) -> (r: Result<
    bool,
    WebhookVerificationError,
>)
    ensures
        r == claims_verdict(claims.iat, claims.request_body_sha256@, body_digest@, now),
{
    if now > MAX_TOKEN_AGE_SECS && now - MAX_TOKEN_AGE_SECS > claims.iat {
        return Ok(false);
    }
    let expected = match decode_hex_digest(claims.request_body_sha256.as_str()) {
        Ok(d) => d,
        Err(_) => return Err(WebhookVerificationError::CouldNotParse),
    };
    Ok(digests_equal(body_digest, &expected))
}

/// Verifies that `token` was signed by `key` with ES256, was issued no more
/// than five minutes before `now`, and carries the SHA-256 digest of
/// `webhook_bytes`.
pub fn verify_token_at(key: &Jwk, token: &str, webhook_bytes: &[u8], now: u64) -> (r: Result<
    bool,
    WebhookVerificationError,
>)
    ensures
        token_verified(*key, token@, webhook_bytes@, now, r),
{
    let (x, y) = match &key.algorithm {
        KeyParameters::EllipticCurve { curve: EllipticCurve::P256, x, y } => (x, y),
        _ => return Ok(false),
    };
    let x = string_to_big_num(x.as_str())?;
    let y = string_to_big_num(y.as_str())?;
    let group = match p256_group() {
        Ok(g) => g,
        Err(_) => return Err(WebhookVerificationError::Cryptography),
    };
    let public_key = match ec_public_key(&group, &x, &y) {
        Ok(k) => k,
        Err(_) => return Err(WebhookVerificationError::Cryptography),
    };
    let pem = match public_key_pem(&public_key) {
        Ok(p) => p,
        Err(_) => return Err(WebhookVerificationError::Cryptography),
    };
    let decoding_key = match ec_decoding_key(&pem) {
        Ok(k) => k,
        Err(_) => return Err(WebhookVerificationError::CouldNotParse),
    };
    let validation = signature_validation(JwsAlgorithm::Es256, Vec::new(), false);
    assert(validation.required_claims() =~= Seq::<Seq<char>>::empty());
    let claims = match decode_claims(token, &decoding_key, &validation) {
        Ok(fields) => match Claims::from_fields(fields) {
            Some(c) => c,
            None => return Err(WebhookVerificationError::CouldNotValidate),
        },
        Err(_) => return Err(WebhookVerificationError::CouldNotValidate),
    };
    let body_digest = sha256(webhook_bytes);
    check_claims(&claims, &body_digest, now)
}

/// Whether `key` is a P-256 key whose coordinates decode to a point under
/// which `token` verifies as ES256, with claims `iat` and `digest_hex`.
pub open spec fn accepted_by(
    key: Jwk,
    token: Seq<char>,
    iat: u64,
    digest_hex: Seq<char>,
) -> bool {
    match key.algorithm {
        KeyParameters::EllipticCurve { curve, x, y } => curve == EllipticCurve::P256 && match (
            base64url_decoding(x@),
            base64url_decoding(y@),
        ) {
            (Some(xb), Some(yb)) => xb.len() <= i32::MAX && yb.len() <= i32::MAX && p256_point(
                xb,
                yb,
            ) && jws_decoded(token, xb, yb, JwsAlgorithm::Es256, Seq::empty()) == Some(
                (Some(iat), Some(digest_hex)),
            ),
            _ => false,
        },
        _ => false,
    }
}

/// A token signed by the key, issued no more than five minutes before the
/// moment of verification and carrying the digest of the body, is accepted.
pub proof fn lemma_valid_delivery_accepted(
    key: Jwk,
    token: Seq<char>,
    body: Seq<u8>,
    now: u64,
    iat: u64,
    digest_hex: Seq<char>,
    r: Result<bool, WebhookVerificationError>,
)
    requires
        token_verified(key, token, body, now, r),
        accepted_by(key, token, iat, digest_hex),
        !is_stale(iat, now),
        digest_from_hex(digest_hex) == Some(sha256_of(body)),
    ensures
        r == Ok::<bool, WebhookVerificationError>(true),
{
}

/// A token signed by the key and issued more than five minutes before the
/// moment of verification gives `Ok(false)`, whatever body it came with.
pub proof fn lemma_stale_token_rejected(
    key: Jwk,
    token: Seq<char>,
    body: Seq<u8>,
    now: u64,
    iat: u64,
    digest_hex: Seq<char>,
    r: Result<bool, WebhookVerificationError>,
)
    requires
        token_verified(key, token, body, now, r),
        accepted_by(key, token, iat, digest_hex),
        is_stale(iat, now),
    ensures
        r == Ok::<bool, WebhookVerificationError>(false),
{
}

/// A fresh token signed by the key, whose digest is well formed but not
/// that of the body, gives `Ok(false)`: a body changed after signing is
/// rejected whenever its digest changes.
pub proof fn lemma_altered_body_rejected(
    key: Jwk,
    token: Seq<char>,
    altered: Seq<u8>,
    now: u64,
    iat: u64,
    digest_hex: Seq<char>,
    r: Result<bool, WebhookVerificationError>,
)
    requires
        token_verified(key, token, altered, now, r),
        accepted_by(key, token, iat, digest_hex),
        !is_stale(iat, now),
        digest_from_hex(digest_hex) matches Some(d) && d != sha256_of(altered),
    ensures
        r == Ok::<bool, WebhookVerificationError>(false),
{
}

} // verus!
