//! The elliptic-curve and JWS primitives that the verification path calls.
//!
//! Each outside value travels in a struct of this module together with the
//! plain bytes it was built from; the fields are private and only the
//! functions below build such structs, so what is said of the bytes holds of
//! the outside value.

use jsonwebtoken::errors::Error as JwtError;
use jsonwebtoken::Algorithm as JwtAlgorithm;
use openssl::bn::BigNum;
use openssl::ec::{EcGroup, EcKey};
use openssl::error::ErrorStack;
use openssl::pkey::Public;
use vstd::prelude::*;

use crate::verification::token::JwsAlgorithm;

verus! {

#[verifier::external_type_specification]
#[verifier::external_body]
pub struct ExBigNum(BigNum);

#[verifier::external_type_specification]
#[verifier::external_body]
pub struct ExErrorStack(ErrorStack);

#[verifier::external_type_specification]
#[verifier::external_body]
pub struct ExEcGroup(EcGroup);

#[verifier::external_type_specification]
#[verifier::external_body]
pub struct ExPublic(Public);

#[verifier::external_type_specification]
#[verifier::external_body]
#[verifier::reject_recursive_types(T)]
pub struct ExEcKey<T>(EcKey<T>);

#[verifier::external_type_specification]
#[verifier::external_body]
pub struct ExJwtError(JwtError);

#[verifier::external_type_specification]
#[verifier::external_body]
pub struct ExDecodingKey(jsonwebtoken::DecodingKey);

#[verifier::external_type_specification]
#[verifier::external_body]
pub struct ExValidation(jsonwebtoken::Validation);

/// The value of big-endian unsigned bytes.
pub open spec fn be_value(b: Seq<u8>) -> nat
    decreases b.len(),
{
    if b.len() == 0 {
        0
    } else {
        be_value(b.drop_last()) * 256 + b.last() as nat
    }
}

/// A big-endian unsigned integer, with the bytes it was read from.
pub struct BigUint {
    value: BigNum,
    bytes: Vec<u8>,
}

impl BigUint {
    /// The bytes the integer was read from.
    pub closed spec fn be_bytes(&self) -> Seq<u8> {
        self.bytes@
    }

    /// The integer's value.
    pub open spec fn value(&self) -> nat {
        be_value(self.be_bytes())
    }

    /// The integer as OpenSSL holds it.
    pub fn as_bignum(&self) -> &BigNum {
        &self.value
    }
}

/// The group of the NIST P-256 curve.
pub struct P256Group {
    group: EcGroup,
}

/// A public key on P-256, with the coordinate bytes it was built from.
pub struct P256PublicKey {
    key: EcKey<Public>,
    x: Vec<u8>,
    y: Vec<u8>,
}

/// The PEM form of a P-256 public key, with its coordinate bytes.
pub struct P256Pem {
    pem: Vec<u8>,
    x: Vec<u8>,
    y: Vec<u8>,
}

/// A JWS decoding key for a P-256 public key, with its coordinate bytes.
pub struct P256DecodingKey {
    key: jsonwebtoken::DecodingKey,
    x: Vec<u8>,
    y: Vec<u8>,
}

impl P256PublicKey {
    /// The x coordinate bytes.
    pub closed spec fn x(&self) -> Seq<u8> {
        self.x@
    }

    /// The y coordinate bytes.
    pub closed spec fn y(&self) -> Seq<u8> {
        self.y@
    }
}

impl P256Pem {
    /// The x coordinate bytes.
    pub closed spec fn x(&self) -> Seq<u8> {
        self.x@
    }

    /// The y coordinate bytes.
    pub closed spec fn y(&self) -> Seq<u8> {
        self.y@
    }
}

impl P256DecodingKey {
    /// The x coordinate bytes.
    pub closed spec fn x(&self) -> Seq<u8> {
        self.x@
    }

    /// The y coordinate bytes.
    pub closed spec fn y(&self) -> Seq<u8> {
        self.y@
    }
}

/// A validation for JWS decoding, with the settings it was made with.
pub struct SignatureValidation {
    validation: jsonwebtoken::Validation,
    alg: JwsAlgorithm,
    required_claims: Vec<String>,
    validate_exp: bool,
}

impl SignatureValidation {
    /// The one algorithm accepted.
    pub closed spec fn alg(&self) -> JwsAlgorithm {
        self.alg
    }

    /// The claims that must be present.
    pub closed spec fn required_claims(&self) -> Seq<Seq<char>> {
        self.required_claims@.map_values(|c: String| c@)
    }

    /// Whether the `exp` claim is checked against the clock.
    pub closed spec fn validate_exp(&self) -> bool {
        self.validate_exp
    }
}

/// The two claims of a token's payload that the verification reads, each
/// `None` where the payload lacks it or holds it with another JSON type.
#[derive(Debug, Clone)]
pub struct ClaimFields {
    /// The `iat` claim, where it is an unsigned integer.
    pub iat: Option<u64>,
    /// The `request_body_sha256` claim, where it is a string.
    pub request_body_sha256: Option<String>,
}

/// The view of an optional string.
pub open spec fn opt_view(o: Option<String>) -> Option<Seq<char>> {
    match o {
        Some(s) => Some(s@),
        None => None,
    }
}

/// Whether `(x, y)`, read as big-endian unsigned integers, are the affine
/// coordinates of a point of P-256.
pub uninterp spec fn p256_point(x: Seq<u8>, y: Seq<u8>) -> bool;

/// Whether the compact JWS `token` verifies under the P-256 public key
/// `(x, y)`, declaring the algorithm `alg` and carrying the claims
/// `required`; where it does, the payload's `iat` and `request_body_sha256`
/// as `ClaimFields` holds them.
pub uninterp spec fn jws_decoded(
    token: Seq<char>,
    x: Seq<u8>,
    y: Seq<u8>,
    alg: JwsAlgorithm,
    required: Seq<Seq<char>>,
) -> Option<(Option<u64>, Option<Seq<char>>)>;

/// Relies on `openssl::bn::BigNum::from_slice`: reads the bytes as a
/// big-endian unsigned integer; it asserts that their count fits in a C `int`
/// and fails only where OpenSSL cannot allocate.
#[verifier::external_body]
pub(crate) fn bignum_from_be_bytes(b: &[u8]) -> (r: Result<BigUint, ErrorStack>)
    requires
        b@.len() <= i32::MAX,
    ensures
        r is Ok,
        r matches Ok(n) ==> n.be_bytes() == b@,
{
    Ok(BigUint { value: BigNum::from_slice(b)?, bytes: b.to_vec() })
}

/// Relies on `openssl::ec::EcGroup::from_curve_name` for the NIST P-256
/// curve, which OpenSSL always has built in; it fails only where OpenSSL
/// cannot allocate.
#[verifier::external_body]
pub(crate) fn p256_group() -> (r: Result<P256Group, ErrorStack>)
    ensures
        r is Ok,
{
    Ok(P256Group { group: EcGroup::from_curve_name(openssl::nid::Nid::X9_62_PRIME256V1)? })
}

/// Relies on `openssl::ec::EcKey::from_public_key_affine_coordinates`: the
/// public key at `(x, y)`, or an error where that is no point of the curve.
#[verifier::external_body]
pub(crate) fn ec_public_key(group: &P256Group, x: &BigUint, y: &BigUint) -> (r: Result<
    P256PublicKey,
    ErrorStack,
>)
    ensures
        r is Ok <==> p256_point(x.be_bytes(), y.be_bytes()),
        r matches Ok(k) ==> k.x() == x.be_bytes() && k.y() == y.be_bytes(),
{
    let key = EcKey::from_public_key_affine_coordinates(&group.group, &x.value, &y.value)?;
    Ok(P256PublicKey { key, x: x.bytes.clone(), y: y.bytes.clone() })
}

/// Relies on `openssl::ec::EcKeyRef::public_key_to_pem`: the key as a PEM
/// SubjectPublicKeyInfo; it fails only where OpenSSL cannot allocate.
#[verifier::external_body]
pub(crate) fn public_key_pem(key: &P256PublicKey) -> (r: Result<P256Pem, ErrorStack>)
    ensures
        r is Ok,
        r matches Ok(p) ==> p.x() == key.x() && p.y() == key.y(),
{
    Ok(P256Pem { pem: key.key.public_key_to_pem()?, x: key.x.clone(), y: key.y.clone() })
}

/// Relies on `jsonwebtoken::DecodingKey::from_ec_pem`: it accepts the
/// `PUBLIC KEY` PEM of an `id-ecPublicKey` that OpenSSL writes.
#[verifier::external_body]
pub(crate) fn ec_decoding_key(pem: &P256Pem) -> (r: Result<P256DecodingKey, JwtError>)
    ensures
        r is Ok,
        r matches Ok(k) ==> k.x() == pem.x() && k.y() == pem.y(),
{
    let key = jsonwebtoken::DecodingKey::from_ec_pem(&pem.pem)?;
    Ok(P256DecodingKey { key, x: pem.x.clone(), y: pem.y.clone() })
}

/// Relies on `jsonwebtoken::Validation::new`: a validation that accepts the
/// one algorithm `alg`, with the required claims and the `exp` check given.
#[verifier::external_body]
pub(crate) fn signature_validation(
    alg: JwsAlgorithm,
    required_claims: Vec<String>,
    validate_exp: bool,
) -> (r: SignatureValidation)
    ensures
        r.alg() == alg,
        r.required_claims() == required_claims@.map_values(|c: String| c@),
        r.validate_exp() == validate_exp,
{
    let mut v = jsonwebtoken::Validation::new(match alg {
        JwsAlgorithm::Hs256 => JwtAlgorithm::HS256, JwsAlgorithm::Hs384 => JwtAlgorithm::HS384,
        JwsAlgorithm::Hs512 => JwtAlgorithm::HS512, JwsAlgorithm::Es256 => JwtAlgorithm::ES256,
        JwsAlgorithm::Es384 => JwtAlgorithm::ES384, JwsAlgorithm::Rs256 => JwtAlgorithm::RS256,
        JwsAlgorithm::Rs384 => JwtAlgorithm::RS384, JwsAlgorithm::Rs512 => JwtAlgorithm::RS512,
        JwsAlgorithm::Ps256 => JwtAlgorithm::PS256, JwsAlgorithm::Ps384 => JwtAlgorithm::PS384,
        JwsAlgorithm::Ps512 => JwtAlgorithm::PS512, JwsAlgorithm::EdDsa => JwtAlgorithm::EdDSA,
    });
    v.required_spec_claims = required_claims.iter().cloned().collect();
    v.validate_exp = validate_exp;
    SignatureValidation { validation: v, alg, required_claims, validate_exp }
}

/// Relies on `jsonwebtoken::decode`: it checks the token's signature with the
/// key under the validation, then parses its payload, whose two claims are
/// handed out as found there. Without the `exp` check nothing but its
/// arguments decides it.
#[verifier::external_body]
pub(crate) fn decode_claims(
    token: &str,
    key: &P256DecodingKey,
    validation: &SignatureValidation,
) -> (r: Result<ClaimFields, JwtError>)
    requires
        !validation.validate_exp(),
    ensures
        match r {
            Ok(c) => jws_decoded(token@, key.x(), key.y(), validation.alg(), validation.required_claims())
                == Some((c.iat, opt_view(c.request_body_sha256))),
            Err(_) => jws_decoded(token@, key.x(), key.y(), validation.alg(), validation.required_claims())
                is None,
        },
{
    let claims =
        jsonwebtoken::decode::<serde_json::Value>(token, &key.key, &validation.validation)?.claims;
    Ok(ClaimFields {
        iat: claims["iat"].as_u64(),
        request_body_sha256: claims["request_body_sha256"].as_str().map(String::from),
    })
}

} // verus!
