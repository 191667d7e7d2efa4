//! Reading the header of a compact signed token, without trusting it.

use serde_json::Error as JsonError;
use vstd::prelude::*;

use crate::verification::codec::{base64url_decoding, decode_base64url};
use crate::verification::crypto::opt_view;
use crate::verification::signature::WebhookVerificationError;

verus! {

#[verifier::external_type_specification]
#[verifier::external_body]
pub struct ExJsonError(JsonError);

/// The signature algorithms of JWS.
#[derive(Debug, Clone, Copy, PartialEq, Eq, Structural)]
pub enum JwsAlgorithm {
    /// HMAC using SHA-256.
    Hs256,
    /// HMAC using SHA-384.
    Hs384,
    /// HMAC using SHA-512.
    Hs512,
    /// ECDSA over P-256 using SHA-256: the one algorithm of webhook signatures.
    Es256,
    /// ECDSA over P-384 using SHA-384.
    Es384,
    /// RSASSA-PKCS1-v1_5 using SHA-256.
    Rs256,
    /// RSASSA-PKCS1-v1_5 using SHA-384.
    Rs384,
    /// RSASSA-PKCS1-v1_5 using SHA-512.
    Rs512,
    /// RSASSA-PSS using SHA-256.
    Ps256,
    /// RSASSA-PSS using SHA-384.
    Ps384,
    /// RSASSA-PSS using SHA-512.
    Ps512,
    /// Edwards-curve signatures.
    EdDsa,
}

/// The fields of a token header that routing reads, each `None` where the
/// header lacks it or holds it as anything but a string.
#[derive(Debug, Clone)]
pub struct HeaderFields {
    /// The declared signature algorithm.
    pub alg: Option<String>,
    /// The identifier of the key that signed the token.
    pub kid: Option<String>,
}

/// The number of dots in `s`.
pub open spec fn dot_count(s: Seq<char>) -> nat
    decreases s.len(),
{
    if s.len() == 0 {
        0
    } else {
        dot_count(s.drop_last()) + if s.last() == '.' {
            1nat
        } else {
            0nat
        }
    }
}

/// The position of the first dot of `s`, or its length where it has none.
pub open spec fn first_dot(s: Seq<char>) -> int
    decreases s.len(),
{
    if s.len() == 0 {
        0
    } else if first_dot(s.drop_last()) < s.len() - 1 {
        first_dot(s.drop_last())
    } else if s.last() == '.' {
        s.len() - 1
    } else {
        s.len() as int
    }
}

/// The header segment of a compact token: what stands before the first of
/// exactly two dots.
pub open spec fn header_segment(token: Seq<char>) -> Option<Seq<char>> {
    if dot_count(token) == 2 {
        Some(token.subrange(0, first_dot(token)))
    } else {
        None
    }
}

/// The `alg` and `kid` string members of the JSON text `b`, or `None` where
/// `b` is no JSON text.
pub uninterp spec fn json_header_fields(b: Seq<u8>) -> Option<(Option<Seq<char>>, Option<Seq<char>>)>;

/// The `alg` and `kid` that the header segment of `token` declares, or `None`
/// where there is no such segment, or it is no base64url of a JSON text.
pub open spec fn declared_header(token: Seq<char>) -> Option<(Option<Seq<char>>, Option<Seq<char>>)> {
    match header_segment(token) {
        Some(h) => match base64url_decoding(h) {
            Some(b) => json_header_fields(b),
            None => None,
        },
        None => None,
    }
}

/// The name of the one accepted algorithm.
pub open spec fn es256_name() -> Seq<char> {
    "ES256"@
}

/// The name of the header parameter that identifies the signing key.
pub open spec fn kid_parameter() -> Seq<char> {
    seq!['k', 'i', 'd']
}

/// The key identifier that `token` routes to: its header declares ES256 and
/// a `kid`.
pub open spec fn extracted_key_id(token: Seq<char>) -> Option<Seq<char>> {
    match declared_header(token) {
        Some((Some(alg), Some(kid))) => if alg == es256_name() {
            Some(kid)
        } else {
            None
        },
        _ => None,
    }
}

/// The error with which routing refuses `token`: an unreadable header, an
/// algorithm other than ES256, or a missing `kid`, in that order.
pub open spec fn key_id_refused(token: Seq<char>, e: WebhookVerificationError) -> bool {
    match declared_header(token) {
        Some((Some(alg), kid)) => if alg != es256_name() {
            e is IncorrectAlgorithm
        } else {
            kid is None && match e {
                WebhookVerificationError::MissingParameter(p) => p@ == kid_parameter(),
                _ => false,
            }
        },
        _ => e is CouldNotParse,
    }
}

/// What extracting the key identifier of `token` gives.
pub open spec fn key_id_extracted(token: Seq<char>, r: Result<String, WebhookVerificationError>) -> bool {
    match extracted_key_id(token) {
        Some(k) => r matches Ok(id) && id@ == k,
        None => r matches Err(e) && key_id_refused(token, e),
    }
}

/// Relies on `serde_json::from_slice` into a `serde_json::Value`: whether `b`
/// is JSON text depends on `b` alone, and so do its members.
#[verifier::external_body]
fn parse_header_json(b: &[u8]) -> (r: Result<HeaderFields, JsonError>)
    ensures
        match r {
            Ok(h) => json_header_fields(b@) == Some((opt_view(h.alg), opt_view(h.kid))),
            Err(_) => json_header_fields(b@) is None,
        },
{
    let v: serde_json::Value = serde_json::from_slice(b)?;
    Ok(HeaderFields {
        alg: v["alg"].as_str().map(String::from),
        kid: v["kid"].as_str().map(String::from),
    })
}

/// The header segment of a compact token, if it has exactly three segments.
pub fn split_header(token: &str) -> (r: Option<&str>)
    ensures
        match r {
            Some(h) => header_segment(token@) == Some(h@),
            None => header_segment(token@) is None,
        },
{
    let n = token.unicode_len();
    let mut dots: usize = 0;
    let mut first: usize = 0;
    let mut i: usize = 0;
    while i < n
        invariant
            n == token@.len(),
            0 <= i <= n,
            dots == dot_count(token@.subrange(0, i as int)),
            first == first_dot(token@.subrange(0, i as int)),
            first <= i,
            dots <= i,
        decreases n - i,
    {
        proof {
            assert(token@.subrange(0, i + 1).drop_last() =~= token@.subrange(0, i as int));
        }
        if token.get_char(i) == '.' {
            if dots == 0 {
                first = i;
            }
            dots = dots + 1;
        } else if dots == 0 {
            first = i + 1;
        }
        proof {
            lemma_first_dot_bounds(token@.subrange(0, i as int));
            lemma_dot_count_zero(token@.subrange(0, i as int));
        }
        i = i + 1;
    }
    assert(token@.subrange(0, n as int) =~= token@);
    if dots != 2 {
        return None;
    }
    Some(token.substring_char(0, first))
}

/// A prefix without dots has its first dot at its end.
proof fn lemma_dot_count_zero(s: Seq<char>)
    ensures
        dot_count(s) == 0 ==> first_dot(s) == s.len(),
        dot_count(s) > 0 ==> first_dot(s) < s.len(),
    decreases s.len(),
{
    if s.len() > 0 {
        lemma_dot_count_zero(s.drop_last());
    }
}

/// The first dot lies within the sequence or at its end.
proof fn lemma_first_dot_bounds(s: Seq<char>)
    ensures
        0 <= first_dot(s) <= s.len(),
    decreases s.len(),
{
    if s.len() > 0 {
        lemma_first_dot_bounds(s.drop_last());
    }
}

/// The identifier of the key that signed `token`, read from its header
/// segment alone, without checking the signature.
pub fn extract_key_id(token: &str) -> (r: Result<String, WebhookVerificationError>)
    ensures
        key_id_extracted(token@, r),
{
    let segment = match split_header(token) {
        Some(h) => h,
        None => return Err(WebhookVerificationError::CouldNotParse),
    };
    let bytes = match decode_base64url(segment) {
        Ok(b) => b,
        Err(_) => return Err(WebhookVerificationError::CouldNotParse),
    };
    let header = match parse_header_json(bytes.as_slice()) {
        Ok(h) => h,
        Err(_) => return Err(WebhookVerificationError::CouldNotParse),
    };
    let alg = match header.alg {
        Some(a) => a,
        None => return Err(WebhookVerificationError::CouldNotParse),
    };
    if alg != String::from_str("ES256") {
        return Err(WebhookVerificationError::IncorrectAlgorithm);
    }
    match header.kid {
        Some(kid) => Ok(kid),
        None => {
            let name = String::from_str("kid");
            proof {
                reveal_strlit("kid");
            }
            assert(name@ =~= kid_parameter());
            Err(WebhookVerificationError::MissingParameter(name))
        },
    }
}

} // verus!
