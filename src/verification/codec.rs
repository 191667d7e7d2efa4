//! Text and byte codecs that the verification path relies on: base64url,
//! hexadecimal digests and SHA-256.

use vstd::prelude::*;

verus! {

#[verifier::external_type_specification]
#[verifier::external_body]
pub struct ExDecodeError(base64::DecodeError);

#[verifier::external_type_specification]
#[verifier::external_body]
pub struct ExFromHexError(hex::FromHexError);

/// The bytes that the URL-safe base64 text `s` stands for, as `base64`'s
/// `URL_SAFE_NO_PAD` configuration reads it, or `None` where it refuses `s`.
pub uninterp spec fn base64url_decoding(s: Seq<char>) -> Option<Seq<u8>>;

/// The SHA-256 digest of `b`.
pub uninterp spec fn sha256_of(b: Seq<u8>) -> Seq<u8>;

/// The value of one hexadecimal digit, in either case.
pub open spec fn hex_digit_value(c: char) -> Option<u8> {
    let n = c as u32;
    if 48 <= n <= 57 {
        Some((n - 48) as u8)
    } else if 65 <= n <= 70 {
        Some((n - 55) as u8)
    } else if 97 <= n <= 102 {
        Some((n - 87) as u8)
    } else {
        None
    }
}

/// The 32 bytes written as 64 hexadecimal digits, two to a byte, high digit
/// first; `None` where `s` is anything else.
pub open spec fn digest_from_hex(s: Seq<char>) -> Option<Seq<u8>> {
    if s.len() == 64 && forall|i: int| 0 <= i < 64 ==> (#[trigger] hex_digit_value(s[i])) is Some {
        Some(
            Seq::new(
                32,
                |i: int|
                    (hex_digit_value(s[2 * i])->0 * 16 + hex_digit_value(s[2 * i + 1])->0) as u8,
            ),
        )
    } else {
        None
    }
}

/// Relies on `base64::decode_config` with `URL_SAFE_NO_PAD`: the decoded
/// bytes, or a decode error, as a function of the text alone.
#[verifier::external_body]
pub(crate) fn decode_base64url(s: &str) -> (r: Result<Vec<u8>, base64::DecodeError>)
    ensures
        match r {
            Ok(b) => base64url_decoding(s@) == Some(b@),
            Err(_) => base64url_decoding(s@) is None,
        },
{
    base64::decode_config(s, base64::URL_SAFE_NO_PAD)
}

/// Relies on `hex::FromHex` for `[u8; 32]`: it accepts exactly 64
/// hexadecimal digits of either case and reads them two to a byte.
#[verifier::external_body]
pub(crate) fn decode_hex_digest(s: &str) -> (r: Result<[u8; 32], hex::FromHexError>)
    ensures
        match r {
            Ok(d) => digest_from_hex(s@) == Some(d@),
            Err(_) => digest_from_hex(s@) is None,
        },
{
    hex::FromHex::from_hex(s)
}

/// Relies on `openssl::sha::sha256`: the digest of the bytes.
#[verifier::external_body]
pub(crate) fn sha256(b: &[u8]) -> (r: [u8; 32])
    ensures
        r@ == sha256_of(b@),
{
    openssl::sha::sha256(b)
}

/// Whether two digests hold the same bytes.
pub fn digests_equal(a: &[u8; 32], b: &[u8; 32]) -> (r: bool)
    ensures
        r == (a@ == b@),
{
    let mut i: usize = 0;
    while i < 32
        invariant
            0 <= i <= 32,
            a@.len() == 32,
            b@.len() == 32,
            forall|j: int| 0 <= j < i ==> a@[j] == b@[j],
        decreases 32 - i,
    {
        if a[i] != b[i] {
            return false;
        }
        i = i + 1;
    }
    assert(a@ =~= b@);
    true
}

} // verus!
