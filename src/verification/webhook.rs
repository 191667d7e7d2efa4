//! Verifying a webhook delivery: its signature header, the key that signed
//! it, and its body.

use vstd::prelude::*;

use crate::error::Error;
use crate::text::{eq_ignore_ascii_case, same_name};
use crate::verification::cache::{
    after_fetch, count_up, fetched_view, fresh_entry, holds_id, installed, KeyCache, KeyFetcher,
};
use crate::verification::crypto::opt_view;
use crate::verification::jwk::Jwk;
use crate::verification::signature::{token_verified, verify_token_at, WebhookVerificationError};
use crate::verification::token::{
    declared_header, es256_name, extract_key_id, extracted_key_id, key_id_refused,
};

verus! {

/// The name of the header that carries the signed token.
pub const VERIFICATION_HEADER: &'static str = "plaid-verification";

/// The header name that carries the signed token.
pub open spec fn verification_header() -> Seq<char> {
    "plaid-verification"@
}

/// The value of the first header of `headers` named `name`, ASCII case
/// ignored: `None` where there is no such header, `Some(None)` where its value
/// is no text.
pub open spec fn header_value(headers: Seq<(String, Option<String>)>, name: Seq<char>) -> Option<
    Option<Seq<char>>,
>
    decreases headers.len(),
{
    if headers.len() == 0 {
        None
    } else if same_name(headers[0].0@, name) {
        Some(opt_view(headers[0].1))
    } else {
        header_value(headers.drop_first(), name)
    }
}

/// The position of the first header named `name`, ASCII case ignored.
pub fn find_header(headers: &Vec<(String, Option<String>)>, name: &str) -> (r: Option<usize>)
    ensures
        match r {
            Some(i) => i < headers@.len() && header_value(headers@, name@) == Some(
                opt_view(headers@[i as int].1),
            ),
            None => header_value(headers@, name@) is None,
        },
{
    let mut i: usize = 0;
    assert(headers@.skip(0) =~= headers@);
    while i < headers.len()
        invariant
            0 <= i <= headers@.len(),
            header_value(headers@, name@) == header_value(headers@.skip(i as int), name@),
        decreases headers@.len() - i,
    {
        proof {
            assert(headers@.skip(i as int).drop_first() =~= headers@.skip(i + 1));
            assert(headers@.skip(i as int)[0] == headers@[i as int]);
        }
        if eq_ignore_ascii_case(headers[i].0.as_str(), name) {
            return Some(i);
        }
        i = i + 1;
    }
    None
}

/// The outcome of verifying the delivery `headers` and `body` at `now`
/// against a cache that went from `m0` to `m1` and from `f0` to `f1`
/// fetches, where a fetch, if one was made, handed back `fetched`.
pub open spec fn webhook_verified(
    m0: Map<Seq<char>, Jwk>,
    f0: u64,
    m1: Map<Seq<char>, Jwk>,
    f1: u64,
    headers: Seq<(String, Option<String>)>,
    body: Seq<u8>,
    now: u64,
    fetched: Result<Seq<Jwk>, Error>,
    r: Result<bool, WebhookVerificationError>,
) -> bool {
    let untouched = m1 == m0 && f1 == f0;
    match header_value(headers, verification_header()) {
        Some(Some(token)) => match extracted_key_id(token) {
            None => untouched && (r matches Err(e) && key_id_refused(token, e)),
            Some(id) => match fresh_entry(m0, id, now) {
                Some(k) => untouched && token_verified(k, token, body, now, r),
                None => f1 == count_up(f0) && m1 == after_fetch(m0, id, fetched, now).0
                    && match after_fetch(m0, id, fetched, now).1 {
                    Ok(k) => token_verified(k, token, body, now, r),
                    Err(e) => r == Err::<bool, WebhookVerificationError>(e),
                },
            },
        },
        _ => untouched && match r {
            Err(WebhookVerificationError::MissingParameter(p)) => p@ == verification_header(),
            _ => false,
        },
    }
}

/// Whether verifying the delivery `headers` at `now` against a cache that
/// holds `m` needs a fetch: the token routes to a key that has no fresh
/// entry in `m`.
pub open spec fn needs_fetch(
    m: Map<Seq<char>, Jwk>,
    headers: Seq<(String, Option<String>)>,
    now: u64,
) -> bool {
    match header_value(headers, verification_header()) {
        Some(Some(token)) => match extracted_key_id(token) {
            Some(id) => fresh_entry(m, id, now) is None,
            None => false,
        },
        _ => false,
    }
}

/// The signed token of a delivery and the key identifier it routes to.
fn route(headers: &Vec<(String, Option<String>)>) -> (r: Result<
    (&str, String),
    WebhookVerificationError,
>)
    ensures
        match header_value(headers@, verification_header()) {
            Some(Some(token)) => match r {
                Ok((t, id)) => t@ == token && extracted_key_id(token) == Some(id@),
                Err(e) => extracted_key_id(token) is None && key_id_refused(token, e),
            },
            _ => match r {
                Err(WebhookVerificationError::MissingParameter(p)) => p@ == verification_header(),
                _ => false,
            },
        },
{
    let token = match find_header(headers, VERIFICATION_HEADER) {
        Some(i) => match &headers[i].1 {
            Some(t) => t.as_str(),
            None => {
                return Err(
                    WebhookVerificationError::MissingParameter(String::from_str(VERIFICATION_HEADER)),
                )
            },
        },
        None => {
            return Err(
                WebhookVerificationError::MissingParameter(String::from_str(VERIFICATION_HEADER)),
            )
        },
    };
    match extract_key_id(token) {
        Ok(id) => Ok((token, id)),
        Err(e) => Err(e),
    }
}

/// Verifies a webhook delivery at `now` with the keys that `cache` already
/// holds, leaving the cache untouched: `None` where a fresh key has to be
/// fetched first.
pub fn verify_webhook_cached(
    cache: &KeyCache,
    headers: &Vec<(String, Option<String>)>,
    body: &[u8],
    now: u64,
) -> (r: Option<Result<bool, WebhookVerificationError>>)
    requires
        cache.wf(),
    ensures
        r is None <==> needs_fetch(cache@, headers@, now),
        r matches Some(v) ==> webhook_verified(
            cache@,
            cache.fetches(),
            cache@,
            cache.fetches(),
            headers@,
            body@,
            now,
            Ok(Seq::empty()),
            v,
        ),
{
    let (token, key_id) = match route(headers) {
        Ok(routed) => routed,
        Err(e) => return Some(Err(e)),
    };
    match cache.lookup(key_id.as_str(), now) {
        Some(key) => Some(verify_token_at(&key, token, body, now)),
        None => None,
    }
}

/// Verifies a webhook delivery at `now` where the key source, if asked,
/// hands back `fetched`: a fresh cached key is used as it is; otherwise the
/// fetch is counted, its keys installed, and the token checked with the key
/// it names.
pub fn verify_webhook_fetched(
    cache: &mut KeyCache,
    headers: &Vec<(String, Option<String>)>,
    body: &[u8],
    fetched: Result<Vec<Jwk>, Error>,
    now: u64,
) -> (r: Result<bool, WebhookVerificationError>)
    requires
        old(cache).wf(),
    ensures
        final(cache).wf(),
        webhook_verified(
            old(cache)@,
            old(cache).fetches(),
            final(cache)@,
            final(cache).fetches(),
            headers@,
            body@,
            now,
            fetched_view(fetched),
            r,
        ),
{
    let (token, key_id) = match route(headers) {
        Ok(routed) => routed,
        Err(e) => return Err(e),
    };
    match cache.lookup(key_id.as_str(), now) {
        Some(key) => return verify_token_at(&key, token, body, now),
        None => {},
    }
    cache.count_fetch();
    match cache.resolve_fetched(key_id.as_str(), fetched, now) {
        Ok(key) => verify_token_at(&key, token, body, now),
        Err(e) => Err(e),
    }
}

/// Verifies a webhook delivery at `now`: reads the signed token from its
/// verification header, resolves the key that the token names through
/// `cache`, calling `fetcher` once where no fresh key is cached, and checks
/// the token and `body` with that key.
pub fn verify_webhook_at<F: KeyFetcher>(
    cache: &mut KeyCache,
    headers: &Vec<(String, Option<String>)>,
    body: &[u8],
    fetcher: &mut F,
    now: u64,
) -> (r: Result<bool, WebhookVerificationError>)
    requires
        old(cache).wf(),
    ensures
        final(cache).wf(),
        exists|fetched: Result<Seq<Jwk>, Error>|
            webhook_verified(
                old(cache)@,
                old(cache).fetches(),
                final(cache)@,
                final(cache).fetches(),
                headers@,
                body@,
                now,
                fetched,
                r,
            ),
{
    match verify_webhook_cached(cache, headers, body, now) {
        Some(r) => r,
        None => {
            let fetched = fetcher.fetch_keys();
            let ghost seen = fetched_view(fetched);
            let r = verify_webhook_fetched(cache, headers, body, fetched, now);
            assert(webhook_verified(
                old(cache)@,
                old(cache).fetches(),
                cache@,
                cache.fetches(),
                headers@,
                body@,
                now,
                seen,
                r,
            ));
            r
        },
    }
}

/// A delivery without a verification header that holds text fails with
/// `MissingParameter` naming that header, before anything else is done.
pub proof fn lemma_missing_header_refused(
    m0: Map<Seq<char>, Jwk>,
    f0: u64,
    m1: Map<Seq<char>, Jwk>,
    f1: u64,
    headers: Seq<(String, Option<String>)>,
    body: Seq<u8>,
    now: u64,
    fetched: Result<Seq<Jwk>, Error>,
    r: Result<bool, WebhookVerificationError>,
)
    requires
        webhook_verified(m0, f0, m1, f1, headers, body, now, fetched, r),
        !(header_value(headers, verification_header()) matches Some(Some(_))),
    ensures
        m1 == m0,
        f1 == f0,
        match r {
            Err(WebhookVerificationError::MissingParameter(p)) => p@ == verification_header(),
            _ => false,
        },
{
}

/// A token whose header declares an algorithm other than ES256 fails with
/// `IncorrectAlgorithm` before any key is fetched or any signature checked:
/// the cache and its fetch count stay as they were.
pub proof fn lemma_wrong_algorithm_refused(
    m0: Map<Seq<char>, Jwk>,
    f0: u64,
    m1: Map<Seq<char>, Jwk>,
    f1: u64,
    headers: Seq<(String, Option<String>)>,
    body: Seq<u8>,
    now: u64,
    fetched: Result<Seq<Jwk>, Error>,
    r: Result<bool, WebhookVerificationError>,
    token: Seq<char>,
)
    requires
        webhook_verified(m0, f0, m1, f1, headers, body, now, fetched, r),
        header_value(headers, verification_header()) == Some(Some(token)),
        declared_header(token) matches Some((Some(alg), _)) && alg != es256_name(),
    ensures
        r matches Err(WebhookVerificationError::IncorrectAlgorithm),
        m1 == m0,
        f1 == f0,
{
}

/// A token whose key is not cached, or has expired there, and which the
/// fetched key set does not hold, fails with `KeyNotFound`; the fetched keys
/// are installed all the same.
pub proof fn lemma_unknown_key_not_found(
    m0: Map<Seq<char>, Jwk>,
    f0: u64,
    m1: Map<Seq<char>, Jwk>,
    f1: u64,
    headers: Seq<(String, Option<String>)>,
    body: Seq<u8>,
    now: u64,
    keys: Seq<Jwk>,
    r: Result<bool, WebhookVerificationError>,
    token: Seq<char>,
    id: Seq<char>,
)
    requires
        webhook_verified(m0, f0, m1, f1, headers, body, now, Ok(keys), r),
        header_value(headers, verification_header()) == Some(Some(token)),
        extracted_key_id(token) == Some(id),
        fresh_entry(m0, id, now) is None,
        !holds_id(keys, id),
    ensures
        r == Err::<bool, WebhookVerificationError>(WebhookVerificationError::KeyNotFound),
        f1 == count_up(f0),
        m1 == installed(m0, keys),
{
}

} // verus!
