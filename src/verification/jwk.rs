//! The verification keys that sign webhooks, and when they may be trusted.

use vstd::prelude::*;

verus! {

/// The elliptic curves that a key can name.
#[derive(Debug, Clone, Copy, PartialEq, Eq, Structural)]
pub enum EllipticCurve {
    /// NIST P-256, the one curve that webhook signatures use.
    P256,
    /// NIST P-384.
    P384,
    /// NIST P-521.
    P521,
    /// Ed25519.
    Ed25519,
}

/// The key material of a JWK, by key type.
#[derive(Debug)]
pub enum KeyParameters {
    /// An elliptic-curve public key: its curve and its affine coordinates,
    /// each unpadded URL-safe base64 of a big-endian unsigned integer.
    EllipticCurve { curve: EllipticCurve, x: String, y: String },
    /// An RSA key.
    Rsa,
    /// A symmetric key.
    OctetKey,
    /// An octet key pair.
    OctetKeyPair,
}

/// A published verification key, with the times between which it is valid.
#[derive(Debug)]
pub struct Jwk {
    /// The identifier that a token's `kid` names.
    pub key_id: String,
    /// The key material.
    pub algorithm: KeyParameters,
    /// Unix timestamp of when the key was created.
    pub created_at: u64,
    /// Unix timestamp from which the key is no longer to be trusted.
    pub expired_at: Option<u64>,
}

/// Whether a key with expiry `expired_at` has expired at `now`: `None` where
/// it carries no expiry.
pub open spec fn expiry_state(expired_at: Option<u64>, now: u64) -> Option<bool> {
    match expired_at {
        Some(e) => Some(now >= e),
        None => None,
    }
}

/// Whether a key may be used at `now`: it has not expired.
pub open spec fn usable_at(key: Jwk, now: u64) -> bool {
    expiry_state(key.expired_at, now) != Some(true)
}

impl Clone for KeyParameters {
    fn clone(&self) -> (r: Self)
        ensures
            r == *self,
    {
        match self {
            KeyParameters::EllipticCurve { curve, x, y } => KeyParameters::EllipticCurve {
                curve: *curve,
                x: x.clone(),
                y: y.clone(),
            },
            KeyParameters::Rsa => KeyParameters::Rsa,
            KeyParameters::OctetKey => KeyParameters::OctetKey,
            KeyParameters::OctetKeyPair => KeyParameters::OctetKeyPair,
        }
    }
}

impl Clone for Jwk {
    fn clone(&self) -> (r: Self)
        ensures
            r == *self,
    {
        Jwk {
            key_id: self.key_id.clone(),
            algorithm: self.algorithm.clone(),
            created_at: self.created_at,
            expired_at: self.expired_at,
        }
    }
}

impl Jwk {
    /// `None` if the key carries no expiry, `Some(true)` if `now` has
    /// reached its expiry, `Some(false)` otherwise.
    pub fn is_expired(&self, now: u64) -> (r: Option<bool>)
        ensures
            r == expiry_state(self.expired_at, now),
    {
        match self.expired_at {
            Some(e) => Some(now >= e),
            None => None,
        }
    }
}

} // verus!
