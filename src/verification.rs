//! Verification of signed webhook deliveries.

pub mod codec;
pub mod jwk;
pub mod crypto;
pub mod token;
pub mod signature;
pub mod cache;
pub mod webhook;
