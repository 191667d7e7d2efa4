//! Types of a financial-data API and the verification of the signed webhooks
//! that it sends.

pub mod error;
pub mod text;
pub mod types;
pub mod verification;

pub use error::{ApiError, Error, ErrorType};
pub use types::account::{
    AccountType, Address, AddressDetails, BalanceRequestOptions, EmailAddress, EmailAddressType,
    Owner, PhoneNumber, PhoneNumberType, VerificationStatus,
};
pub use types::auth::{
    AccountNumbers, AchAccountNumbers, AuthRequestOptions, BacsAccountNumbers,
    EftAccountNumbers, InternationalAccountNumbers,
};
pub use types::environment::Environment;
pub use types::institution::{
    AuthMetadata, InstitutionRequestOptions, PaymentInitiationMetadata, StandingOrderMetadata,
    SupportedMethods,
};
pub use types::item::{ItemWebhook, ItemWebhookCode};
pub use types::link_token::{
    CreatePublicTokenResponse, EndUser, ExchangePublicTokenResponse,
    PaymentInitiationConfiguration, SupportedCountry, SupportedLanguage, SupportedProduct,
};
pub use types::webhook::{Webhook, WebhookError, WebhookErrorType, WebhookType};
pub use verification::cache::{KeyCache, KeyFetcher};
pub use verification::jwk::{EllipticCurve, Jwk, KeyParameters};
pub use verification::signature::{
    check_claims, string_to_big_num, verify_token_at, Claims,
    WebhookVerificationError,
};
pub use verification::token::{extract_key_id, JwsAlgorithm};
pub use verification::webhook::{
    verify_webhook_at, verify_webhook_cached, verify_webhook_fetched, VERIFICATION_HEADER,
};
