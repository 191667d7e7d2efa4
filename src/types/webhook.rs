//! Webhook types.

use vstd::prelude::*;

use crate::types::item::ItemWebhook;

verus! {

/// A broad categorization of a webhook error.
#[derive(Clone, Copy, Debug, PartialEq, Eq, Structural)]
pub enum WebhookErrorType {
    /// Invalid request.
    InvalidRequest,
    /// Invalid result.
    InvalidResult,
    /// Invalid input.
    InvalidInput,
    /// Institution error.
    InstitutionError,
    /// Rate limit exceeded.
    RateLimitExceeded,
    /// API error.
    ApiError,
    /// Item error.
    ItemError,
    /// Asset report error.
    AssetReportError,
    /// Recaptcha error.
    RecaptchaError,
    /// OAuth error.
    OauthError,
    /// Payment error.
    PaymentError,
    /// Bank transfer error.
    BankTransferError,
    /// Income verification error.
    IncomeVerificationError,
}

/// The error that a webhook reports, if any.
#[derive(Clone, Debug)]
pub struct WebhookError {
    /// A user-friendly representation of the error code.
    pub display_message: Option<String>,
    /// The particular error code.
    pub error_code: String,
    /// A developer-friendly representation of the error code.
    pub error_message: String,
    /// A broad categorization of the error.
    pub error_type: WebhookErrorType,
    /// A unique identifier of the request.
    pub request_id: Option<String>,
    /// A breakdown of the error by Item, for Asset report errors.
    pub causes: Option<Vec<String>>,
    /// The HTTP status code associated with the error.
    pub status: i32,
    /// The URL of a documentation page about the error.
    pub documentation_url: Option<String>,
    /// Suggested steps for resolving the error.
    pub suggested_action: Option<String>,
}

/// The type of a webhook.
#[derive(Clone, Debug)]
pub enum WebhookType {
    /// A webhook about an Item.
    Item {
        /// The content of the webhook.
        content: ItemWebhook,
    },
}

/// A webhook.
#[derive(Clone, Debug)]
pub struct Webhook {
    /// The type of webhook.
    pub webhook_type: WebhookType,
    /// The error that the webhook reports, if any.
    pub error: Option<WebhookError>,
}

} // verus!
