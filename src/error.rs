//! Errors of API requests.

use reqwest::Error as ReqwestError;
use vstd::prelude::*;

verus! {

#[verifier::external_type_specification]
#[verifier::external_body]
pub struct ExReqwestError(ReqwestError);

/// An error that can occur when making an API request.
#[derive(Debug)]
pub enum Error {
    /// An error that was reported by the API.
    Api(ApiError),
    /// An error that occurred during transport.
    TransportStd(ReqwestError),
}

impl From<ReqwestError> for Error {
    fn from(error: ReqwestError) -> (r: Self)
        ensures
            r == Error::TransportStd(error),
    {
        Error::TransportStd(error)
    }
}

impl vstd::std_specs::convert::FromSpecImpl<ReqwestError> for Error {
    open spec fn obeys_from_spec() -> bool {
        true
    }

    open spec fn from_spec(error: ReqwestError) -> Self {
        Error::TransportStd(error)
    }
}

/// The error schema of the API.
#[derive(Debug, Clone)]
pub struct ApiError {
    /// A broad categorization of the error. Safe for programmatic use.
    pub error_type: ErrorType,
    /// The particular error code. Safe for programmatic use.
    pub error_code: String,
    /// A developer-friendly representation of the error code. This may change
    /// over time and is not safe for programmatic use.
    pub error_message: String,
    /// A user-friendly representation of the error code; `None` if the error
    /// is not related to user action.
    pub display_message: Option<String>,
    /// A unique ID identifying the request, for troubleshooting. Omitted in
    /// errors provided by webhooks.
    pub request_id: Option<String>,
    /// The URL of a documentation page with more information about the error.
    pub documentation_url: Option<String>,
    /// Suggested steps for resolving the error.
    pub suggested_action: Option<String>,
}

/// A broad categorization of API errors.
#[derive(Debug, Copy, Clone, PartialEq, Eq, Structural)]
pub enum ErrorType {
    /// The Item may be invalid or not supported.
    ItemError,
    /// An error at the requested financial institution.
    InstitutionError,
    /// Planned maintenance, or a failure of the API itself.
    ApiError,
    /// An error of the Asset endpoints.
    AssetReportError,
    /// An error of the Payment Initiation endpoints.
    PaymentError,
    /// An error of the Bank Transfers endpoints.
    BankTransferError,
    /// An error of the Deposit Switch endpoints.
    DepositSwitchError,
    /// An error of the Income endpoints.
    IncomeVerificationError,
    /// Invalid parameters in the Sandbox environment.
    SandboxError,
    /// A malformed request that cannot be processed.
    InvalidRequest,
    /// All fields are provided, but some values are incorrect.
    InvalidInput,
    /// The request is valid, but its output would be unusable.
    InvalidResult,
    /// Too many requests in a short period of time.
    RateLimitExceeded,
    /// A Recaptcha challenge was presented or failed.
    RecaptchaError,
    /// An error in OAuth authentication.
    OauthError,
    /// Unknown or all other errors.
    Unknown,
}

} // verus!
