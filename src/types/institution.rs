//! Institution types.

use std::collections::HashMap;

use vstd::prelude::*;

verus! {

/// Optional parameters of the institution lookup by id.
#[derive(Clone, Debug)]
pub struct InstitutionRequestOptions {
    /// Whether to return the institution's logo, brand color and URL.
    pub include_optional_metadata: bool,
    /// Whether to include status information about the institution.
    pub include_status: bool,
    /// Whether to include the Auth methods that the institution supports.
    pub include_auth_metadata: bool,
    /// Whether to include the payment configurations that it supports.
    pub include_payment_initiation_metadata: bool,
}

/// The Payment Initiation configurations that an institution supports.
#[derive(Clone, Debug)]
pub struct PaymentInitiationMetadata {
    /// Whether international payments are supported.
    pub supports_international_payments: bool,
    /// Whether SEPA Instant payments are supported.
    pub supports_sepa_instant: bool,
    /// The largest payment amount, by currency.
    pub maximum_payment_amount: HashMap<String, String>,
    /// Whether refund details are supported.
    pub supports_refund_details: bool,
    /// The standing orders that are supported, if any.
    pub standing_order_metadata: Option<StandingOrderMetadata>,
}

/// The standing orders that an institution supports.
#[derive(Clone, Debug)]
pub struct StandingOrderMetadata {
    /// Whether an end date may be given.
    pub supports_standing_order_end_date: bool,
    /// Whether negative execution days may be given.
    pub supports_standing_order_negative_execution_days: bool,
    /// The intervals that are accepted.
    pub valid_standing_order_intervals: Vec<String>,
}

/// The Auth methods that an institution supports.
#[derive(Clone, Debug)]
pub struct AuthMetadata {
    /// The supported methods, if known.
    pub supported_methods: Option<SupportedMethods>,
}

/// Which Auth methods are supported.
#[derive(Clone, Copy, Debug, PartialEq, Eq, Structural)]
pub struct SupportedMethods {
    /// Instant Auth.
    pub instant_auth: bool,
    /// Instant Match.
    pub instant_match: bool,
    /// Automated micro-deposits.
    pub automated_micro_deposits: bool,
}

} // verus!
