//! Link and public token types.

use vstd::prelude::*;

verus! {

/// The response of creating a public token.
#[derive(Clone, Debug)]
pub struct CreatePublicTokenResponse {
    /// The public token.
    pub public_token: String,
    /// A unique identifier of the request.
    pub request_id: String,
}

/// The response of exchanging a public token.
#[derive(Clone, Debug)]
pub struct ExchangePublicTokenResponse {
    /// The access token of the Item.
    pub access_token: String,
    /// The ID of the Item.
    pub item_id: String,
    /// A unique identifier of the request.
    pub request_id: String,
}

/// The languages in which Link can be shown.
#[allow(non_camel_case_types)]
#[derive(Clone, Copy, Debug, PartialEq, Eq, Structural)]
pub enum SupportedLanguage {
    /// English.
    en,
    /// French.
    fr,
    /// Spanish.
    es,
    /// Dutch.
    nl,
}

/// The countries that Link supports.
#[derive(Clone, Copy, Debug, PartialEq, Eq, Structural)]
pub enum SupportedCountry {
    /// United States.
    US,
    /// Canada.
    CA,
    /// Spain.
    ES,
    /// France.
    FR,
    /// United Kingdom.
    GB,
    /// Ireland.
    IE,
    /// Netherlands.
    NL,
}

/// The end user of a Link session.
#[derive(Clone, Debug)]
pub struct EndUser {
    client_user_id: String,
}

/// The products that Link can initialize.
#[derive(Clone, Copy, Debug, PartialEq, Eq, Structural)]
pub enum SupportedProduct {
    /// Transactions.
    Transactions,
    /// Auth.
    Auth,
    /// Identity.
    Identity,
    /// Assets.
    Assets,
    /// Investments.
    Investments,
    /// Liabilities.
    Liabilities,
    /// Payment Initiation.
    PaymentInitiation,
}

/// The Payment Initiation configuration of a Link session.
#[derive(Clone, Debug)]
pub struct PaymentInitiationConfiguration {
    payment_id: String,
}

} // verus!
