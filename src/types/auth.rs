//! Auth types.

use vstd::prelude::*;

verus! {

/// Options for the `auth` request.
#[derive(Clone, Debug, Default)]
pub struct AuthRequestOptions {
    /// The `account_ids` to retrieve for the Item.
    pub account_ids: Vec<String>,
}

/// The identifying numbers used for electronic transfers to and from the
/// accounts, by number type.
#[derive(Clone, Debug)]
pub struct AccountNumbers {
    /// ACH numbers.
    pub ach: Vec<AchAccountNumbers>,
    /// EFT numbers.
    pub eft: Vec<EftAccountNumbers>,
    /// IBAN numbers.
    pub international: Vec<InternationalAccountNumbers>,
    /// BACS numbers.
    pub bacs: Vec<BacsAccountNumbers>,
}

/// The numbers identifying an ACH account.
#[derive(Clone, Debug)]
pub struct AchAccountNumbers {
    /// The account ID associated with the numbers.
    pub account_id: String,
    /// The ACH account number.
    pub account: String,
    /// The ACH routing number.
    pub routing: String,
    /// The wire transfer routing number, if available.
    pub wire_routing: Option<String>,
}

/// The numbers identifying an EFT account.
#[derive(Clone, Debug)]
pub struct EftAccountNumbers {
    /// The account ID associated with the numbers.
    pub account_id: String,
    /// The EFT account number.
    pub account: String,
    /// The EFT institution number.
    pub institution: String,
    /// The EFT branch number.
    pub branch: String,
}

/// The numbers identifying an IBAN account.
#[derive(Clone, Debug)]
pub struct InternationalAccountNumbers {
    /// The account ID associated with the numbers.
    pub account_id: String,
    /// The International Bank Account Number.
    pub iban: String,
    /// The Bank Identifier Code.
    pub bic: String,
}

/// The numbers identifying a BACS account.
#[derive(Clone, Debug)]
pub struct BacsAccountNumbers {
    /// The account ID associated with the numbers.
    pub account_id: String,
    /// The BACS account number.
    pub account: String,
    /// The BACS sort code.
    pub sort_code: String,
}

} // verus!
