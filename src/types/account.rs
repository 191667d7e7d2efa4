//! Account types.

use vstd::prelude::*;

verus! {

/// Account holder information.
#[derive(Clone, Debug)]
pub struct Owner {
    /// The names associated with the account by the financial institution.
    pub names: Vec<String>,
    /// The phone numbers associated with the account.
    pub phone_numbers: Vec<PhoneNumber>,
    /// The email addresses associated with the account.
    pub emails: Vec<EmailAddress>,
    /// The addresses associated with the account.
    pub addresses: Vec<Address>,
}

/// A phone number associated with an account.
#[derive(Clone, Debug)]
pub struct PhoneNumber {
    /// The phone number.
    pub data: String,
    /// Whether this is the primary number on the account.
    pub primary: Option<bool>,
    /// The type of phone number.
    pub ty: Option<PhoneNumberType>,
}

/// The type of a phone number.
#[derive(Clone, Debug)]
pub enum PhoneNumberType {
    /// A home number.
    Home,
    /// A work number.
    Work,
    /// An office number.
    Office,
    /// A mobile number.
    Mobile,
    /// A mobile number, as some institutions label it.
    Mobile1,
    /// Any other type, as the institution names it.
    Other(String),
}

/// An email address associated with an account.
#[derive(Clone, Debug)]
pub struct EmailAddress {
    /// The email address.
    pub data: String,
    /// Whether this is the primary email on the account.
    pub primary: bool,
    /// The type of email account.
    pub ty: EmailAddressType,
}

/// The type of an email account, as the financial institution describes it.
#[derive(Clone, Copy, Debug, PartialEq, Eq, Structural)]
pub enum EmailAddressType {
    /// The primary address.
    Primary,
    /// A secondary address.
    Secondary,
    /// Any other address.
    Other,
}

/// A physical address associated with an account.
#[derive(Clone, Debug)]
pub struct Address {
    /// The components of the address.
    pub data: AddressDetails,
    /// Whether this is the primary address on the account.
    pub primary: Option<bool>,
}

/// The components of an address.
#[derive(Clone, Debug)]
pub struct AddressDetails {
    /// The full city name.
    pub city: Option<String>,
    /// The region or state, e.g. `"NC"`.
    pub region: Option<String>,
    /// The full street address, e.g. `"564 Main Street, APT 15"`.
    pub street: String,
    /// The postal code.
    pub postal_code: Option<String>,
    /// The ISO 3166-1 alpha-2 country code.
    pub country: Option<String>,
}

/// Account types.
#[derive(Clone, Copy, Debug, PartialEq, Eq, Structural)]
pub enum AccountType {
    /// An account holding cash, in which funds are deposited.
    Depository,
    /// A credit card account.
    Credit,
    /// A loan account.
    Loan,
    /// An investment account.
    Investment,
    /// Another or an unknown account type.
    Other,
}

/// The verification status of an Auth Item initiated through micro-deposits.
#[derive(Clone, Copy, Debug, PartialEq, Eq, Structural)]
pub enum VerificationStatus {
    /// Pending automatic verification.
    PendingAutomaticVerification,
    /// Pending manual micro-deposit verification.
    PendingManualVerification,
    /// Automatically verified.
    AutomaticallyVerified,
    /// Manually verified.
    ManuallyVerified,
    /// Not verified within 7 calendar days; no longer attempted.
    VerificationExpired,
}

/// Options for the `balance` request.
#[derive(Clone, Debug, Default)]
pub struct BalanceRequestOptions {
    /// The `account_ids` to retrieve for the Item.
    pub account_ids: Vec<String>,
}

} // verus!
