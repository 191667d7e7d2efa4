//! Item webhooks.

use vstd::prelude::*;

verus! {

/// The kind of an Item webhook.
#[derive(Clone, Debug)]
pub enum ItemWebhookCode {
    /// An error was encountered with the Item.
    Error,
    /// New accounts are available for the Item.
    NewAccountsAvailable,
    /// The Item's access consent expires in 7 days.
    PendingExpiration {
        /// When the consent expires, in ISO 8601 format.
        consent_expiration_time: String,
    },
    /// The end user revoked the permission to access the Item.
    UserPermissionRevoked,
    /// The Item's webhook was updated.
    WebhookUpdateAcknowledged {
        /// The new webhook URL.
        new_webhook_url: String,
    },
}

/// A webhook about an Item.
#[derive(Clone, Debug)]
pub struct ItemWebhook {
    /// The kind of webhook.
    pub webhook_code: ItemWebhookCode,
    /// The ID of the Item that the webhook is about.
    pub item_id: String,
}

} // verus!
