//! The webhook resource as the remote service describes it.

use vstd::prelude::*;

verus! {

/// All the information the service holds on one webhook.
pub struct Webhook {
    /// ID of the webhook.
    pub id: String,
    /// Type of the webhook.
    pub webhook_type: u8,
    /// ID of the guild the webhook is for.
    pub guild_id: String,
    /// ID of the channel the webhook is for.
    pub channel_id: String,
    /// Default name of the webhook.
    pub name: String,
    /// Default avatar hash of the webhook.
    pub avatar: Option<String>,
    /// Secure token of the webhook.
    pub token: String,
    /// URL used to execute the webhook.
    pub url: String,
}

} // verus!
