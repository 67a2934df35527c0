//! Client library for a messaging webhook: builds and size-checks outbound
//! messages and their embeds, addresses the webhook's endpoints, and decides
//! what each exchange with the remote service yields.

pub mod client;
pub mod embed;
pub mod message;
pub mod webhook;

pub use crate::client::{Client, Limit, WebhookError};
