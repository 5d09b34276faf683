//! Verified core of an email-newsletter subscription service: the
//! confirmation workflow over a modeled store, and the transactional
//! email client's request construction and outcome classification.

pub mod configuration;
pub mod confirm;
mod credentials;
pub mod email_client;
pub mod store;
pub mod subscriptions;

pub use credentials::SecretString;
