//! Zen: the shapes of its payments, refunds and webhooks, the rules that map
//! them to the platform's, and the signing of its checkout requests.

pub mod checkout;
pub mod requests;
pub mod response;
pub mod types;
