//! PayPal: the shapes of its orders, payments, refunds, disputes and
//! webhooks, and the rules that map them to the platform's.

pub mod auth;
pub mod orders;
pub mod redirect;
pub mod requests;
pub mod responses;
pub mod status;
pub mod types;
pub mod verification;
pub mod webhooks;
