//! What the library knows of individual payment processors: how their
//! statuses and events map to the platform's, and how their requests are
//! signed and authorised.

pub mod form;
pub mod payment;
pub mod paypal;
pub mod types;
pub mod zen;
