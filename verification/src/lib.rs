//! Payment-routing decision core: the model of routable connectors, static
//! routing algorithms, dynamic-routing configuration and the rule vocabulary,
//! together with the connector and request-handling rules that sit around it.
//!
//! Every function carries a contract that Verus proves; calls into other
//! crates are confined to small trusted functions whose doc comments say what
//! is taken on trust.

pub mod clock;
pub mod codec;
pub mod connector_auth;
pub mod connectors;
pub mod currency;
pub mod enums;
pub mod errors;
pub mod euclid;
pub mod ids;
pub mod json;
pub mod middleware;
pub mod numeric;
pub mod routing;
pub mod secret;
pub mod text;
