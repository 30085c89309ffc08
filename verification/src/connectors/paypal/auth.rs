//! PayPal's credentials and the authorization header made from them.

use vstd::prelude::*;
use vstd::std_specs::convert::TryFromSpecImpl;
use vstd::utf8::encode_utf8;

use crate::codec::{base64_encode, base64_standard};
use crate::connectors::types::{ConnectorAuthType, ConnectorError};
use crate::secret::Secret;

verus! {

/// The credentials of a merchant integrated directly.
pub struct StandardFlowCredentials {
    pub client_id: Secret,
    pub client_secret: Secret,
}

/// The credentials of a merchant integrated through a partner.
pub struct PartnerFlowCredentials {
    pub client_id: Secret,
    pub client_secret: Secret,
    pub payer_id: Secret,
}

/// The credentials of either integration.
pub enum PaypalConnectorCredentials {
    StandardIntegration(StandardFlowCredentials),
    PartnerIntegration(PartnerFlowCredentials),
}

/// What is configured for PayPal: credentials, or a placeholder until they
/// are.
pub enum PaypalAuthType {
    TemporaryAuth,
    AuthWithDetails(PaypalConnectorCredentials),
}

/// The client id of either integration.
pub open spec fn client_id_of(credentials: PaypalConnectorCredentials) -> Secret {
    match credentials {
        PaypalConnectorCredentials::StandardIntegration(item) => item.client_id,
        PaypalConnectorCredentials::PartnerIntegration(item) => item.client_id,
    }
}

/// The client secret of either integration.
pub open spec fn client_secret_of(credentials: PaypalConnectorCredentials) -> Secret {
    match credentials {
        PaypalConnectorCredentials::StandardIntegration(item) => item.client_secret,
        PaypalConnectorCredentials::PartnerIntegration(item) => item.client_secret,
    }
}

/// The payer id, which only a partner integration has.
pub open spec fn payer_id_of(credentials: PaypalConnectorCredentials) -> Option<Secret> {
    match credentials {
        PaypalConnectorCredentials::StandardIntegration(_) => None,
        PaypalConnectorCredentials::PartnerIntegration(item) => Some(item.payer_id),
    }
}

/// What is encoded into the authorization header: the client id, a colon,
/// the client secret.
pub open spec fn authorization_text(credentials: PaypalConnectorCredentials) -> Seq<char> {
    client_id_of(credentials)@ + seq![':'] + client_secret_of(credentials)@
}

/// The authorization header: the word `Basic`, a space, and the base64
/// encoding of the authorization text.
pub open spec fn authorization_value(credentials: PaypalConnectorCredentials) -> Seq<char> {
    "Basic "@ + base64_standard(encode_utf8(authorization_text(credentials)))
}

/// What PayPal is configured with by the platform's credentials: a body key
/// is a direct integration, a signature key is a partner integration with
/// the API secret as payer id, and a placeholder stays one. Nothing else is
/// a configuration for PayPal.
pub open spec fn paypal_auth_of(auth_type: &ConnectorAuthType) -> Result<
    PaypalAuthType,
    ConnectorError,
> {
    match *auth_type {
        ConnectorAuthType::BodyKey { api_key, key1 } => Ok(
            PaypalAuthType::AuthWithDetails(
                PaypalConnectorCredentials::StandardIntegration(
                    StandardFlowCredentials { client_id: key1, client_secret: api_key },
                ),
            ),
        ),
        ConnectorAuthType::SignatureKey { api_key, key1, api_secret } => Ok(
            PaypalAuthType::AuthWithDetails(
                PaypalConnectorCredentials::PartnerIntegration(
                    PartnerFlowCredentials {
                        client_id: key1,
                        client_secret: api_key,
                        payer_id: api_secret,
                    },
                ),
            ),
        ),
        ConnectorAuthType::TemporaryAuth => Ok(PaypalAuthType::TemporaryAuth),
        _ => Err(ConnectorError::FailedToObtainAuthType),
    }
}

impl PaypalConnectorCredentials {
    pub fn get_client_id(&self) -> (res: Secret)
        ensures
            res == client_id_of(*self),
    {
        match self {
            PaypalConnectorCredentials::StandardIntegration(item) => item.client_id.clone(),
            PaypalConnectorCredentials::PartnerIntegration(item) => item.client_id.clone(),
        }
    }

    pub fn get_client_secret(&self) -> (res: Secret)
        ensures
            res == client_secret_of(*self),
    {
        match self {
            PaypalConnectorCredentials::StandardIntegration(item) => item.client_secret.clone(),
            PaypalConnectorCredentials::PartnerIntegration(item) => item.client_secret.clone(),
        }
    }

    pub fn get_payer_id(&self) -> (res: Option<Secret>)
        ensures
            res == payer_id_of(*self),
    {
        match self {
            PaypalConnectorCredentials::StandardIntegration(_) => None,
            PaypalConnectorCredentials::PartnerIntegration(item) => Some(item.payer_id.clone()),
        }
    }

    /// The value of the authorization header. The encoding of the
    /// credentials must fit the machine.
    pub fn generate_authorization_value(&self) -> (res: String)
        requires
            encode_utf8(authorization_text(*self)).len() / 3 * 4 + 4 <= usize::MAX,
        ensures
            res@ == authorization_value(*self),
    {
        let mut auth_id = self.get_client_id().expose();
        auth_id.append(":");
        proof {
            reveal_strlit(":");
            assert(":"@ =~= seq![':']);
        }
        let client_secret = self.get_client_secret().expose();
        auth_id.append(client_secret.as_str());
        let encoded = base64_encode(auth_id.as_str().as_bytes());
        String::from_str("Basic ").concat(encoded.as_str())
    }
}

impl PaypalAuthType {
    /// The credentials, or an error where only the placeholder is
    /// configured.
    pub fn get_credentials(&self) -> (res: Result<&PaypalConnectorCredentials, ConnectorError>)
        ensures
            match *self {
                PaypalAuthType::TemporaryAuth => res == Err::<
                    &PaypalConnectorCredentials,
                    ConnectorError,
                >(
                    ConnectorError::InvalidConnectorConfig {
                        config: "TemporaryAuth found in connector_account_details",
                    },
                ),
                PaypalAuthType::AuthWithDetails(credentials) => res matches Ok(found) && *found
                    == credentials,
            },
    {
        match self {
            PaypalAuthType::TemporaryAuth => Err(
                ConnectorError::InvalidConnectorConfig {
                    config: "TemporaryAuth found in connector_account_details",
                },
            ),
            PaypalAuthType::AuthWithDetails(credentials) => Ok(credentials),
        }
    }
}

impl TryFrom<&ConnectorAuthType> for PaypalAuthType {
    type Error = ConnectorError;

    fn try_from(auth_type: &ConnectorAuthType) -> (res: Result<Self, ConnectorError>) {
        match auth_type {
            ConnectorAuthType::BodyKey { api_key, key1 } => Ok(
                PaypalAuthType::AuthWithDetails(
                    PaypalConnectorCredentials::StandardIntegration(
                        StandardFlowCredentials {
                            client_id: key1.clone(),
                            client_secret: api_key.clone(),
                        },
                    ),
                ),
            ),
            ConnectorAuthType::SignatureKey { api_key, key1, api_secret } => Ok(
                PaypalAuthType::AuthWithDetails(
                    PaypalConnectorCredentials::PartnerIntegration(
                        PartnerFlowCredentials {
                            client_id: key1.clone(),
                            client_secret: api_key.clone(),
                            payer_id: api_secret.clone(),
                        },
                    ),
                ),
            ),
            ConnectorAuthType::TemporaryAuth => Ok(PaypalAuthType::TemporaryAuth),
            _ => Err(ConnectorError::FailedToObtainAuthType),
        }
    }
}

impl TryFromSpecImpl<&ConnectorAuthType> for PaypalAuthType {
    open spec fn obeys_try_from_spec() -> bool {
        true
    }

    open spec fn try_from_spec(auth_type: &ConnectorAuthType) -> Result<Self, ConnectorError> {
        paypal_auth_of(auth_type)
    }
}

} // verus!
