//! The request by which PayPal is asked whether a webhook is its own.
//!
//! PayPal signs each webhook in five headers. The request hands them back,
//! together with the id of the webhook and the body that was received.

use vstd::prelude::*;
use vstd::utf8::{decode_utf8, valid_utf8};

use crate::codec::{parse_json, utf8_text};
use crate::connectors::types::ConnectorError;

verus! {

/// The header that carries the id of the transmission.
pub const PAYPAL_TRANSMISSION_ID: &'static str = "paypal-transmission-id";

/// The header that carries the time of the transmission.
pub const PAYPAL_TRANSMISSION_TIME: &'static str = "paypal-transmission-time";

/// The header that carries the signature.
pub const PAYPAL_TRANSMISSION_SIG: &'static str = "paypal-transmission-sig";

/// The header that carries the address of the certificate.
pub const PAYPAL_CERT_URL: &'static str = "paypal-cert-url";

/// The header that carries the signing algorithm.
pub const PAYPAL_AUTH_ALGO: &'static str = "paypal-auth-algo";

/// What a request holds under a header's name.
#[derive(Debug)]
pub enum HeaderLookup {
    /// The request has no such header.
    Missing,
    /// The header's value is not readable as text.
    Unreadable,
    /// The header's value.
    Text(String),
}

/// The five headers in which PayPal signs a webhook.
#[derive(Debug)]
pub struct WebhookSourceHeaders {
    pub transmission_id: HeaderLookup,
    pub transmission_time: HeaderLookup,
    pub cert_url: HeaderLookup,
    pub transmission_sig: HeaderLookup,
    pub auth_algo: HeaderLookup,
}

/// A webhook as it was received, with the secret configured for it.
#[derive(Debug)]
pub struct VerifyWebhookSourceRequestData {
    pub webhook_headers: WebhookSourceHeaders,
    pub webhook_body: Vec<u8>,
    pub merchant_secret: Vec<u8>,
}

/// The request to verify the source of a webhook.
#[derive(Debug)]
pub struct PaypalSourceVerificationRequest {
    pub transmission_id: String,
    pub transmission_time: String,
    pub cert_url: String,
    pub transmission_sig: String,
    pub auth_algo: String,
    pub webhook_id: String,
    pub webhook_event: serde_json::Value,
}

/// The value of a header: its text, or an error that names the header where
/// it is missing or not readable.
pub open spec fn header_value(lookup: HeaderLookup, key: &'static str) -> Result<
    String,
    ConnectorError,
> {
    match lookup {
        HeaderLookup::Missing => Err(ConnectorError::MissingRequiredField { field_name: key }),
        HeaderLookup::Unreadable => Err(ConnectorError::InvalidDataFormat { field_name: key }),
        HeaderLookup::Text(text) => Ok(text),
    }
}

/// Why a header has no value, where it has none.
pub open spec fn header_error(lookup: HeaderLookup, key: &'static str) -> Option<ConnectorError> {
    match header_value(lookup, key) {
        Ok(_) => None,
        Err(error) => Some(error),
    }
}

/// The first failure in reading a webhook for verification, if any. The body
/// is read first, then the headers in the order of the request's fields, then
/// the secret. A transmission id that cannot be had fails the verification
/// as a whole; any other header fails by its own name.
pub open spec fn verification_failure(
    headers: WebhookSourceHeaders,
    body_is_json: bool,
    secret_is_text: bool,
) -> Option<ConnectorError> {
    if !body_is_json {
        Some(ConnectorError::WebhookBodyDecodingFailed)
    } else if !(headers.transmission_id is Text) {
        Some(ConnectorError::WebhookSourceVerificationFailed)
    } else if header_error(headers.transmission_time, PAYPAL_TRANSMISSION_TIME) is Some {
        header_error(headers.transmission_time, PAYPAL_TRANSMISSION_TIME)
    } else if header_error(headers.cert_url, PAYPAL_CERT_URL) is Some {
        header_error(headers.cert_url, PAYPAL_CERT_URL)
    } else if header_error(headers.transmission_sig, PAYPAL_TRANSMISSION_SIG) is Some {
        header_error(headers.transmission_sig, PAYPAL_TRANSMISSION_SIG)
    } else if header_error(headers.auth_algo, PAYPAL_AUTH_ALGO) is Some {
        header_error(headers.auth_algo, PAYPAL_AUTH_ALGO)
    } else if !secret_is_text {
        Some(ConnectorError::WebhookVerificationSecretNotFound)
    } else {
        None
    }
}

/// Whether a request is the one for the given headers, webhook id and body.
pub open spec fn is_request_for(
    request: PaypalSourceVerificationRequest,
    headers: WebhookSourceHeaders,
    webhook_id: Seq<char>,
    body: serde_json::Value,
) -> bool {
    &&& headers.transmission_id == HeaderLookup::Text(request.transmission_id)
    &&& headers.transmission_time == HeaderLookup::Text(request.transmission_time)
    &&& headers.cert_url == HeaderLookup::Text(request.cert_url)
    &&& headers.transmission_sig == HeaderLookup::Text(request.transmission_sig)
    &&& headers.auth_algo == HeaderLookup::Text(request.auth_algo)
    &&& request.webhook_id@ == webhook_id
    &&& request.webhook_event == body
}

/// The value of a header.
pub fn get_headers(lookup: &HeaderLookup, key: &'static str) -> (res: Result<
    String,
    ConnectorError,
>)
    ensures
        res == header_value(*lookup, key),
{
    match lookup {
        HeaderLookup::Missing => Err(ConnectorError::MissingRequiredField { field_name: key }),
        HeaderLookup::Unreadable => Err(ConnectorError::InvalidDataFormat { field_name: key }),
        HeaderLookup::Text(text) => Ok(text.clone()),
    }
}

/// The request to verify a webhook, from its headers and from what reading
/// its body and its secret gave.
pub fn source_verification_request(
    headers: &WebhookSourceHeaders,
    body: Option<serde_json::Value>,
    secret: Option<String>,
) -> (res: Result<PaypalSourceVerificationRequest, ConnectorError>)
    ensures
        match verification_failure(*headers, body is Some, secret is Some) {
            Some(error) => res == Err::<PaypalSourceVerificationRequest, ConnectorError>(error),
            None => res matches Ok(request) && is_request_for(
                request,
                *headers,
                secret->0@,
                body->0,
            ),
        },
{
    let req_body = match body {
        Some(document) => document,
        None => {
            return Err(ConnectorError::WebhookBodyDecodingFailed);
        },
    };
    let transmission_id = match get_headers(&headers.transmission_id, PAYPAL_TRANSMISSION_ID) {
        Ok(text) => text,
        Err(_) => {
            return Err(ConnectorError::WebhookSourceVerificationFailed);
        },
    };
    let transmission_time = match get_headers(
        &headers.transmission_time,
        PAYPAL_TRANSMISSION_TIME,
    ) {
        Ok(text) => text,
        Err(error) => {
            return Err(error);
        },
    };
    let cert_url = match get_headers(&headers.cert_url, PAYPAL_CERT_URL) {
        Ok(text) => text,
        Err(error) => {
            return Err(error);
        },
    };
    let transmission_sig = match get_headers(&headers.transmission_sig, PAYPAL_TRANSMISSION_SIG) {
        Ok(text) => text,
        Err(error) => {
            return Err(error);
        },
    };
    let auth_algo = match get_headers(&headers.auth_algo, PAYPAL_AUTH_ALGO) {
        Ok(text) => text,
        Err(error) => {
            return Err(error);
        },
    };
    let webhook_id = match secret {
        Some(text) => text,
        None => {
            return Err(ConnectorError::WebhookVerificationSecretNotFound);
        },
    };
    Ok(
        PaypalSourceVerificationRequest {
            transmission_id,
            transmission_time,
            cert_url,
            transmission_sig,
            auth_algo,
            webhook_id,
            webhook_event: req_body,
        },
    )
}

/// Whether a result is the outcome of reading a webhook whose body was read
/// as the given document, or could not be read where there is none.
pub open spec fn is_outcome_for(
    res: Result<PaypalSourceVerificationRequest, ConnectorError>,
    req: VerifyWebhookSourceRequestData,
    body: Option<serde_json::Value>,
) -> bool {
    match verification_failure(req.webhook_headers, body is Some, valid_utf8(req.merchant_secret@)) {
        Some(error) => res == Err::<PaypalSourceVerificationRequest, ConnectorError>(error),
        None => res matches Ok(request) && is_request_for(
            request,
            req.webhook_headers,
            decode_utf8(req.merchant_secret@),
            body->0,
        ),
    }
}

impl PaypalSourceVerificationRequest {
    /// Reads the body as JSON and the secret as text, and builds the request
    /// from them and the headers. Whether the body is JSON is for the JSON
    /// reader to say; everything else is decided here.
    pub fn try_from(req: &VerifyWebhookSourceRequestData) -> (res: Result<Self, ConnectorError>)
        ensures
            exists|body: Option<serde_json::Value>| #[trigger] is_outcome_for(res, *req, body),
    {
        let body = parse_json(req.webhook_body.as_slice());
        let secret = utf8_text(req.merchant_secret.clone());
        let res = source_verification_request(&req.webhook_headers, body, secret);
        assert(is_outcome_for(res, *req, body));
        res
    }
}

/// A webhook without a transmission id is never reported by the header's
/// name, and a webhook that can be read in full gives a request.
pub proof fn lemma_verification_failures(
    headers: WebhookSourceHeaders,
    body_is_json: bool,
    secret_is_text: bool,
)
    ensures
        body_is_json && !(headers.transmission_id is Text) ==> verification_failure(
            headers,
            body_is_json,
            secret_is_text,
        ) == Some(ConnectorError::WebhookSourceVerificationFailed),
        verification_failure(headers, body_is_json, secret_is_text) is None <==> body_is_json
            && secret_is_text && headers.transmission_id is Text && headers.transmission_time
            is Text && headers.cert_url is Text && headers.transmission_sig is Text
            && headers.auth_algo is Text,
{
}

} // verus!
