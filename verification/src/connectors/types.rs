//! The platform's side of a connector integration: the statuses, events and
//! errors that connector values are mapped to.

use vstd::prelude::*;

use crate::currency::Currency;
use crate::secret::Secret;

verus! {

/// The code reported where a connector gave none.
pub const NO_ERROR_CODE: &'static str = "No error code";

/// The message reported where a connector gave none.
pub const NO_ERROR_MESSAGE: &'static str = "No error message";

/// The state of a payment attempt.
#[derive(Debug, Clone, Copy, PartialEq, Eq, Hash, Structural)]
pub enum AttemptStatus {
    Started,
    AuthenticationFailed,
    RouterDeclined,
    AuthenticationPending,
    AuthenticationSuccessful,
    Authorized,
    AuthorizationFailed,
    Charged,
    Authorizing,
    CodInitiated,
    Voided,
    VoidInitiated,
    CaptureInitiated,
    CaptureFailed,
    VoidFailed,
    AutoRefunded,
    PartialCharged,
    PartialChargedAndChargeable,
    Unresolved,
    Pending,
    Failure,
    PaymentMethodAwaited,
    ConfirmationAwaited,
    DeviceDataCollectionPending,
    IntegrityFailure,
    Expired,
}

/// The state of a refund.
#[derive(Debug, Clone, Copy, PartialEq, Eq, Hash, Structural)]
pub enum RefundStatus {
    Failure,
    ManualReview,
    Pending,
    Success,
    TransactionFailure,
}

/// The state of an incremental authorization.
#[derive(Debug, Clone, Copy, PartialEq, Eq, Hash, Structural)]
pub enum AuthorizationStatus {
    Success,
    Failure,
    Processing,
    Unresolved,
}

/// The state of a payout.
#[derive(Debug, Clone, Copy, PartialEq, Eq, Hash, Structural)]
pub enum PayoutStatus {
    Success,
    Failed,
    Cancelled,
    Initiated,
    Expired,
    Reversed,
    Pending,
    Ineligible,
    RequiresCreation,
    RequiresConfirmation,
    RequiresPayoutMethodData,
    RequiresFulfillment,
    RequiresVendorAccountCreation,
}

/// The stage of a dispute.
#[derive(Debug, Clone, Copy, PartialEq, Eq, Hash, Structural)]
pub enum DisputeStage {
    PreDispute,
    Dispute,
    PreArbitration,
}

/// What an incoming webhook reports.
#[derive(Debug, Clone, Copy, PartialEq, Eq, Hash, Structural)]
pub enum IncomingWebhookEvent {
    PaymentIntentFailure,
    PaymentIntentSuccess,
    PaymentIntentProcessing,
    PaymentIntentPartiallyFunded,
    PaymentIntentCancelled,
    PaymentActionRequired,
    EventNotSupported,
    RefundFailure,
    RefundSuccess,
    DisputeOpened,
    DisputeExpired,
    DisputeAccepted,
    DisputeCancelled,
    DisputeChallenged,
    DisputeWon,
    DisputeLost,
}

/// Whether the sender of a webhook was verified.
#[derive(Debug, Clone, Copy, PartialEq, Eq, Hash, Structural)]
pub enum VerifyWebhookStatus {
    SourceVerified,
    SourceNotVerified,
}

/// The HTTP method of a redirection.
#[derive(Debug, Clone, Copy, PartialEq, Eq, Hash, Structural)]
pub enum Method {
    Get,
    Post,
    Put,
    Delete,
    Patch,
}

/// Why a connector integration could not proceed.
#[derive(Debug, Clone, Copy, PartialEq, Eq)]
pub enum ConnectorError {
    FailedToObtainAuthType,
    InvalidConnectorConfig { config: &'static str },
    MissingConnectorTransactionID,
    MissingRequiredField { field_name: &'static str },
    InvalidDataFormat { field_name: &'static str },
    RequestEncodingFailed,
    ResponseDeserializationFailed,
    WebhookEventTypeNotFound,
    WebhookBodyDecodingFailed,
    WebhookSourceVerificationFailed,
    WebhookVerificationSecretNotFound,
    NotImplemented(&'static str),
    FlowNotSupported { flow: &'static str, connector: &'static str },
    CaptureMethodNotSupported,
    NotSupported { message: &'static str, connector: &'static str },
    InvalidWalletToken { wallet_name: &'static str },
}

/// The credentials configured for a connector.
pub enum ConnectorAuthType {
    TemporaryAuth,
    HeaderKey { api_key: Secret },
    BodyKey { api_key: Secret, key1: Secret },
    SignatureKey { api_key: Secret, key1: Secret, api_secret: Secret },
    MultiAuthKey { api_key: Secret, key1: Secret, api_secret: Secret, key2: Secret },
    CurrencyAuthKey { auth_key_map: Vec<(Currency, Secret)> },
    CertificateAuth { certificate: Secret, private_key: Secret },
    NoKey,
}

/// The credentials configured for a connector, with each secret as its text.
pub enum ConnectorAuthView {
    TemporaryAuth,
    HeaderKey { api_key: Seq<char> },
    BodyKey { api_key: Seq<char>, key1: Seq<char> },
    SignatureKey { api_key: Seq<char>, key1: Seq<char>, api_secret: Seq<char> },
    MultiAuthKey { api_key: Seq<char>, key1: Seq<char>, api_secret: Seq<char>, key2: Seq<char> },
    CurrencyAuthKey { auth_key_map: Seq<(Currency, Seq<char>)> },
    CertificateAuth { certificate: Seq<char>, private_key: Seq<char> },
    NoKey,
}

impl View for ConnectorAuthType {
    type V = ConnectorAuthView;

    open spec fn view(&self) -> ConnectorAuthView {
        match *self {
            ConnectorAuthType::TemporaryAuth => ConnectorAuthView::TemporaryAuth,
            ConnectorAuthType::HeaderKey { api_key } => ConnectorAuthView::HeaderKey {
                api_key: api_key@,
            },
            ConnectorAuthType::BodyKey { api_key, key1 } => ConnectorAuthView::BodyKey {
                api_key: api_key@,
                key1: key1@,
            },
            ConnectorAuthType::SignatureKey {
                api_key,
                key1,
                api_secret,
            } => ConnectorAuthView::SignatureKey {
                api_key: api_key@,
                key1: key1@,
                api_secret: api_secret@,
            },
            ConnectorAuthType::MultiAuthKey {
                api_key,
                key1,
                api_secret,
                key2,
            } => ConnectorAuthView::MultiAuthKey {
                api_key: api_key@,
                key1: key1@,
                api_secret: api_secret@,
                key2: key2@,
            },
            ConnectorAuthType::CurrencyAuthKey {
                auth_key_map,
            } => ConnectorAuthView::CurrencyAuthKey {
                auth_key_map: Seq::new(
                    auth_key_map@.len(),
                    |i: int| (auth_key_map@[i].0, auth_key_map@[i].1@),
                ),
            },
            ConnectorAuthType::CertificateAuth {
                certificate,
                private_key,
            } => ConnectorAuthView::CertificateAuth {
                certificate: certificate@,
                private_key: private_key@,
            },
            ConnectorAuthType::NoKey => ConnectorAuthView::NoKey,
        }
    }
}

/// A connector's error, reduced to a code and a message.
#[derive(Debug)]
pub struct ErrorCodeAndMessage {
    pub error_code: String,
    pub error_message: String,
}

/// An error as the platform reports it.
#[derive(Debug)]
pub struct ErrorResponse {
    pub code: String,
    pub message: String,
    pub reason: Option<String>,
    pub status_code: u16,
    pub attempt_status: Option<AttemptStatus>,
    pub connector_transaction_id: Option<String>,
}

/// A form that sends the payer on to the connector.
#[derive(Debug)]
pub struct RedirectForm {
    pub endpoint: String,
    pub method: Method,
    pub form_fields: Vec<(String, String)>,
}

/// How the platform refers to a connector's transaction.
#[derive(Debug)]
pub enum ResponseId {
    ConnectorTransactionId(String),
    NoResponseId,
}

/// The mandate that a connector set up.
#[derive(Debug)]
pub struct MandateReference {
    pub connector_mandate_id: Option<String>,
}

/// What the platform keeps of a payment response; `M` is what the connector
/// needs to find the payment again.
#[derive(Debug)]
pub struct TransactionResponse<M> {
    pub resource_id: ResponseId,
    pub redirection_data: Option<RedirectForm>,
    pub mandate_reference: Option<MandateReference>,
    pub connector_metadata: Option<M>,
    pub connector_response_reference_id: Option<String>,
    pub incremental_authorization_allowed: Option<bool>,
}

/// What the platform keeps of a refund response.
#[derive(Debug)]
pub struct RefundsResponseData {
    pub connector_refund_id: String,
    pub refund_status: RefundStatus,
}

/// What the platform keeps of a payout response.
#[derive(Debug)]
pub struct PayoutsResponseData {
    pub status: Option<PayoutStatus>,
    pub connector_payout_id: Option<String>,
}

/// A token with which a connector is called.
pub struct AccessToken {
    pub token: Secret,
    pub expires: i64,
}

/// How the payer goes through a payment.
#[derive(Debug, Clone, Copy, PartialEq, Eq, Structural)]
pub enum PaymentExperience {
    RedirectToUrl,
    InvokeSdkClient,
    DisplayQrCode,
    OneClick,
    LinkWallet,
    InvokePaymentApp,
    DisplayWaitScreen,
    CollectOtp,
}

/// Whether an attempt in this state has failed.
pub open spec fn payment_failed(status: AttemptStatus) -> bool {
    status == AttemptStatus::AuthenticationFailed || status == AttemptStatus::AuthorizationFailed
        || status == AttemptStatus::CaptureFailed || status == AttemptStatus::VoidFailed || status
        == AttemptStatus::Failure || status == AttemptStatus::Expired
}

/// Whether an attempt in this state has taken funds.
pub open spec fn payment_charged(status: AttemptStatus) -> bool {
    status == AttemptStatus::Charged || status == AttemptStatus::PartialCharged || status
        == AttemptStatus::PartialChargedAndChargeable || status == AttemptStatus::IntegrityFailure
}

/// Whether a refund in this state has failed.
pub open spec fn refund_failed(status: RefundStatus) -> bool {
    status == RefundStatus::Failure || status == RefundStatus::TransactionFailure
}

/// Whether an attempt in this state has failed.
pub fn is_payment_failure(status: AttemptStatus) -> (res: bool)
    ensures
        res == payment_failed(status),
{
    match status {
        AttemptStatus::AuthenticationFailed
        | AttemptStatus::AuthorizationFailed
        | AttemptStatus::CaptureFailed
        | AttemptStatus::VoidFailed
        | AttemptStatus::Failure
        | AttemptStatus::Expired => true,
        _ => false,
    }
}

/// Whether an attempt in this state has taken funds.
pub fn is_payment_charged(status: AttemptStatus) -> (res: bool)
    ensures
        res == payment_charged(status),
{
    match status {
        AttemptStatus::Charged
        | AttemptStatus::PartialCharged
        | AttemptStatus::PartialChargedAndChargeable
        | AttemptStatus::IntegrityFailure => true,
        _ => false,
    }
}

/// Whether a refund in this state has failed.
pub fn is_refund_failure(status: RefundStatus) -> (res: bool)
    ensures
        res == refund_failed(status),
{
    match status {
        RefundStatus::Failure | RefundStatus::TransactionFailure => true,
        RefundStatus::ManualReview | RefundStatus::Pending | RefundStatus::Success => false,
    }
}

/// A copy of an optional string.
pub fn clone_optional_string(text: &Option<String>) -> (res: Option<String>)
    ensures
        res == *text,
{
    match text {
        Some(s) => Some(s.clone()),
        None => None,
    }
}

} // verus!
