//! The values that Zen's API and webhooks carry.

use vstd::prelude::*;

use crate::secret::Secret;

verus! {

/// A request together with its amount, as Zen writes amounts.
#[derive(Debug)]
pub struct ZenRouterData<T> {
    pub amount: String,
    pub router_data: T,
}

/// The API key that Zen is called with.
pub struct ZenAuthType {
    pub api_key: Secret,
}

/// The channels through which Zen takes a payment.
#[derive(Debug, Clone, Copy, PartialEq, Eq, Structural)]
pub enum ZenPaymentChannels {
    PclCard,
    PclGooglepay,
    PclApplepay,
    PclBoacompraBoleto,
    PclBoacompraEfecty,
    PclBoacompraMultibanco,
    PclBoacompraPagoefectivo,
    PclBoacompraPix,
    PclBoacompraPse,
    PclBoacompraRedcompra,
    PclBoacompraRedpagos,
}

/// Whether a payment is the only one of its kind.
#[derive(Debug, Clone, Copy, PartialEq, Eq, Structural)]
pub enum ZenPaymentTypes {
    Onetime,
    General,
}

/// What Zen is told of a payment that needs no browser details.
#[derive(Debug, Clone)]
pub struct ZenGeneralPaymentData {
    pub payment_type: ZenPaymentTypes,
    pub return_url: String,
}

/// What Zen is told of the payer's browser.
#[derive(Debug, Clone)]
pub struct ZenBrowserDetails {
    pub color_depth: String,
    pub java_enabled: bool,
    pub lang: String,
    pub screen_height: String,
    pub screen_width: String,
    pub timezone: String,
    pub accept_header: String,
    pub window_size: String,
    pub user_agent: String,
}

/// One item of an order.
#[derive(Debug, Clone)]
pub struct ZenItemObject {
    pub name: String,
    pub price: String,
    pub quantity: u16,
    pub line_amount_total: String,
}

/// What the platform knows of the payer's browser.
#[derive(Debug, Clone)]
pub struct BrowserInformation {
    pub color_depth: Option<u8>,
    pub java_enabled: Option<bool>,
    pub language: Option<String>,
    pub screen_height: Option<u32>,
    pub screen_width: Option<u32>,
    pub time_zone: Option<i32>,
    pub accept_header: Option<String>,
    pub user_agent: Option<String>,
}

/// A request to Zen's hosted checkout.
pub struct CheckoutRequest {
    pub amount: String,
    pub currency: String,
    pub custom_ipn_url: String,
    pub items: Vec<ZenItemObject>,
    pub merchant_transaction_id: String,
    pub signature: Option<Secret>,
    pub specified_payment_channel: ZenPaymentChannels,
    pub terminal_uuid: Secret,
    pub url_redirect: String,
}

/// The secrets of a wallet session.
pub struct WalletSessionData {
    pub terminal_uuid: Option<Secret>,
    pub pay_wall_secret: Option<Secret>,
}

/// The state of a payment.
#[derive(Debug, Clone, Copy, PartialEq, Eq, Structural)]
pub enum ZenPaymentStatus {
    Authorized,
    Accepted,
    Pending,
    Rejected,
    Canceled,
}

/// What the merchant must do next.
#[derive(Debug, Clone, Copy, PartialEq, Eq, Structural)]
pub enum ZenActions {
    Redirect,
}

/// Where the merchant must send the payer.
#[derive(Debug, Clone)]
pub struct ZenMerchantActionData {
    pub redirect_url: String,
}

/// What the merchant must do next, and with what.
#[derive(Debug, Clone)]
pub struct ZenMerchantAction {
    pub action: ZenActions,
    pub data: ZenMerchantActionData,
}

/// The response to a payment.
#[derive(Debug, Clone)]
pub struct ApiResponse {
    pub status: ZenPaymentStatus,
    pub id: String,
    pub merchant_action: Option<ZenMerchantAction>,
    pub reject_code: Option<String>,
    pub reject_reason: Option<String>,
}

/// The response to a checkout.
#[derive(Debug, Clone)]
pub struct CheckoutResponse {
    pub redirect_url: String,
}

/// The response to a payment, by the way the payment was taken.
#[derive(Debug, Clone)]
pub enum ZenPaymentsResponse {
    ApiResponse(ApiResponse),
    CheckoutResponse(CheckoutResponse),
}

/// The state of a refund.
#[derive(Debug, Clone, Copy, PartialEq, Eq, Structural)]
pub enum RefundStatus {
    Authorized,
    Accepted,
    Pending,
    Rejected,
}

/// The response to a refund.
#[derive(Debug, Clone)]
pub struct RefundResponse {
    pub id: String,
    pub status: RefundStatus,
    pub reject_code: Option<String>,
    pub reject_reason: Option<String>,
}

/// The kinds of transaction that a webhook reports.
#[derive(Debug, Clone, Copy, PartialEq, Eq, Structural)]
pub enum ZenWebhookTxnType {
    TrtPurchase,
    TrtRefund,
    /// Any kind that is not one of the above.
    Unknown,
}

/// The body of a webhook.
#[derive(Debug, Clone)]
pub struct ZenWebhookBody {
    pub id: String,
    pub merchant_transaction_id: String,
    pub amount: String,
    pub currency: String,
    pub status: ZenPaymentStatus,
}

/// The signature of a webhook.
#[derive(Debug, Clone)]
pub struct ZenWebhookSignature {
    pub hash: String,
}

/// What a webhook refers to.
#[derive(Debug, Clone)]
pub struct ZenWebhookObjectReference {
    pub transaction_type: ZenWebhookTxnType,
    pub transaction_id: String,
    pub merchant_transaction_id: String,
}

/// What a webhook reports.
#[derive(Debug, Clone)]
pub struct ZenWebhookEventType {
    pub transaction_type: ZenWebhookTxnType,
    pub transaction_id: String,
    pub status: ZenPaymentStatus,
}

/// The error of an error response.
#[derive(Debug, Clone)]
pub struct ZenErrorBody {
    pub message: String,
    pub code: String,
}

/// An error response.
#[derive(Debug, Clone)]
pub struct ZenErrorResponse {
    pub error: Option<ZenErrorBody>,
    pub message: Option<String>,
}

impl Default for ZenPaymentStatus {
    fn default() -> (res: Self)
        ensures
            res == ZenPaymentStatus::Pending,
    {
        ZenPaymentStatus::Pending
    }
}

impl Default for RefundStatus {
    fn default() -> (res: Self)
        ensures
            res == RefundStatus::Pending,
    {
        RefundStatus::Pending
    }
}

impl<T> ZenRouterData<T> {
    /// A request with its amount.
    pub fn new(amount: String, router_data: T) -> (res: Self)
        ensures
            res.amount == amount,
            res.router_data == router_data,
    {
        ZenRouterData { amount, router_data }
    }
}

} // verus!
