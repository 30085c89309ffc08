//! The values that PayPal's API and webhooks carry.

use vstd::prelude::*;

use crate::currency::Currency;
use crate::secret::Secret;

verus! {

/// What an order is created for.
#[derive(Debug, Clone, Copy, PartialEq, Eq, Structural)]
pub enum PaypalPaymentIntent {
    Capture,
    Authorize,
    Authenticate,
}

/// The operations of an order update.
#[derive(Debug, Clone, Copy, PartialEq, Eq, Structural)]
pub enum PaypalOperationType {
    Add,
    Remove,
    Replace,
    Move,
    Copy,
    Test,
}

/// How strongly a card is to be authenticated.
#[derive(Debug, Clone, Copy, PartialEq, Eq, Structural)]
pub enum ThreeDsType {
    ScaAlways,
}

/// The 3DS method asked for.
#[derive(Debug, Clone, Copy, PartialEq, Eq, Structural)]
pub struct ThreeDsMethod {
    pub method: ThreeDsType,
}

/// When a payment source is stored in the vault.
#[derive(Debug, Clone, Copy, PartialEq, Eq, Structural)]
pub enum StoreInVault {
    OnSuccess,
}

/// Who may use a stored payment source.
#[derive(Debug, Clone, Copy, PartialEq, Eq, Structural)]
pub enum UsageType {
    Merchant,
}

/// The vault instruction of a request.
#[derive(Debug, Clone, Copy, PartialEq, Eq, Structural)]
pub struct PaypalVault {
    pub store_in_vault: StoreInVault,
    pub usage_type: UsageType,
}

/// The attributes of a card request.
#[derive(Debug, Clone, Copy, PartialEq, Eq, Structural)]
pub struct CardRequestAttributes {
    pub vault: Option<PaypalVault>,
    pub verification: Option<ThreeDsMethod>,
}

/// What the payer is asked to do.
#[derive(Debug, Clone, Copy, PartialEq, Eq, Structural)]
pub enum UserAction {
    PayNow,
}

/// Where the shipping address comes from.
#[derive(Debug, Clone, Copy, PartialEq, Eq, Structural)]
pub enum ShippingPreference {
    SetProvidedAddress,
    GetFromFile,
}

/// The experience context of a redirect.
#[derive(Debug, Clone)]
pub struct ContextStruct {
    pub return_url: Option<String>,
    pub cancel_url: Option<String>,
    pub user_action: Option<UserAction>,
    pub shipping_preference: ShippingPreference,
}

/// The attributes of a redirect request.
#[derive(Debug, Clone, Copy, PartialEq, Eq, Structural)]
pub struct Attributes {
    pub vault: PaypalVault,
}

/// A redirect request.
#[derive(Debug, Clone)]
pub struct PaypalRedirectionStruct {
    pub experience_context: ContextStruct,
    pub attributes: Option<Attributes>,
}

/// The customer of a vaulted payment source.
#[derive(Debug, Clone)]
pub struct CustomerId {
    pub id: String,
}

/// What the vault reports of a stored payment source.
#[derive(Debug, Clone)]
pub struct PaypalVaultResponse {
    pub id: String,
    pub status: String,
    pub customer: CustomerId,
}

/// The attributes of a response.
#[derive(Debug, Clone)]
pub struct AttributeResponse {
    pub vault: PaypalVaultResponse,
}

/// The response to a redirect.
#[derive(Debug, Clone)]
pub struct PaypalRedirectionResponse {
    pub attributes: Option<AttributeResponse>,
}

/// The response to a vaulted card.
#[derive(Debug, Clone)]
pub struct CardVaultResponse {
    pub attributes: Option<AttributeResponse>,
}

/// A mandate on a PayPal account.
#[derive(Debug, Clone)]
pub struct PaypalMandateStruct {
    pub experience_context: Option<ContextStruct>,
    pub usage_type: UsageType,
}

/// A customer.
#[derive(Debug, Clone)]
pub struct Customer {
    pub id: String,
}

/// The state of an incremental authorization.
#[derive(Debug, Clone, Copy, PartialEq, Eq, Structural)]
pub enum PaypalIncrementalStatus {
    CREATED,
    CAPTURED,
    DENIED,
    PARTIALLYCAPTURED,
    VOIDED,
    PENDING,
}

/// The network's reference of a transaction.
#[derive(Debug, Clone)]
pub struct PaypalNetworkTransactionReference {
    pub id: String,
}

/// Why an authorization is pending or declined.
#[derive(Debug, Clone, Copy, PartialEq, Eq, Structural)]
pub enum PaypalStatusPendingReason {
    PENDINGREVIEW,
    DECLINEDBYRISKFRAUDFILTERS,
}

/// The details of an incremental authorization's state.
#[derive(Debug, Clone, Copy, PartialEq, Eq, Structural)]
pub struct PaypalIncrementalAuthStatusDetails {
    pub reason: PaypalStatusPendingReason,
}

/// The state of an order.
#[derive(Debug, Clone, Copy, PartialEq, Eq, Structural)]
pub enum PaypalOrderStatus {
    Pending,
    Completed,
    Voided,
    Created,
    Saved,
    PayerActionRequired,
    Approved,
}

/// The state of a payment.
#[derive(Debug, Clone, Copy, PartialEq, Eq, Structural)]
pub enum PaypalPaymentStatus {
    Created,
    Captured,
    Completed,
    Declined,
    Voided,
    Failed,
    Pending,
    Denied,
    Expired,
    PartiallyCaptured,
    Refunded,
}

/// The state of a cancelled payment.
#[derive(Debug, Clone, Copy, PartialEq, Eq, Structural)]
pub enum PaypalCancelStatus {
    Voided,
}

/// The state of a refund.
#[derive(Debug, Clone, Copy, PartialEq, Eq, Structural)]
pub enum RefundStatus {
    Completed,
    Failed,
    Cancelled,
    Pending,
}

/// The state of a payout batch.
#[derive(Debug, Clone, Copy, PartialEq, Eq, Structural)]
pub enum PaypalFulfillStatus {
    Denied,
    Pending,
    Processing,
    Success,
    Cancelled,
}

/// How the recipient of a payout is named.
#[derive(Debug, Clone, Copy, PartialEq, Eq, Structural)]
pub enum PayoutRecipientType {
    Email,
    PaypalId,
    Phone,
}

/// The wallet that a payout goes to.
#[derive(Debug, Clone, Copy, PartialEq, Eq, Structural)]
pub enum PayoutWalletType {
    Paypal,
    Venmo,
}

/// The header of a payout batch.
#[derive(Debug, Clone)]
pub struct PayoutBatchHeader {
    pub sender_batch_id: String,
}

/// What is reported of a payout batch.
#[derive(Debug, Clone)]
pub struct PaypalBatchResponse {
    pub payout_batch_id: String,
    pub batch_status: PaypalFulfillStatus,
}

/// The response to a payout.
#[derive(Debug, Clone)]
pub struct PaypalFulfillResponse {
    pub batch_header: PaypalBatchResponse,
}

/// Whether liability shifts to the issuer.
#[derive(Debug, Clone, Copy, PartialEq, Eq, Structural)]
pub enum LiabilityShift {
    Possible,
    No,
    Unknown,
}

/// Whether the card is enrolled for 3DS.
#[derive(Debug, Clone, Copy, PartialEq, Eq, Structural)]
pub enum EnrollmentStatus {
    Null,
    Ready,
    NotReady,
    Unavailable,
    Bypassed,
}

/// The outcome of a 3DS authentication.
#[derive(Debug, Clone, Copy, PartialEq, Eq, Structural)]
pub enum AuthenticationStatus {
    Null,
    Success,
    Failed,
    Rejected,
    Attempted,
    Unable,
    ChallengeRequired,
    InfoOnly,
    Decoupled,
}

/// The 3DS checks of a card.
#[derive(Debug, Clone, Copy, PartialEq, Eq, Structural)]
pub struct ThreeDsCheck {
    pub enrollment_status: Option<EnrollmentStatus>,
    pub authentication_status: Option<AuthenticationStatus>,
}

/// The 3DS result of a card.
#[derive(Debug, Clone, Copy, PartialEq, Eq, Structural)]
pub struct PaypalThreeDsParams {
    pub liability_shift: LiabilityShift,
    pub three_d_secure: ThreeDsCheck,
}

/// The authentication result of a card.
#[derive(Debug, Clone, Copy, PartialEq, Eq, Structural)]
pub struct AuthResult {
    pub authentication_result: PaypalThreeDsParams,
}

/// The card of a liability response.
#[derive(Debug, Clone, Copy, PartialEq, Eq, Structural)]
pub struct CardParams {
    pub card: AuthResult,
}

/// A pre-processing response that reports liability.
#[derive(Debug, Clone, Copy, PartialEq, Eq, Structural)]
pub struct PaypalLiabilityResponse {
    pub payment_source: CardParams,
}

/// What is known of a card.
#[derive(Debug, Clone)]
pub struct CardDetails {
    pub last_digits: String,
}

/// The card of a response.
#[derive(Debug, Clone)]
pub struct CardsData {
    pub card: CardDetails,
}

/// A pre-processing response that reports no liability.
#[derive(Debug, Clone)]
pub struct PaypalNonLiabilityResponse {
    pub payment_source: CardsData,
}

/// The response to pre-processing.
#[derive(Debug, Clone)]
pub enum PaypalPreProcessingResponse {
    PaypalLiabilityResponse(PaypalLiabilityResponse),
    PaypalNonLiabilityResponse(PaypalNonLiabilityResponse),
}

/// The response to a sync of a 3DS order.
#[derive(Debug, Clone)]
pub struct PaypalThreeDsSyncResponse {
    pub id: String,
    pub status: PaypalOrderStatus,
    pub payment_source: CardsData,
}

/// A purchase unit of a redirect response.
#[derive(Debug, Clone)]
pub struct RedirectPurchaseUnitItem {
    pub invoice_id: String,
}

/// The call that is to follow.
#[derive(Debug, Clone, Copy, PartialEq, Eq, Structural)]
pub enum NextActionCall {
    PostSessionTokens,
    Confirm,
    Sync,
    CompleteAuthorize,
}

/// What the platform keeps of an order between calls.
#[derive(Debug, Clone)]
pub struct PaypalMeta {
    pub authorize_id: Option<String>,
    pub capture_id: Option<String>,
    pub incremental_authorization_id: Option<String>,
    pub psync_flow: PaypalPaymentIntent,
    pub next_action: Option<NextActionCall>,
    pub order_id: Option<String>,
}

/// An amount in a currency; the amount is in major units, as PayPal writes
/// it.
#[derive(Debug, Clone)]
pub struct OrderAmount {
    pub currency_code: Currency,
    pub value: String,
}

/// One authorization or capture of a purchase unit.
#[derive(Debug, Clone)]
pub struct PaymentsCollectionItem {
    pub amount: OrderAmount,
    pub expiration_time: Option<String>,
    pub id: String,
    pub final_capture: Option<bool>,
    pub status: PaypalPaymentStatus,
}

/// The authorizations and captures of a purchase unit.
#[derive(Debug, Clone)]
pub struct PaymentsCollection {
    pub authorizations: Option<Vec<PaymentsCollectionItem>>,
    pub captures: Option<Vec<PaymentsCollectionItem>>,
}

/// A purchase unit of an order.
#[derive(Debug, Clone)]
pub struct PurchaseUnitItem {
    pub reference_id: Option<String>,
    pub invoice_id: Option<String>,
    pub payments: PaymentsCollection,
}

/// What PayPal reports of an EPS redirect.
pub struct EpsRedirectionResponse {
    pub name: Option<Secret>,
    pub country_code: Option<String>,
    pub bic: Option<Secret>,
}

/// What PayPal reports of an iDEAL redirect.
pub struct IdealRedirectionResponse {
    pub name: Option<Secret>,
    pub country_code: Option<String>,
    pub bic: Option<Secret>,
    pub iban_last_chars: Option<Secret>,
}

/// The payment source of a response.
pub enum PaymentSourceItemResponse {
    Card(CardVaultResponse),
    Paypal(PaypalRedirectionResponse),
    Eps(EpsRedirectionResponse),
    Ideal(IdealRedirectionResponse),
}

/// An order.
pub struct PaypalOrdersResponse {
    pub id: String,
    pub intent: PaypalPaymentIntent,
    pub status: PaypalOrderStatus,
    pub purchase_units: Vec<PurchaseUnitItem>,
    pub payment_source: Option<PaymentSourceItemResponse>,
}

/// A link of a response: where it leads and what it is for.
#[derive(Debug, Clone)]
pub struct PaypalLinks {
    pub href: Option<String>,
    pub rel: String,
}

/// The ids related to a payment.
#[derive(Debug, Clone)]
pub struct PaypalRelatedIds {
    pub order_id: String,
}

/// What a payment carries beside its own data.
#[derive(Debug, Clone)]
pub struct PaypalSupplementaryData {
    pub related_ids: PaypalRelatedIds,
}

/// The response to a sync of a payment.
#[derive(Debug, Clone)]
pub struct PaypalPaymentsSyncResponse {
    pub id: String,
    pub status: PaypalPaymentStatus,
    pub amount: OrderAmount,
    pub invoice_id: Option<String>,
    pub supplementary_data: PaypalSupplementaryData,
}

/// The response to a sync of a refund.
#[derive(Debug, Clone)]
pub struct RefundSyncResponse {
    pub id: String,
    pub status: RefundStatus,
}

/// One detail of an order error.
#[derive(Debug, Clone)]
pub struct OrderErrorDetails {
    pub issue: String,
    pub description: String,
    pub value: Option<String>,
    pub field: Option<String>,
}

/// An error of the orders API.
#[derive(Debug, Clone)]
pub struct PaypalOrderErrorResponse {
    pub name: Option<String>,
    pub message: String,
    pub debug_id: Option<String>,
    pub details: Option<Vec<OrderErrorDetails>>,
}

/// One detail of a payment error.
#[derive(Debug, Clone)]
pub struct ErrorDetails {
    pub issue: String,
    pub description: Option<String>,
}

/// An error of the payments API.
#[derive(Debug, Clone)]
pub struct PaypalPaymentErrorResponse {
    pub name: Option<String>,
    pub message: String,
    pub debug_id: Option<String>,
    pub details: Option<Vec<ErrorDetails>>,
}

/// An error of the token endpoint.
#[derive(Debug, Clone)]
pub struct PaypalAccessTokenErrorResponse {
    pub error: String,
    pub error_description: String,
}

/// The events that PayPal's webhooks report.
#[derive(Debug, Clone, Copy, PartialEq, Eq, Structural)]
pub enum PaypalWebhookEventType {
    PaymentAuthorizationCreated,
    PaymentAuthorizationVoided,
    PaymentCaptureDeclined,
    PaymentCaptureCompleted,
    PaymentCapturePending,
    PaymentCaptureRefunded,
    CheckoutOrderApproved,
    CheckoutOrderCompleted,
    CheckoutOrderProcessed,
    CustomerDisputeCreated,
    CustomerDisputeResolved,
    CustomerDisputedUpdated,
    RiskDisputeCreated,
    /// Any event that is not one of the above.
    Unknown,
}

/// The event type of a webhook.
#[derive(Debug, Clone, Copy, PartialEq, Eq, Structural)]
pub struct PaypalWebooksEventType {
    pub event_type: PaypalWebhookEventType,
}

/// A transaction under dispute.
#[derive(Debug, Clone)]
pub struct DisputeTransaction {
    pub seller_transaction_id: String,
}

/// The stage of a dispute in its life cycle.
#[derive(Debug, Clone, Copy, PartialEq, Eq, Structural)]
pub enum DisputeLifeCycleStage {
    Inquiry,
    Chargeback,
    PreArbitration,
    Arbitration,
}

/// The state of a dispute.
#[derive(Debug, Clone, Copy, PartialEq, Eq, Structural)]
pub enum DisputeStatus {
    Open,
    WaitingForBuyerResponse,
    WaitingForSellerResponse,
    UnderReview,
    Resolved,
    Other,
}

/// How a dispute ended.
#[derive(Debug, Clone, Copy, PartialEq, Eq, Structural)]
pub enum OutcomeCode {
    ResolvedBuyerFavour,
    ResolvedSellerFavour,
    ResolvedWithPayout,
    CanceledByBuyer,
    ACCEPTED,
    DENIED,
    NONE,
}

/// The outcome of a dispute.
#[derive(Debug, Clone, Copy, PartialEq, Eq, Structural)]
pub struct DisputeOutcome {
    pub outcome_code: OutcomeCode,
}

/// The body of a card webhook.
#[derive(Debug, Clone)]
pub struct PaypalCardWebhooks {
    pub supplementary_data: PaypalSupplementaryData,
    pub amount: OrderAmount,
    pub invoice_id: Option<String>,
}

/// The body of a redirect webhook.
#[derive(Debug, Clone)]
pub struct PaypalRedirectsWebhooks {
    pub purchase_units: Vec<PurchaseUnitItem>,
    pub links: Vec<PaypalLinks>,
    pub id: String,
    pub intent: PaypalPaymentIntent,
}

/// What a refund pays back to the seller's account.
#[derive(Debug, Clone)]
pub struct PaypalSellerPayableBreakdown {
    pub total_refunded_amount: OrderAmount,
}

/// The body of a refund webhook.
#[derive(Debug, Clone)]
pub struct PaypalRefundWebhooks {
    pub id: String,
    pub amount: OrderAmount,
    pub seller_payable_breakdown: PaypalSellerPayableBreakdown,
}

/// Whether PayPal verified the source of a webhook.
#[derive(Debug, Clone, Copy, PartialEq, Eq, Structural)]
pub enum PaypalSourceVerificationStatus {
    Success,
    Failure,
}

/// The response to a verification of a webhook's source.
#[derive(Debug, Clone, Copy, PartialEq, Eq, Structural)]
pub struct PaypalSourceVerificationResponse {
    pub verification_status: PaypalSourceVerificationStatus,
}

/// A request together with its amounts, as PayPal writes amounts.
#[derive(Debug)]
pub struct PaypalRouterData<T> {
    pub amount: String,
    pub shipping_cost: Option<String>,
    pub order_tax_amount: Option<String>,
    pub order_amount: Option<String>,
    pub router_data: T,
}

impl<T> PaypalRouterData<T> {
    /// A request with its amounts.
    pub fn new(
        amount: String,
        shipping_cost: Option<String>,
        order_tax_amount: Option<String>,
        order_amount: Option<String>,
        item: T,
    ) -> (res: Self)
        ensures
            res.amount == amount,
            res.shipping_cost == shipping_cost,
            res.order_tax_amount == order_tax_amount,
            res.order_amount == order_amount,
            res.router_data == item,
    {
        PaypalRouterData { amount, shipping_cost, order_tax_amount, order_amount, router_data: item }
    }
}

/// The response to a redirect order.
pub struct PaypalRedirectResponse {
    pub id: String,
    pub intent: PaypalPaymentIntent,
    pub status: PaypalOrderStatus,
    pub purchase_units: Vec<RedirectPurchaseUnitItem>,
    pub links: Vec<PaypalLinks>,
    pub payment_source: Option<PaymentSourceItemResponse>,
}

/// The response to a card order that needs 3DS.
#[derive(Debug, Clone)]
pub struct PaypalThreeDsResponse {
    pub id: String,
    pub status: PaypalOrderStatus,
    pub links: Vec<PaypalLinks>,
}

/// The response to an authorization, in the order in which its forms are
/// tried.
pub enum PaypalAuthResponse {
    PaypalOrdersResponse(PaypalOrdersResponse),
    PaypalRedirectResponse(PaypalRedirectResponse),
    PaypalThreeDsResponse(PaypalThreeDsResponse),
}

/// The response to a sync, in the order in which its forms are tried.
pub enum PaypalSyncResponse {
    PaypalOrdersSyncResponse(PaypalOrdersResponse),
    PaypalThreeDsSyncResponse(PaypalThreeDsSyncResponse),
    PaypalRedirectSyncResponse(PaypalRedirectResponse),
    PaypalPaymentsSyncResponse(PaypalPaymentsSyncResponse),
}

/// The response to a capture.
pub struct PaypalCaptureResponse {
    pub id: String,
    pub status: PaypalPaymentStatus,
    pub amount: Option<OrderAmount>,
    pub invoice_id: Option<String>,
    pub final_capture: bool,
    pub payment_source: Option<PaymentSourceItemResponse>,
}

/// The response to a cancellation.
#[derive(Debug, Clone)]
pub struct PaypalPaymentsCancelResponse {
    pub id: String,
    pub status: PaypalCancelStatus,
    pub amount: Option<OrderAmount>,
    pub invoice_id: Option<String>,
}

/// The response to a refund.
#[derive(Debug, Clone)]
pub struct RefundResponse {
    pub id: String,
    pub status: RefundStatus,
    pub amount: Option<OrderAmount>,
}

/// The response to a request for an access token.
pub struct PaypalAuthUpdateResponse {
    pub access_token: Secret,
    pub token_type: String,
    pub expires_in: i64,
}

/// The response to an incremental authorization, as far as the platform
/// reads it.
#[derive(Debug, Clone)]
pub struct PaypalIncrementalAuthResponse {
    pub status: PaypalIncrementalStatus,
    pub status_details: PaypalIncrementalAuthStatusDetails,
    pub id: String,
    pub invoice_id: String,
    pub custom_id: String,
    pub links: Vec<PaypalLinks>,
    pub amount: OrderAmount,
    pub network_transaction_reference: PaypalNetworkTransactionReference,
    pub expiration_time: String,
    pub create_time: String,
    pub update_time: String,
    pub supplementary_data: PaypalSupplementaryData,
}

/// A purchase unit of a webhook.
#[derive(Debug, Clone)]
pub struct PaypalWebhooksPurchaseUnits {
    pub reference_id: String,
    pub amount: OrderAmount,
}

/// The body of a dispute webhook. Times are held as PayPal writes them.
#[derive(Debug, Clone)]
pub struct PaypalDisputeWebhooks {
    pub dispute_id: String,
    pub disputed_transactions: Vec<DisputeTransaction>,
    pub dispute_amount: OrderAmount,
    pub dispute_outcome: Option<DisputeOutcome>,
    pub dispute_life_cycle_stage: DisputeLifeCycleStage,
    pub status: DisputeStatus,
    pub reason: Option<String>,
    pub external_reason_code: Option<String>,
    pub seller_response_due_date: Option<String>,
    pub update_time: Option<String>,
    pub create_time: Option<String>,
}

/// What a webhook is about, in the order in which its forms are tried.
#[derive(Debug, Clone)]
pub enum PaypalResource {
    PaypalCardWebhooks(Box<PaypalCardWebhooks>),
    PaypalRedirectsWebhooks(Box<PaypalRedirectsWebhooks>),
    PaypalRefundWebhooks(Box<PaypalRefundWebhooks>),
    PaypalDisputeWebhooks(Box<PaypalDisputeWebhooks>),
}

/// A webhook.
#[derive(Debug, Clone)]
pub struct PaypalWebhooksBody {
    pub event_type: PaypalWebhookEventType,
    pub resource: PaypalResource,
}

} // verus!
