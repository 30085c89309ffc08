//! What PayPal's webhooks mean to the platform.
//!
//! An event that the platform has no use for is not an error: it is reported
//! as an event that is not supported. Only where a payment, refund or order
//! must be built from an event is an unsuitable event an error.

use vstd::prelude::*;
use vstd::std_specs::convert::{FromSpecImpl, TryFromSpecImpl};

use crate::connectors::paypal::types::{
    DisputeLifeCycleStage, ErrorDetails, OrderErrorDetails, OutcomeCode, PaypalCardWebhooks,
    PaypalOrderStatus, PaypalOrdersResponse, PaypalPaymentStatus, PaypalPaymentsSyncResponse,
    PaypalRedirectsWebhooks, PaypalRefundWebhooks, PaypalSourceVerificationStatus,
    PaypalWebhookEventType, RefundStatus, RefundSyncResponse,
};
use crate::connectors::types::{
    ConnectorError, DisputeStage, ErrorCodeAndMessage, IncomingWebhookEvent, VerifyWebhookStatus,
};

verus! {

/// What the outcome of a resolved dispute reports.
pub open spec fn event_of_outcome(outcome_code: OutcomeCode) -> IncomingWebhookEvent {
    match outcome_code {
        OutcomeCode::ResolvedBuyerFavour => IncomingWebhookEvent::DisputeLost,
        OutcomeCode::ResolvedSellerFavour => IncomingWebhookEvent::DisputeWon,
        OutcomeCode::CanceledByBuyer => IncomingWebhookEvent::DisputeCancelled,
        OutcomeCode::ACCEPTED => IncomingWebhookEvent::DisputeAccepted,
        OutcomeCode::DENIED => IncomingWebhookEvent::DisputeCancelled,
        OutcomeCode::NONE => IncomingWebhookEvent::DisputeCancelled,
        OutcomeCode::ResolvedWithPayout => IncomingWebhookEvent::EventNotSupported,
    }
}

/// What a webhook reports. A resolved dispute reports by its outcome, and
/// nothing the platform supports where it has none.
pub open spec fn event_of_webhook(
    event: PaypalWebhookEventType,
    outcome: Option<OutcomeCode>,
) -> IncomingWebhookEvent {
    match event {
        PaypalWebhookEventType::PaymentCaptureCompleted
        | PaypalWebhookEventType::CheckoutOrderCompleted => {
            IncomingWebhookEvent::PaymentIntentSuccess
        },
        PaypalWebhookEventType::PaymentCapturePending
        | PaypalWebhookEventType::CheckoutOrderProcessed => {
            IncomingWebhookEvent::PaymentIntentProcessing
        },
        PaypalWebhookEventType::PaymentCaptureDeclined => {
            IncomingWebhookEvent::PaymentIntentFailure
        },
        PaypalWebhookEventType::PaymentCaptureRefunded => IncomingWebhookEvent::RefundSuccess,
        PaypalWebhookEventType::CustomerDisputeCreated => IncomingWebhookEvent::DisputeOpened,
        PaypalWebhookEventType::RiskDisputeCreated => IncomingWebhookEvent::DisputeAccepted,
        PaypalWebhookEventType::CustomerDisputeResolved => match outcome {
            Some(outcome_code) => event_of_outcome(outcome_code),
            None => IncomingWebhookEvent::EventNotSupported,
        },
        PaypalWebhookEventType::PaymentAuthorizationCreated
        | PaypalWebhookEventType::PaymentAuthorizationVoided
        | PaypalWebhookEventType::CheckoutOrderApproved
        | PaypalWebhookEventType::CustomerDisputedUpdated
        | PaypalWebhookEventType::Unknown => IncomingWebhookEvent::EventNotSupported,
    }
}

/// The stage of a dispute.
pub open spec fn dispute_stage_of(stage: DisputeLifeCycleStage) -> DisputeStage {
    match stage {
        DisputeLifeCycleStage::Inquiry => DisputeStage::PreDispute,
        DisputeLifeCycleStage::Chargeback => DisputeStage::Dispute,
        DisputeLifeCycleStage::PreArbitration => DisputeStage::PreArbitration,
        DisputeLifeCycleStage::Arbitration => DisputeStage::PreArbitration,
    }
}

/// Whether the source of a webhook was verified.
pub open spec fn verification_of(item: PaypalSourceVerificationStatus) -> VerifyWebhookStatus {
    match item {
        PaypalSourceVerificationStatus::Success => VerifyWebhookStatus::SourceVerified,
        PaypalSourceVerificationStatus::Failure => VerifyWebhookStatus::SourceNotVerified,
    }
}

/// The state of the payment that an event reports, where it reports one.
pub open spec fn payment_status_of_event(event: PaypalWebhookEventType) -> Result<
    PaypalPaymentStatus,
    ConnectorError,
> {
    match event {
        PaypalWebhookEventType::PaymentCaptureCompleted
        | PaypalWebhookEventType::CheckoutOrderCompleted => Ok(PaypalPaymentStatus::Completed),
        PaypalWebhookEventType::PaymentAuthorizationVoided => Ok(PaypalPaymentStatus::Voided),
        PaypalWebhookEventType::PaymentCaptureDeclined => Ok(PaypalPaymentStatus::Declined),
        PaypalWebhookEventType::PaymentCapturePending
        | PaypalWebhookEventType::CheckoutOrderApproved
        | PaypalWebhookEventType::CheckoutOrderProcessed => Ok(PaypalPaymentStatus::Pending),
        PaypalWebhookEventType::PaymentAuthorizationCreated => Ok(PaypalPaymentStatus::Created),
        PaypalWebhookEventType::PaymentCaptureRefunded => Ok(PaypalPaymentStatus::Refunded),
        PaypalWebhookEventType::CustomerDisputeCreated
        | PaypalWebhookEventType::CustomerDisputeResolved
        | PaypalWebhookEventType::CustomerDisputedUpdated
        | PaypalWebhookEventType::RiskDisputeCreated
        | PaypalWebhookEventType::Unknown => Err(ConnectorError::WebhookEventTypeNotFound),
    }
}

/// The state of the refund that an event reports: only a refunded capture
/// reports one.
pub open spec fn refund_status_of_event(event: PaypalWebhookEventType) -> Result<
    RefundStatus,
    ConnectorError,
> {
    if event == PaypalWebhookEventType::PaymentCaptureRefunded {
        Ok(RefundStatus::Completed)
    } else {
        Err(ConnectorError::WebhookEventTypeNotFound)
    }
}

/// The state of the order that an event reports, where it reports one.
pub open spec fn order_status_of_event(event: PaypalWebhookEventType) -> Result<
    PaypalOrderStatus,
    ConnectorError,
> {
    match event {
        PaypalWebhookEventType::PaymentCaptureCompleted
        | PaypalWebhookEventType::CheckoutOrderCompleted => Ok(PaypalOrderStatus::Completed),
        PaypalWebhookEventType::PaymentAuthorizationVoided => Ok(PaypalOrderStatus::Voided),
        PaypalWebhookEventType::PaymentCapturePending
        | PaypalWebhookEventType::CheckoutOrderProcessed => Ok(PaypalOrderStatus::Pending),
        PaypalWebhookEventType::PaymentAuthorizationCreated => Ok(PaypalOrderStatus::Created),
        PaypalWebhookEventType::CheckoutOrderApproved
        | PaypalWebhookEventType::PaymentCaptureDeclined
        | PaypalWebhookEventType::PaymentCaptureRefunded
        | PaypalWebhookEventType::CustomerDisputeCreated
        | PaypalWebhookEventType::CustomerDisputeResolved
        | PaypalWebhookEventType::CustomerDisputedUpdated
        | PaypalWebhookEventType::RiskDisputeCreated
        | PaypalWebhookEventType::Unknown => Err(ConnectorError::WebhookEventTypeNotFound),
    }
}

/// What a webhook reports.
pub fn get_payapl_webhooks_event(event: PaypalWebhookEventType, outcome: Option<OutcomeCode>) -> (res:
    IncomingWebhookEvent)
    ensures
        res == event_of_webhook(event, outcome),
{
    match event {
        PaypalWebhookEventType::PaymentCaptureCompleted
        | PaypalWebhookEventType::CheckoutOrderCompleted => {
            IncomingWebhookEvent::PaymentIntentSuccess
        },
        PaypalWebhookEventType::PaymentCapturePending
        | PaypalWebhookEventType::CheckoutOrderProcessed => {
            IncomingWebhookEvent::PaymentIntentProcessing
        },
        PaypalWebhookEventType::PaymentCaptureDeclined => {
            IncomingWebhookEvent::PaymentIntentFailure
        },
        PaypalWebhookEventType::PaymentCaptureRefunded => IncomingWebhookEvent::RefundSuccess,
        PaypalWebhookEventType::CustomerDisputeCreated => IncomingWebhookEvent::DisputeOpened,
        PaypalWebhookEventType::RiskDisputeCreated => IncomingWebhookEvent::DisputeAccepted,
        PaypalWebhookEventType::CustomerDisputeResolved => {
            if let Some(outcome_code) = outcome {
                IncomingWebhookEvent::from(outcome_code)
            } else {
                IncomingWebhookEvent::EventNotSupported
            }
        },
        PaypalWebhookEventType::PaymentAuthorizationCreated
        | PaypalWebhookEventType::PaymentAuthorizationVoided
        | PaypalWebhookEventType::CheckoutOrderApproved
        | PaypalWebhookEventType::CustomerDisputedUpdated
        | PaypalWebhookEventType::Unknown => IncomingWebhookEvent::EventNotSupported,
    }
}

impl From<OutcomeCode> for IncomingWebhookEvent {
    fn from(outcome_code: OutcomeCode) -> (res: Self) {
        match outcome_code {
            OutcomeCode::ResolvedBuyerFavour => IncomingWebhookEvent::DisputeLost,
            OutcomeCode::ResolvedSellerFavour => IncomingWebhookEvent::DisputeWon,
            OutcomeCode::CanceledByBuyer => IncomingWebhookEvent::DisputeCancelled,
            OutcomeCode::ACCEPTED => IncomingWebhookEvent::DisputeAccepted,
            OutcomeCode::DENIED => IncomingWebhookEvent::DisputeCancelled,
            OutcomeCode::NONE => IncomingWebhookEvent::DisputeCancelled,
            OutcomeCode::ResolvedWithPayout => IncomingWebhookEvent::EventNotSupported,
        }
    }
}

impl FromSpecImpl<OutcomeCode> for IncomingWebhookEvent {
    open spec fn obeys_from_spec() -> bool {
        true
    }

    open spec fn from_spec(outcome_code: OutcomeCode) -> Self {
        event_of_outcome(outcome_code)
    }
}

impl From<DisputeLifeCycleStage> for DisputeStage {
    fn from(dispute_life_cycle_stage: DisputeLifeCycleStage) -> (res: Self) {
        match dispute_life_cycle_stage {
            DisputeLifeCycleStage::Inquiry => DisputeStage::PreDispute,
            DisputeLifeCycleStage::Chargeback => DisputeStage::Dispute,
            DisputeLifeCycleStage::PreArbitration => DisputeStage::PreArbitration,
            DisputeLifeCycleStage::Arbitration => DisputeStage::PreArbitration,
        }
    }
}

impl FromSpecImpl<DisputeLifeCycleStage> for DisputeStage {
    open spec fn obeys_from_spec() -> bool {
        true
    }

    open spec fn from_spec(dispute_life_cycle_stage: DisputeLifeCycleStage) -> Self {
        dispute_stage_of(dispute_life_cycle_stage)
    }
}

impl From<PaypalSourceVerificationStatus> for VerifyWebhookStatus {
    fn from(item: PaypalSourceVerificationStatus) -> (res: Self) {
        match item {
            PaypalSourceVerificationStatus::Success => VerifyWebhookStatus::SourceVerified,
            PaypalSourceVerificationStatus::Failure => VerifyWebhookStatus::SourceNotVerified,
        }
    }
}

impl FromSpecImpl<PaypalSourceVerificationStatus> for VerifyWebhookStatus {
    open spec fn obeys_from_spec() -> bool {
        true
    }

    open spec fn from_spec(item: PaypalSourceVerificationStatus) -> Self {
        verification_of(item)
    }
}

impl TryFrom<PaypalWebhookEventType> for PaypalPaymentStatus {
    type Error = ConnectorError;

    fn try_from(event: PaypalWebhookEventType) -> (res: Result<Self, ConnectorError>) {
        match event {
            PaypalWebhookEventType::PaymentCaptureCompleted
            | PaypalWebhookEventType::CheckoutOrderCompleted => Ok(PaypalPaymentStatus::Completed),
            PaypalWebhookEventType::PaymentAuthorizationVoided => Ok(PaypalPaymentStatus::Voided),
            PaypalWebhookEventType::PaymentCaptureDeclined => Ok(PaypalPaymentStatus::Declined),
            PaypalWebhookEventType::PaymentCapturePending
            | PaypalWebhookEventType::CheckoutOrderApproved
            | PaypalWebhookEventType::CheckoutOrderProcessed => Ok(PaypalPaymentStatus::Pending),
            PaypalWebhookEventType::PaymentAuthorizationCreated => Ok(PaypalPaymentStatus::Created),
            PaypalWebhookEventType::PaymentCaptureRefunded => Ok(PaypalPaymentStatus::Refunded),
            PaypalWebhookEventType::CustomerDisputeCreated
            | PaypalWebhookEventType::CustomerDisputeResolved
            | PaypalWebhookEventType::CustomerDisputedUpdated
            | PaypalWebhookEventType::RiskDisputeCreated
            | PaypalWebhookEventType::Unknown => Err(ConnectorError::WebhookEventTypeNotFound),
        }
    }
}

impl TryFromSpecImpl<PaypalWebhookEventType> for PaypalPaymentStatus {
    open spec fn obeys_try_from_spec() -> bool {
        true
    }

    open spec fn try_from_spec(event: PaypalWebhookEventType) -> Result<Self, ConnectorError> {
        payment_status_of_event(event)
    }
}

impl TryFrom<PaypalWebhookEventType> for RefundStatus {
    type Error = ConnectorError;

    fn try_from(event: PaypalWebhookEventType) -> (res: Result<Self, ConnectorError>) {
        match event {
            PaypalWebhookEventType::PaymentCaptureRefunded => Ok(RefundStatus::Completed),
            PaypalWebhookEventType::PaymentAuthorizationCreated
            | PaypalWebhookEventType::PaymentAuthorizationVoided
            | PaypalWebhookEventType::PaymentCaptureDeclined
            | PaypalWebhookEventType::PaymentCaptureCompleted
            | PaypalWebhookEventType::PaymentCapturePending
            | PaypalWebhookEventType::CheckoutOrderApproved
            | PaypalWebhookEventType::CheckoutOrderCompleted
            | PaypalWebhookEventType::CheckoutOrderProcessed
            | PaypalWebhookEventType::CustomerDisputeCreated
            | PaypalWebhookEventType::CustomerDisputeResolved
            | PaypalWebhookEventType::CustomerDisputedUpdated
            | PaypalWebhookEventType::RiskDisputeCreated
            | PaypalWebhookEventType::Unknown => Err(ConnectorError::WebhookEventTypeNotFound),
        }
    }
}

impl TryFromSpecImpl<PaypalWebhookEventType> for RefundStatus {
    open spec fn obeys_try_from_spec() -> bool {
        true
    }

    open spec fn try_from_spec(event: PaypalWebhookEventType) -> Result<Self, ConnectorError> {
        refund_status_of_event(event)
    }
}

impl TryFrom<PaypalWebhookEventType> for PaypalOrderStatus {
    type Error = ConnectorError;

    fn try_from(event: PaypalWebhookEventType) -> (res: Result<Self, ConnectorError>) {
        match event {
            PaypalWebhookEventType::PaymentCaptureCompleted
            | PaypalWebhookEventType::CheckoutOrderCompleted => Ok(PaypalOrderStatus::Completed),
            PaypalWebhookEventType::PaymentAuthorizationVoided => Ok(PaypalOrderStatus::Voided),
            PaypalWebhookEventType::PaymentCapturePending
            | PaypalWebhookEventType::CheckoutOrderProcessed => Ok(PaypalOrderStatus::Pending),
            PaypalWebhookEventType::PaymentAuthorizationCreated => Ok(PaypalOrderStatus::Created),
            PaypalWebhookEventType::CheckoutOrderApproved
            | PaypalWebhookEventType::PaymentCaptureDeclined
            | PaypalWebhookEventType::PaymentCaptureRefunded
            | PaypalWebhookEventType::CustomerDisputeCreated
            | PaypalWebhookEventType::CustomerDisputeResolved
            | PaypalWebhookEventType::CustomerDisputedUpdated
            | PaypalWebhookEventType::RiskDisputeCreated
            | PaypalWebhookEventType::Unknown => Err(ConnectorError::WebhookEventTypeNotFound),
        }
    }
}

impl TryFromSpecImpl<PaypalWebhookEventType> for PaypalOrderStatus {
    open spec fn obeys_try_from_spec() -> bool {
        true
    }

    open spec fn try_from_spec(event: PaypalWebhookEventType) -> Result<Self, ConnectorError> {
        order_status_of_event(event)
    }
}

/// The payment that a card webhook reports: the webhook's own data under the
/// id of the related order, in the state that the event reports.
pub open spec fn payment_of_card_webhook(
    webhook_body: PaypalCardWebhooks,
    webhook_event: PaypalWebhookEventType,
) -> Result<PaypalPaymentsSyncResponse, ConnectorError> {
    match payment_status_of_event(webhook_event) {
        Ok(status) => Ok(
            PaypalPaymentsSyncResponse {
                id: webhook_body.supplementary_data.related_ids.order_id,
                status,
                amount: webhook_body.amount,
                supplementary_data: webhook_body.supplementary_data,
                invoice_id: webhook_body.invoice_id,
            },
        ),
        Err(error) => Err(error),
    }
}

/// The order that a redirect webhook reports.
pub open spec fn order_of_redirect_webhook(
    webhook_body: PaypalRedirectsWebhooks,
    webhook_event: PaypalWebhookEventType,
) -> Result<PaypalOrdersResponse, ConnectorError> {
    match order_status_of_event(webhook_event) {
        Ok(status) => Ok(
            PaypalOrdersResponse {
                id: webhook_body.id,
                intent: webhook_body.intent,
                status,
                purchase_units: webhook_body.purchase_units,
                payment_source: None,
            },
        ),
        Err(error) => Err(error),
    }
}

/// The refund that a refund webhook reports.
pub open spec fn refund_of_refund_webhook(
    webhook_body: PaypalRefundWebhooks,
    webhook_event: PaypalWebhookEventType,
) -> Result<RefundSyncResponse, ConnectorError> {
    match refund_status_of_event(webhook_event) {
        Ok(status) => Ok(RefundSyncResponse { id: webhook_body.id, status }),
        Err(error) => Err(error),
    }
}

impl TryFrom<(PaypalCardWebhooks, PaypalWebhookEventType)> for PaypalPaymentsSyncResponse {
    type Error = ConnectorError;

    fn try_from(value: (PaypalCardWebhooks, PaypalWebhookEventType)) -> (res: Result<
        Self,
        ConnectorError,
    >) {
        let (webhook_body, webhook_event) = value;
        match PaypalPaymentStatus::try_from(webhook_event) {
            Ok(status) => Ok(
                PaypalPaymentsSyncResponse {
                    id: webhook_body.supplementary_data.related_ids.order_id.clone(),
                    status,
                    amount: webhook_body.amount,
                    supplementary_data: webhook_body.supplementary_data,
                    invoice_id: webhook_body.invoice_id,
                },
            ),
            Err(error) => Err(error),
        }
    }
}

impl TryFromSpecImpl<(PaypalCardWebhooks, PaypalWebhookEventType)> for PaypalPaymentsSyncResponse {
    open spec fn obeys_try_from_spec() -> bool {
        true
    }

    open spec fn try_from_spec(value: (PaypalCardWebhooks, PaypalWebhookEventType)) -> Result<
        Self,
        ConnectorError,
    > {
        payment_of_card_webhook(value.0, value.1)
    }
}

impl TryFrom<(PaypalRedirectsWebhooks, PaypalWebhookEventType)> for PaypalOrdersResponse {
    type Error = ConnectorError;

    fn try_from(value: (PaypalRedirectsWebhooks, PaypalWebhookEventType)) -> (res: Result<
        Self,
        ConnectorError,
    >) {
        let (webhook_body, webhook_event) = value;
        match PaypalOrderStatus::try_from(webhook_event) {
            Ok(status) => Ok(
                PaypalOrdersResponse {
                    id: webhook_body.id,
                    intent: webhook_body.intent,
                    status,
                    purchase_units: webhook_body.purchase_units,
                    payment_source: None,
                },
            ),
            Err(error) => Err(error),
        }
    }
}

impl TryFromSpecImpl<(PaypalRedirectsWebhooks, PaypalWebhookEventType)> for PaypalOrdersResponse {
    open spec fn obeys_try_from_spec() -> bool {
        true
    }

    open spec fn try_from_spec(value: (PaypalRedirectsWebhooks, PaypalWebhookEventType)) -> Result<
        Self,
        ConnectorError,
    > {
        order_of_redirect_webhook(value.0, value.1)
    }
}

impl TryFrom<(PaypalRefundWebhooks, PaypalWebhookEventType)> for RefundSyncResponse {
    type Error = ConnectorError;

    fn try_from(value: (PaypalRefundWebhooks, PaypalWebhookEventType)) -> (res: Result<
        Self,
        ConnectorError,
    >) {
        let (webhook_body, webhook_event) = value;
        match RefundStatus::try_from(webhook_event) {
            Ok(status) => Ok(RefundSyncResponse { id: webhook_body.id, status }),
            Err(error) => Err(error),
        }
    }
}

impl TryFromSpecImpl<(PaypalRefundWebhooks, PaypalWebhookEventType)> for RefundSyncResponse {
    open spec fn obeys_try_from_spec() -> bool {
        true
    }

    open spec fn try_from_spec(value: (PaypalRefundWebhooks, PaypalWebhookEventType)) -> Result<
        Self,
        ConnectorError,
    > {
        refund_of_refund_webhook(value.0, value.1)
    }
}

impl From<OrderErrorDetails> for ErrorCodeAndMessage {
    fn from(error: OrderErrorDetails) -> (res: Self) {
        ErrorCodeAndMessage { error_code: error.issue.clone(), error_message: error.issue }
    }
}

impl FromSpecImpl<OrderErrorDetails> for ErrorCodeAndMessage {
    open spec fn obeys_from_spec() -> bool {
        true
    }

    /// Both the code and the message are the issue that PayPal names.
    open spec fn from_spec(error: OrderErrorDetails) -> Self {
        ErrorCodeAndMessage { error_code: error.issue, error_message: error.issue }
    }
}

impl From<ErrorDetails> for ErrorCodeAndMessage {
    fn from(error: ErrorDetails) -> (res: Self) {
        ErrorCodeAndMessage { error_code: error.issue.clone(), error_message: error.issue }
    }
}

impl FromSpecImpl<ErrorDetails> for ErrorCodeAndMessage {
    open spec fn obeys_from_spec() -> bool {
        true
    }

    /// Both the code and the message are the issue that PayPal names.
    open spec fn from_spec(error: ErrorDetails) -> Self {
        ErrorCodeAndMessage { error_code: error.issue, error_message: error.issue }
    }
}

/// The three readings of an event agree. An event that reports a success or
/// a refund has a payment in a paid state; an event that reports a failure
/// has a declined payment; an event from which no payment can be built is an
/// event about a dispute or an unknown one, and no order or refund can be
/// built from it either; a refund can be built from a refund event alone.
pub proof fn lemma_event_readings_agree(event: PaypalWebhookEventType, outcome: Option<OutcomeCode>)
    ensures
        event_of_webhook(event, outcome) == IncomingWebhookEvent::PaymentIntentSuccess
            ==> payment_status_of_event(event) == Ok::<PaypalPaymentStatus, ConnectorError>(
            PaypalPaymentStatus::Completed,
        ) && order_status_of_event(event) == Ok::<PaypalOrderStatus, ConnectorError>(
            PaypalOrderStatus::Completed,
        ),
        event_of_webhook(event, outcome) == IncomingWebhookEvent::PaymentIntentFailure
            ==> payment_status_of_event(event) == Ok::<PaypalPaymentStatus, ConnectorError>(
            PaypalPaymentStatus::Declined,
        ),
        event_of_webhook(event, outcome) == IncomingWebhookEvent::RefundSuccess
            <==> refund_status_of_event(event) is Ok,
        payment_status_of_event(event) is Err ==> order_status_of_event(event) is Err
            && refund_status_of_event(event) is Err,
        order_status_of_event(event) is Ok ==> payment_status_of_event(event) is Ok,
{
}

/// Only a dispute event reports a dispute, and whatever an unknown event is,
/// it is reported as not supported and never as an error.
pub proof fn lemma_unknown_events_are_not_supported(outcome: Option<OutcomeCode>)
    ensures
        event_of_webhook(PaypalWebhookEventType::Unknown, outcome)
            == IncomingWebhookEvent::EventNotSupported,
        forall|event: PaypalWebhookEventType|
            #![trigger event_of_webhook(event, outcome)]
            payment_status_of_event(event) is Ok ==> event_of_webhook(event, outcome)
                != IncomingWebhookEvent::DisputeOpened && event_of_webhook(event, outcome)
                != IncomingWebhookEvent::DisputeWon && event_of_webhook(event, outcome)
                != IncomingWebhookEvent::DisputeLost && event_of_webhook(event, outcome)
                != IncomingWebhookEvent::DisputeAccepted && event_of_webhook(event, outcome)
                != IncomingWebhookEvent::DisputeCancelled,
{
}

} // verus!
