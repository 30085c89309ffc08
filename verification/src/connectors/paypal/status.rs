//! From PayPal's states to the platform's.

use vstd::prelude::*;
use vstd::std_specs::convert::FromSpecImpl;

use crate::connectors::paypal::types::{
    PaymentsCollectionItem, PaypalFulfillStatus, PaypalIncrementalStatus, PaypalOrderStatus,
    PaypalOrdersResponse, PaypalPaymentIntent, PaypalPaymentStatus, PurchaseUnitItem, RefundStatus,
};
use crate::connectors::types::{AttemptStatus, AuthorizationStatus, ConnectorError, PayoutStatus};

verus! {

/// The state of an attempt whose order is in the given state. A completed
/// order was authorized where the intent was to authorize, and charged
/// otherwise.
pub open spec fn attempt_status_of_order(
    item: PaypalOrderStatus,
    intent: PaypalPaymentIntent,
) -> AttemptStatus {
    match item {
        PaypalOrderStatus::Completed => if intent == PaypalPaymentIntent::Authorize {
            AttemptStatus::Authorized
        } else {
            AttemptStatus::Charged
        },
        PaypalOrderStatus::Voided => AttemptStatus::Voided,
        PaypalOrderStatus::Created | PaypalOrderStatus::Saved | PaypalOrderStatus::Pending => {
            AttemptStatus::Pending
        },
        PaypalOrderStatus::Approved => AttemptStatus::AuthenticationSuccessful,
        PaypalOrderStatus::PayerActionRequired => AttemptStatus::AuthenticationPending,
    }
}

/// The state of an attempt whose payment is in the given state.
pub open spec fn attempt_status_of_payment(item: PaypalPaymentStatus) -> AttemptStatus {
    match item {
        PaypalPaymentStatus::Created => AttemptStatus::Authorized,
        PaypalPaymentStatus::Completed
        | PaypalPaymentStatus::Captured
        | PaypalPaymentStatus::Refunded => AttemptStatus::Charged,
        PaypalPaymentStatus::Declined => AttemptStatus::Failure,
        PaypalPaymentStatus::Failed => AttemptStatus::CaptureFailed,
        PaypalPaymentStatus::Pending => AttemptStatus::Pending,
        PaypalPaymentStatus::Denied | PaypalPaymentStatus::Expired => AttemptStatus::Failure,
        PaypalPaymentStatus::PartiallyCaptured => AttemptStatus::PartialCharged,
        PaypalPaymentStatus::Voided => AttemptStatus::Voided,
    }
}

/// The state of an incremental authorization.
pub open spec fn authorization_status_of(item: PaypalIncrementalStatus) -> AuthorizationStatus {
    match item {
        PaypalIncrementalStatus::CREATED
        | PaypalIncrementalStatus::CAPTURED
        | PaypalIncrementalStatus::PARTIALLYCAPTURED => AuthorizationStatus::Success,
        PaypalIncrementalStatus::PENDING => AuthorizationStatus::Processing,
        PaypalIncrementalStatus::DENIED | PaypalIncrementalStatus::VOIDED => {
            AuthorizationStatus::Failure
        },
    }
}

/// The state of a payout.
pub open spec fn payout_status_of(status: PaypalFulfillStatus) -> PayoutStatus {
    match status {
        PaypalFulfillStatus::Success => PayoutStatus::Success,
        PaypalFulfillStatus::Denied => PayoutStatus::Failed,
        PaypalFulfillStatus::Cancelled => PayoutStatus::Cancelled,
        PaypalFulfillStatus::Pending | PaypalFulfillStatus::Processing => PayoutStatus::Pending,
    }
}

/// The state of a refund.
pub open spec fn refund_status_of(item: RefundStatus) -> crate::connectors::types::RefundStatus {
    match item {
        RefundStatus::Completed => crate::connectors::types::RefundStatus::Success,
        RefundStatus::Failed | RefundStatus::Cancelled => {
            crate::connectors::types::RefundStatus::Failure
        },
        RefundStatus::Pending => crate::connectors::types::RefundStatus::Pending,
    }
}

/// The id of the first item of an optional list, where there is one.
pub open spec fn first_item_id(items: Option<Vec<PaymentsCollectionItem>>) -> Option<String> {
    match items {
        Some(list) => if list@.len() > 0 {
            Some(list@[0].id)
        } else {
            None
        },
        None => None,
    }
}

/// The id by which a purchase unit's payment is known: that of its first
/// capture where the intent was to capture, that of its first authorization
/// where the intent was to authorize. There is none where the intent was to
/// authenticate, or where the list is absent or empty.
pub open spec fn id_for_intent(
    intent: PaypalPaymentIntent,
    purchase_unit: PurchaseUnitItem,
) -> Option<String> {
    match intent {
        PaypalPaymentIntent::Capture => first_item_id(purchase_unit.payments.captures),
        PaypalPaymentIntent::Authorize => first_item_id(purchase_unit.payments.authorizations),
        PaypalPaymentIntent::Authenticate => None,
    }
}

/// The id of the first authorization of the first purchase unit, among the
/// given ones, that has one.
pub open spec fn first_authorization_id(units: Seq<PurchaseUnitItem>) -> Option<String>
    decreases units.len(),
{
    if units.len() == 0 {
        None
    } else {
        match first_item_id(units[0].payments.authorizations) {
            Some(id) => Some(id),
            None => first_authorization_id(units.subrange(1, units.len() as int)),
        }
    }
}

/// The state of an attempt whose order is in the given state.
pub fn get_order_status(item: PaypalOrderStatus, intent: PaypalPaymentIntent) -> (res:
    AttemptStatus)
    ensures
        res == attempt_status_of_order(item, intent),
{
    match item {
        PaypalOrderStatus::Completed => {
            if intent == PaypalPaymentIntent::Authorize {
                AttemptStatus::Authorized
            } else {
                AttemptStatus::Charged
            }
        },
        PaypalOrderStatus::Voided => AttemptStatus::Voided,
        PaypalOrderStatus::Created | PaypalOrderStatus::Saved | PaypalOrderStatus::Pending => {
            AttemptStatus::Pending
        },
        PaypalOrderStatus::Approved => AttemptStatus::AuthenticationSuccessful,
        PaypalOrderStatus::PayerActionRequired => AttemptStatus::AuthenticationPending,
    }
}

/// The state of a payout.
pub fn get_payout_status(status: PaypalFulfillStatus) -> (res: PayoutStatus)
    ensures
        res == payout_status_of(status),
{
    match status {
        PaypalFulfillStatus::Success => PayoutStatus::Success,
        PaypalFulfillStatus::Denied => PayoutStatus::Failed,
        PaypalFulfillStatus::Cancelled => PayoutStatus::Cancelled,
        PaypalFulfillStatus::Pending | PaypalFulfillStatus::Processing => PayoutStatus::Pending,
    }
}

impl From<PaypalPaymentStatus> for AttemptStatus {
    fn from(item: PaypalPaymentStatus) -> (res: Self) {
        match item {
            PaypalPaymentStatus::Created => AttemptStatus::Authorized,
            PaypalPaymentStatus::Completed
            | PaypalPaymentStatus::Captured
            | PaypalPaymentStatus::Refunded => AttemptStatus::Charged,
            PaypalPaymentStatus::Declined => AttemptStatus::Failure,
            PaypalPaymentStatus::Failed => AttemptStatus::CaptureFailed,
            PaypalPaymentStatus::Pending => AttemptStatus::Pending,
            PaypalPaymentStatus::Denied | PaypalPaymentStatus::Expired => AttemptStatus::Failure,
            PaypalPaymentStatus::PartiallyCaptured => AttemptStatus::PartialCharged,
            PaypalPaymentStatus::Voided => AttemptStatus::Voided,
        }
    }
}

impl FromSpecImpl<PaypalPaymentStatus> for AttemptStatus {
    open spec fn obeys_from_spec() -> bool {
        true
    }

    open spec fn from_spec(item: PaypalPaymentStatus) -> Self {
        attempt_status_of_payment(item)
    }
}

impl From<PaypalIncrementalStatus> for AuthorizationStatus {
    fn from(item: PaypalIncrementalStatus) -> (res: Self) {
        match item {
            PaypalIncrementalStatus::CREATED
            | PaypalIncrementalStatus::CAPTURED
            | PaypalIncrementalStatus::PARTIALLYCAPTURED => AuthorizationStatus::Success,
            PaypalIncrementalStatus::PENDING => AuthorizationStatus::Processing,
            PaypalIncrementalStatus::DENIED | PaypalIncrementalStatus::VOIDED => {
                AuthorizationStatus::Failure
            },
        }
    }
}

impl FromSpecImpl<PaypalIncrementalStatus> for AuthorizationStatus {
    open spec fn obeys_from_spec() -> bool {
        true
    }

    open spec fn from_spec(item: PaypalIncrementalStatus) -> Self {
        authorization_status_of(item)
    }
}

impl From<RefundStatus> for crate::connectors::types::RefundStatus {
    fn from(item: RefundStatus) -> (res: Self) {
        match item {
            RefundStatus::Completed => crate::connectors::types::RefundStatus::Success,
            RefundStatus::Failed | RefundStatus::Cancelled => {
                crate::connectors::types::RefundStatus::Failure
            },
            RefundStatus::Pending => crate::connectors::types::RefundStatus::Pending,
        }
    }
}

impl FromSpecImpl<RefundStatus> for crate::connectors::types::RefundStatus {
    open spec fn obeys_from_spec() -> bool {
        true
    }

    open spec fn from_spec(item: RefundStatus) -> Self {
        refund_status_of(item)
    }
}

fn first_id(items: &Option<Vec<PaymentsCollectionItem>>) -> (res: Option<String>)
    ensures
        res == first_item_id(*items),
{
    match items {
        Some(list) => {
            if list.len() > 0 {
                Some(list[0].id.clone())
            } else {
                None
            }
        },
        None => None,
    }
}

/// The id by which a purchase unit's payment is known, or an error where it
/// has none.
pub fn get_id_based_on_intent(intent: &PaypalPaymentIntent, purchase_unit: &PurchaseUnitItem) -> (res:
    Result<String, ConnectorError>)
    ensures
        res == match id_for_intent(*intent, *purchase_unit) {
            Some(id) => Ok::<String, ConnectorError>(id),
            None => Err(ConnectorError::MissingConnectorTransactionID),
        },
{
    let found = match intent {
        PaypalPaymentIntent::Capture => first_id(&purchase_unit.payments.captures),
        PaypalPaymentIntent::Authorize => first_id(&purchase_unit.payments.authorizations),
        PaypalPaymentIntent::Authenticate => None,
    };
    match found {
        Some(id) => Ok(id),
        None => Err(ConnectorError::MissingConnectorTransactionID),
    }
}

/// The id of the authorization that an incremental authorization would
/// extend: that of the first authorization of the first purchase unit that
/// has one.
pub fn extract_incremental_authorization_id(response: &PaypalOrdersResponse) -> (res: Option<
    String,
>)
    ensures
        res == first_authorization_id(response.purchase_units@),
{
    let units = &response.purchase_units;
    let mut i: usize = 0;
    assert(units@.subrange(0, units@.len() as int) =~= units@);
    while i < units.len()
        invariant
            i <= units.len(),
            units@ == response.purchase_units@,
            first_authorization_id(units@) == first_authorization_id(
                units@.subrange(i as int, units@.len() as int),
            ),
        decreases units.len() - i,
    {
        let ghost rest = units@.subrange(i as int, units@.len() as int);
        assert(rest[0] == units@[i as int]);
        assert(rest.subrange(1, rest.len() as int) =~= units@.subrange(
            i as int + 1,
            units@.len() as int,
        ));
        match first_id(&units[i].payments.authorizations) {
            Some(id) => {
                return Some(id);
            },
            None => {},
        }
        i += 1;
    }
    None
}

/// An order is never reported as failed, and only a completed order is
/// reported as paid; the intent matters for a completed order only.
pub proof fn lemma_order_status_outcomes(
    item: PaypalOrderStatus,
    intent: PaypalPaymentIntent,
    other: PaypalPaymentIntent,
)
    ensures
        !crate::connectors::types::payment_failed(attempt_status_of_order(item, intent)),
        attempt_status_of_order(item, intent) == AttemptStatus::Charged || attempt_status_of_order(
            item,
            intent,
        ) == AttemptStatus::Authorized <==> item == PaypalOrderStatus::Completed,
        item != PaypalOrderStatus::Completed ==> attempt_status_of_order(item, intent)
            == attempt_status_of_order(item, other),
{
}

/// A payment is reported as failed exactly when PayPal declined or denied
/// it, let it expire, or failed to capture it.
pub proof fn lemma_payment_status_failures(item: PaypalPaymentStatus)
    ensures
        crate::connectors::types::payment_failed(attempt_status_of_payment(item)) <==> item
            == PaypalPaymentStatus::Declined || item == PaypalPaymentStatus::Denied || item
            == PaypalPaymentStatus::Expired || item == PaypalPaymentStatus::Failed,
{
}

} // verus!
