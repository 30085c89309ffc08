//! What the platform keeps of PayPal's responses: the state of the attempt,
//! how to refer to the transaction, where to send the payer, and what is
//! needed to find the payment again.

use vstd::prelude::*;

use crate::codec::{url_query_pairs_of, url_without_query_of};
use crate::connectors::form::{is_form_of_parts, redirect_form_of_url};
use crate::connectors::paypal::orders::PaypalSetupMandatesResponse;
use crate::connectors::paypal::redirect::{
    get_redirect_url, is_threeds_form, payer_action_href, paypal_threeds_link,
};
use crate::connectors::paypal::status::{
    attempt_status_of_order, attempt_status_of_payment, authorization_status_of,
    extract_incremental_authorization_id, first_authorization_id, first_item_id,
    get_id_based_on_intent, get_order_status, get_payout_status, id_for_intent, payout_status_of,
    refund_status_of,
};
use crate::connectors::paypal::types::{
    NextActionCall, PaymentSourceItemResponse, PaymentsCollection, PaymentsCollectionItem,
    PaypalAuthUpdateResponse, PaypalCancelStatus, PaypalCaptureResponse, PaypalFulfillResponse,
    PaypalIncrementalAuthResponse, PaypalLinks, PaypalMeta, PaypalOrdersResponse,
    PaypalPaymentIntent, PaypalPaymentsCancelResponse, PaypalPaymentsSyncResponse,
    PaypalRedirectResponse, PaypalSyncResponse, PaypalThreeDsResponse, PaypalThreeDsSyncResponse,
    RefundResponse,
    RefundSyncResponse,
};
use crate::connectors::types::{
    clone_optional_string, is_payment_charged, payment_charged, AccessToken, AttemptStatus,
    AuthorizationStatus, ConnectorError, MandateReference, Method, PaymentExperience,
    PayoutsResponseData, RefundsResponseData, ResponseId, TransactionResponse,
};

verus! {

/// The state of an attempt and what is kept of the response behind it.
pub struct PaymentOutcome {
    pub status: AttemptStatus,
    pub response: TransactionResponse<PaypalMeta>,
}

/// The outcome of a capture, with the amount that was captured.
pub struct CaptureOutcome {
    pub status: AttemptStatus,
    pub response: TransactionResponse<PaypalMeta>,
    pub amount_captured: Option<i64>,
}

/// What is kept of the response to an incremental authorization.
#[derive(Debug)]
pub struct IncrementalAuthorizationResponse {
    pub status: AuthorizationStatus,
    pub error_code: Option<String>,
    pub error_message: Option<String>,
    pub connector_authorization_id: Option<String>,
}

/// What the platform stored with a payment to find it again at PayPal.
pub enum StoredMeta {
    /// Nothing was stored.
    Missing,
    /// What was stored cannot be read.
    Invalid,
    /// What was stored.
    Found(PaypalMeta),
}

/// The item of a purchase unit that tells the state of its payment: its
/// first capture where it has captures, else its first authorization.
pub open spec fn deciding_item(payments: PaymentsCollection) -> Option<PaymentsCollectionItem> {
    match (payments.authorizations, payments.captures) {
        (Some(authorizations), None) => if authorizations@.len() > 0 {
            Some(authorizations@[0])
        } else {
            None
        },
        (_, Some(captures)) => if captures@.len() > 0 {
            Some(captures@[0])
        } else {
            None
        },
        (None, None) => None,
    }
}

/// The id under which a payment source was stored in the vault, where it
/// was.
pub open spec fn vault_id_of(source: Option<PaymentSourceItemResponse>) -> Option<String> {
    match source {
        Some(PaymentSourceItemResponse::Paypal(paypal)) => match paypal.attributes {
            Some(attributes) => Some(attributes.vault.id),
            None => None,
        },
        Some(PaymentSourceItemResponse::Card(card)) => match card.attributes {
            Some(attributes) => Some(attributes.vault.id),
            None => None,
        },
        _ => None,
    }
}

/// The first of two optional texts that is there.
pub open spec fn first_of(preferred: Option<String>, fallback: String) -> Option<String> {
    match preferred {
        Some(text) => Some(text),
        None => Some(fallback),
    }
}

/// What is stored to find a payment again: only its intent, unless more is
/// given.
pub open spec fn meta_for(intent: PaypalPaymentIntent) -> PaypalMeta {
    PaypalMeta {
        authorize_id: None,
        capture_id: None,
        incremental_authorization_id: None,
        psync_flow: intent,
        next_action: None,
        order_id: None,
    }
}

/// A response that keeps only how to refer to the transaction.
pub open spec fn plain_response(resource_id: ResponseId) -> TransactionResponse<PaypalMeta> {
    TransactionResponse {
        resource_id,
        redirection_data: None,
        mandate_reference: None,
        connector_metadata: None,
        connector_response_reference_id: None,
        incremental_authorization_allowed: None,
    }
}

/// The first failure in reading an order, if any: an order without a
/// purchase unit or without the id that its intent asks for has no
/// transaction id; an order without an item that tells its state cannot be
/// read.
pub open spec fn order_failure(response: PaypalOrdersResponse) -> Option<ConnectorError> {
    if response.purchase_units@.len() == 0 {
        Some(ConnectorError::MissingConnectorTransactionID)
    } else if id_for_intent(response.intent, response.purchase_units@[0]) is None {
        Some(ConnectorError::MissingConnectorTransactionID)
    } else if deciding_item(response.purchase_units@[0].payments) is None {
        Some(ConnectorError::ResponseDeserializationFailed)
    } else {
        None
    }
}

/// What is stored to find an order again: the id of its capture for an order
/// to capture; the id of its authorization, and of the authorization that an
/// increment would extend, for an order to authorize.
pub open spec fn order_meta(response: PaypalOrdersResponse) -> PaypalMeta {
    let id = id_for_intent(response.intent, response.purchase_units@[0]);
    match response.intent {
        PaypalPaymentIntent::Capture => PaypalMeta { capture_id: id, ..meta_for(response.intent) },
        _ => PaypalMeta {
            authorize_id: id,
            incremental_authorization_id: first_authorization_id(response.purchase_units@),
            ..meta_for(response.intent)
        },
    }
}

/// The outcome of an order that can be read.
pub open spec fn order_outcome(
    response: PaypalOrdersResponse,
    incremental_authorization_allowed: Option<bool>,
) -> PaymentOutcome {
    PaymentOutcome {
        status: attempt_status_of_payment(
            deciding_item(response.purchase_units@[0].payments)->0.status,
        ),
        response: TransactionResponse {
            resource_id: ResponseId::ConnectorTransactionId(response.id),
            redirection_data: None,
            mandate_reference: Some(
                MandateReference { connector_mandate_id: vault_id_of(response.payment_source) },
            ),
            connector_metadata: Some(order_meta(response)),
            connector_response_reference_id: first_of(
                response.purchase_units@[0].invoice_id,
                response.id,
            ),
            incremental_authorization_allowed,
        },
    }
}

fn deciding(payments: &PaymentsCollection) -> (res: Option<&PaymentsCollectionItem>)
    ensures
        match res {
            Some(item) => deciding_item(*payments) == Some(*item),
            None => deciding_item(*payments) is None,
        },
{
    match (&payments.authorizations, &payments.captures) {
        (Some(authorizations), None) => {
            if authorizations.len() > 0 {
                Some(&authorizations[0])
            } else {
                None
            }
        },
        (None, Some(captures)) => {
            if captures.len() > 0 {
                Some(&captures[0])
            } else {
                None
            }
        },
        (Some(_), Some(captures)) => {
            if captures.len() > 0 {
                Some(&captures[0])
            } else {
                None
            }
        },
        _ => None,
    }
}

fn vault_id(source: &Option<PaymentSourceItemResponse>) -> (res: Option<String>)
    ensures
        res == vault_id_of(*source),
{
    match source {
        Some(PaymentSourceItemResponse::Paypal(paypal)) => match &paypal.attributes {
            Some(attributes) => Some(attributes.vault.id.clone()),
            None => None,
        },
        Some(PaymentSourceItemResponse::Card(card)) => match &card.attributes {
            Some(attributes) => Some(attributes.vault.id.clone()),
            None => None,
        },
        Some(PaymentSourceItemResponse::Eps(_)) | Some(PaymentSourceItemResponse::Ideal(_)) => None,
        None => None,
    }
}

fn or_else(preferred: &Option<String>, fallback: &String) -> (res: Option<String>)
    ensures
        res == first_of(*preferred, *fallback),
{
    match preferred {
        Some(text) => Some(text.clone()),
        None => Some(fallback.clone()),
    }
}

/// What the platform keeps of an order.
pub fn orders_response(
    response: &PaypalOrdersResponse,
    incremental_authorization_allowed: Option<bool>,
) -> (res: Result<PaymentOutcome, ConnectorError>)
    ensures
        match order_failure(*response) {
            Some(error) => res matches Err(e) && e == error,
            None => res == Ok::<PaymentOutcome, ConnectorError>(
                order_outcome(*response, incremental_authorization_allowed),
            ),
        },
{
    if response.purchase_units.len() == 0 {
        return Err(ConnectorError::MissingConnectorTransactionID);
    }
    let purchase_units = &response.purchase_units[0];
    let id = match get_id_based_on_intent(&response.intent, purchase_units) {
        Ok(id) => id,
        Err(error) => {
            return Err(error);
        },
    };
    let connector_meta = match response.intent {
        PaypalPaymentIntent::Capture => PaypalMeta {
            authorize_id: None,
            capture_id: Some(id),
            incremental_authorization_id: None,
            psync_flow: response.intent,
            next_action: None,
            order_id: None,
        },
        PaypalPaymentIntent::Authorize => PaypalMeta {
            authorize_id: Some(id),
            capture_id: None,
            incremental_authorization_id: extract_incremental_authorization_id(response),
            psync_flow: response.intent,
            next_action: None,
            order_id: None,
        },
        PaypalPaymentIntent::Authenticate => {
            return Err(ConnectorError::ResponseDeserializationFailed);
        },
    };
    let payment_collection_item = match deciding(&purchase_units.payments) {
        Some(item) => item,
        None => {
            return Err(ConnectorError::ResponseDeserializationFailed);
        },
    };
    let status = AttemptStatus::from(payment_collection_item.status);
    Ok(
        PaymentOutcome {
            status,
            response: TransactionResponse {
                resource_id: ResponseId::ConnectorTransactionId(response.id.clone()),
                redirection_data: None,
                mandate_reference: Some(
                    MandateReference { connector_mandate_id: vault_id(&response.payment_source) },
                ),
                connector_metadata: Some(connector_meta),
                connector_response_reference_id: or_else(&purchase_units.invoice_id, &response.id),
                incremental_authorization_allowed,
            },
        },
    )
}

/// The reference of a redirect order: the invoice of its first purchase
/// unit, or its own id where it has no purchase unit.
pub open spec fn redirect_reference(response: PaypalRedirectResponse) -> String {
    if response.purchase_units@.len() > 0 {
        response.purchase_units@[0].invoice_id
    } else {
        response.id
    }
}

/// Whether an outcome is the one of a redirect order whose payer is sent on
/// by the form of the given parts.
pub open spec fn is_redirect_outcome(
    outcome: PaymentOutcome,
    response: PaypalRedirectResponse,
    next_action: Option<NextActionCall>,
    pairs: Seq<(Seq<char>, Seq<char>)>,
    endpoint: Seq<char>,
) -> bool {
    &&& outcome.status == attempt_status_of_order(response.status, response.intent)
    &&& outcome.response.resource_id == ResponseId::ConnectorTransactionId(response.id)
    &&& outcome.response.redirection_data matches Some(form) && is_form_of_parts(
        form,
        pairs,
        endpoint,
        Method::Get,
    )
    &&& outcome.response.mandate_reference is None
    &&& outcome.response.connector_metadata == Some(
        PaypalMeta { next_action, ..meta_for(response.intent) },
    )
    &&& outcome.response.connector_response_reference_id == Some(redirect_reference(response))
    &&& outcome.response.incremental_authorization_allowed is None
}

/// What reading a redirect order gives: its outcome where it has a link for
/// the payer that is a URL, and the error that it cannot be read otherwise.
pub open spec fn is_redirect_result(
    res: Result<PaymentOutcome, ConnectorError>,
    response: PaypalRedirectResponse,
    next_action: Option<NextActionCall>,
) -> bool {
    match payer_action_href(response.links@) {
        Some(link) => match (url_query_pairs_of(link@), url_without_query_of(link@)) {
            (Some(pairs), Some(endpoint)) => res matches Ok(outcome) && is_redirect_outcome(
                outcome,
                response,
                next_action,
                pairs,
                endpoint,
            ),
            _ => res matches Err(e) && e == ConnectorError::ResponseDeserializationFailed,
        },
        None => res matches Err(e) && e == ConnectorError::ResponseDeserializationFailed,
    }
}

fn clone_links(links: &Vec<PaypalLinks>) -> (res: Vec<PaypalLinks>)
    ensures
        res@ == links@,
{
    let mut out: Vec<PaypalLinks> = Vec::new();
    let mut i: usize = 0;
    while i < links.len()
        invariant
            i <= links.len(),
            out@ == links@.subrange(0, i as int),
        decreases links.len() - i,
    {
        out.push(
            PaypalLinks {
                href: clone_optional_string(&links[i].href),
                rel: links[i].rel.clone(),
            },
        );
        assert(out@ == links@.subrange(0, i + 1));
        i += 1;
    }
    assert(links@.subrange(0, links@.len() as int) == links@);
    out
}

fn redirect_outcome(response: &PaypalRedirectResponse, next_action: Option<NextActionCall>) -> (res:
    Result<PaymentOutcome, ConnectorError>)
    ensures
        is_redirect_result(res, *response, next_action),
{
    let status = get_order_status(response.status, response.intent);
    let link = match get_redirect_url(clone_links(&response.links)) {
        Ok(link) => link,
        Err(error) => {
            return Err(error);
        },
    };
    let connector_meta = PaypalMeta {
        authorize_id: None,
        capture_id: None,
        incremental_authorization_id: None,
        psync_flow: response.intent,
        next_action,
        order_id: None,
    };
    let link = match link {
        Some(link) => link,
        None => {
            return Err(ConnectorError::ResponseDeserializationFailed);
        },
    };
    let form = match redirect_form_of_url(link.as_str(), Method::Get) {
        Some(form) => form,
        None => {
            return Err(ConnectorError::ResponseDeserializationFailed);
        },
    };
    let reference = if response.purchase_units.len() > 0 {
        response.purchase_units[0].invoice_id.clone()
    } else {
        response.id.clone()
    };
    Ok(
        PaymentOutcome {
            status,
            response: TransactionResponse {
                resource_id: ResponseId::ConnectorTransactionId(response.id.clone()),
                redirection_data: Some(form),
                mandate_reference: None,
                connector_metadata: Some(connector_meta),
                connector_response_reference_id: Some(reference),
                incremental_authorization_allowed: None,
            },
        },
    )
}

/// The call that follows a redirect order: the authorization is completed
/// where the payer goes through the SDK.
pub open spec fn next_action_for(payment_experience: Option<PaymentExperience>) -> Option<
    NextActionCall,
> {
    match payment_experience {
        Some(PaymentExperience::InvokeSdkClient) => Some(NextActionCall::CompleteAuthorize),
        _ => None,
    }
}

/// What the platform keeps of a redirect order that was synced.
pub fn redirect_sync_response(
    response: &PaypalRedirectResponse,
    payment_experience: Option<PaymentExperience>,
) -> (res: Result<PaymentOutcome, ConnectorError>)
    ensures
        is_redirect_result(res, *response, next_action_for(payment_experience)),
{
    let next_action = match payment_experience {
        Some(PaymentExperience::InvokeSdkClient) => Some(NextActionCall::CompleteAuthorize),
        _ => None,
    };
    redirect_outcome(response, next_action)
}

/// What the platform keeps of a redirect order that was authorized.
pub fn redirect_authorize_response(response: &PaypalRedirectResponse) -> (res: Result<
    PaymentOutcome,
    ConnectorError,
>)
    ensures
        is_redirect_result(res, *response, None),
{
    redirect_outcome(response, None)
}

/// What the platform keeps of a redirect order after the session tokens were
/// posted: the order is to be confirmed, and is found again by its id.
pub fn post_session_tokens_response(response: &PaypalRedirectResponse) -> (res: PaymentOutcome)
    ensures
        res.status == attempt_status_of_order(response.status, response.intent),
        res.response == (TransactionResponse {
            connector_metadata: Some(
                PaypalMeta {
                    next_action: Some(NextActionCall::Confirm),
                    order_id: Some(response.id),
                    ..meta_for(response.intent)
                },
            ),
            ..plain_response(ResponseId::NoResponseId)
        }),
{
    let status = get_order_status(response.status, response.intent);
    PaymentOutcome {
        status,
        response: TransactionResponse {
            resource_id: ResponseId::NoResponseId,
            redirection_data: None,
            mandate_reference: None,
            connector_metadata: Some(
                PaypalMeta {
                    authorize_id: None,
                    capture_id: None,
                    incremental_authorization_id: None,
                    psync_flow: response.intent,
                    next_action: Some(NextActionCall::Confirm),
                    order_id: Some(response.id.clone()),
                },
            ),
            connector_response_reference_id: None,
            incremental_authorization_allowed: None,
        },
    }
}

/// What the platform keeps of a synced card order that waits for 3DS: the
/// order is reached only before the authorization is completed, so the payer
/// is still to be authenticated.
pub fn threeds_sync_response(response: PaypalThreeDsSyncResponse) -> (res: PaymentOutcome)
    ensures
        res.status == AttemptStatus::AuthenticationPending,
        res.response == plain_response(ResponseId::ConnectorTransactionId(response.id)),
{
    PaymentOutcome {
        status: AttemptStatus::AuthenticationPending,
        response: TransactionResponse {
            resource_id: ResponseId::ConnectorTransactionId(response.id),
            redirection_data: None,
            mandate_reference: None,
            connector_metadata: None,
            connector_response_reference_id: None,
            incremental_authorization_allowed: None,
        },
    }
}

/// What reading a card order that needs 3DS gives: the payer is sent to
/// PayPal's 3DS page and back to the address that completes the
/// authorization; without either address, or with a link that is no URL, the
/// response cannot be used.
pub open spec fn is_threeds_result(
    res: Result<PaymentOutcome, ConnectorError>,
    response: PaypalThreeDsResponse,
    complete_authorize_url: Option<String>,
) -> bool {
    match (payer_action_href(response.links@), complete_authorize_url) {
        (None, _) => res matches Err(e) && e == ConnectorError::ResponseDeserializationFailed,
        (Some(_), None) => res matches Err(e) && e == (ConnectorError::MissingRequiredField {
            field_name: "complete_authorize_url",
        }),
        (Some(link), Some(back)) => match (
            url_query_pairs_of(link@),
            url_without_query_of(link@),
        ) {
            (Some(pairs), Some(endpoint)) => res matches Ok(outcome) && {
                &&& outcome.status == attempt_status_of_order(
                    response.status,
                    PaypalPaymentIntent::Authenticate,
                )
                &&& outcome.response.resource_id == ResponseId::ConnectorTransactionId(response.id)
                &&& outcome.response.redirection_data matches Some(form) && is_threeds_form(
                    form,
                    pairs,
                    endpoint,
                    back@,
                )
                &&& outcome.response.mandate_reference is None
                &&& outcome.response.connector_metadata == Some(
                    meta_for(PaypalPaymentIntent::Authenticate),
                )
                &&& outcome.response.connector_response_reference_id is None
                &&& outcome.response.incremental_authorization_allowed is None
            },
            _ => res matches Err(e) && e == ConnectorError::ResponseDeserializationFailed,
        },
    }
}

/// What the platform keeps of a card order that needs 3DS.
pub fn threeds_response(response: &PaypalThreeDsResponse, complete_authorize_url: &Option<String>) -> (res:
    Result<PaymentOutcome, ConnectorError>)
    ensures
        is_threeds_result(res, *response, *complete_authorize_url),
{
    let status = get_order_status(response.status, PaypalPaymentIntent::Authenticate);
    let link = match get_redirect_url(clone_links(&response.links)) {
        Ok(link) => link,
        Err(error) => {
            return Err(error);
        },
    };
    let form = match paypal_threeds_link((link, clone_optional_string(complete_authorize_url))) {
        Ok(form) => form,
        Err(error) => {
            return Err(error);
        },
    };
    Ok(
        PaymentOutcome {
            status,
            response: TransactionResponse {
                resource_id: ResponseId::ConnectorTransactionId(response.id.clone()),
                redirection_data: Some(form),
                mandate_reference: None,
                connector_metadata: Some(
                    PaypalMeta {
                        authorize_id: None,
                        capture_id: None,
                        incremental_authorization_id: None,
                        psync_flow: PaypalPaymentIntent::Authenticate,
                        next_action: None,
                        order_id: None,
                    },
                ),
                connector_response_reference_id: None,
                incremental_authorization_allowed: None,
            },
        },
    )
}

/// What the platform keeps of a synced payment: it is referred to by the
/// order it belongs to, and by its invoice where it has one.
pub fn payments_sync_response(response: PaypalPaymentsSyncResponse) -> (res: PaymentOutcome)
    ensures
        res.status == attempt_status_of_payment(response.status),
        res.response == (TransactionResponse {
            connector_response_reference_id: first_of(
                response.invoice_id,
                response.supplementary_data.related_ids.order_id,
            ),
            ..plain_response(
                ResponseId::ConnectorTransactionId(
                    response.supplementary_data.related_ids.order_id,
                ),
            )
        }),
{
    let order_id = response.supplementary_data.related_ids.order_id;
    PaymentOutcome {
        status: AttemptStatus::from(response.status),
        response: TransactionResponse {
            resource_id: ResponseId::ConnectorTransactionId(order_id.clone()),
            redirection_data: None,
            mandate_reference: None,
            connector_metadata: None,
            connector_response_reference_id: match response.invoice_id {
                Some(invoice) => Some(invoice),
                None => Some(order_id),
            },
            incremental_authorization_allowed: None,
        },
    }
}

/// What the platform keeps of a mandate that was set up without a payment:
/// the mandate under PayPal's id. PayPal answers 201 where it took the
/// mandate; any other answer is a failure.
pub fn setup_mandate_response(info_response: PaypalSetupMandatesResponse, http_code: u16) -> (res:
    (AttemptStatus, TransactionResponse<PaypalMeta>))
    ensures
        res.0 == if http_code == 201 {
            AttemptStatus::Charged
        } else {
            AttemptStatus::Failure
        },
        res.1 == (TransactionResponse {
            mandate_reference: Some(
                MandateReference { connector_mandate_id: Some(info_response.id) },
            ),
            connector_response_reference_id: Some(info_response.id),
            ..plain_response(ResponseId::ConnectorTransactionId(info_response.id))
        }),
{
    let id = info_response.id;
    let status = if http_code == 201 {
        AttemptStatus::Charged
    } else {
        AttemptStatus::Failure
    };
    (
        status,
        TransactionResponse {
            resource_id: ResponseId::ConnectorTransactionId(id.clone()),
            redirection_data: None,
            mandate_reference: Some(MandateReference { connector_mandate_id: Some(id.clone()) }),
            connector_metadata: None,
            connector_response_reference_id: Some(id),
            incremental_authorization_allowed: None,
        },
    )
}

/// The amount that a capture took: the amount asked for where the attempt
/// has taken funds, and nothing otherwise.
pub open spec fn captured_amount(status: AttemptStatus, amount_to_capture: i64) -> i64 {
    if payment_charged(status) {
        amount_to_capture
    } else {
        0
    }
}

/// What the platform keeps of a capture. The payment is found by what was
/// stored with it; the capture is stored beside the authorization.
pub fn capture_response(
    response: PaypalCaptureResponse,
    stored: StoredMeta,
    connector_transaction_id: String,
    amount_to_capture: i64,
) -> (res: Result<CaptureOutcome, ConnectorError>)
    ensures
        match stored {
            StoredMeta::Missing => res matches Err(e) && e == (ConnectorError::MissingRequiredField {
                field_name: "connector_meta",
            }),
            StoredMeta::Invalid => res matches Err(e) && e
                == ConnectorError::ResponseDeserializationFailed,
            StoredMeta::Found(meta) => res matches Ok(outcome) && {
                &&& outcome.status == attempt_status_of_payment(response.status)
                &&& outcome.amount_captured == Some(
                    captured_amount(outcome.status, amount_to_capture),
                )
                &&& outcome.response == (TransactionResponse {
                    connector_metadata: Some(
                        PaypalMeta {
                            authorize_id: meta.authorize_id,
                            capture_id: Some(response.id),
                            ..meta_for(PaypalPaymentIntent::Capture)
                        },
                    ),
                    connector_response_reference_id: first_of(response.invoice_id, response.id),
                    ..plain_response(ResponseId::ConnectorTransactionId(connector_transaction_id))
                })
            },
        },
{
    let status = AttemptStatus::from(response.status);
    let amount_captured = if is_payment_charged(status) {
        amount_to_capture
    } else {
        0
    };
    let connector_payment_id = match stored {
        StoredMeta::Found(meta) => meta,
        StoredMeta::Missing => {
            return Err(ConnectorError::MissingRequiredField { field_name: "connector_meta" });
        },
        StoredMeta::Invalid => {
            return Err(ConnectorError::ResponseDeserializationFailed);
        },
    };
    Ok(
        CaptureOutcome {
            status,
            response: TransactionResponse {
                resource_id: ResponseId::ConnectorTransactionId(connector_transaction_id),
                redirection_data: None,
                mandate_reference: None,
                connector_metadata: Some(
                    PaypalMeta {
                        authorize_id: connector_payment_id.authorize_id,
                        capture_id: Some(response.id.clone()),
                        incremental_authorization_id: None,
                        psync_flow: PaypalPaymentIntent::Capture,
                        next_action: None,
                        order_id: None,
                    },
                ),
                connector_response_reference_id: match response.invoice_id {
                    Some(invoice) => Some(invoice),
                    None => Some(response.id),
                },
                incremental_authorization_allowed: None,
            },
            amount_captured: Some(amount_captured),
        },
    )
}

/// What the platform keeps of a cancellation.
pub fn cancel_response(response: PaypalPaymentsCancelResponse) -> (res: PaymentOutcome)
    ensures
        res.status == AttemptStatus::Voided,
        res.response == (TransactionResponse {
            connector_response_reference_id: first_of(response.invoice_id, response.id),
            ..plain_response(ResponseId::ConnectorTransactionId(response.id))
        }),
{
    let status = match response.status {
        PaypalCancelStatus::Voided => AttemptStatus::Voided,
    };
    PaymentOutcome {
        status,
        response: TransactionResponse {
            resource_id: ResponseId::ConnectorTransactionId(response.id.clone()),
            redirection_data: None,
            mandate_reference: None,
            connector_metadata: None,
            connector_response_reference_id: match response.invoice_id {
                Some(invoice) => Some(invoice),
                None => Some(response.id),
            },
            incremental_authorization_allowed: None,
        },
    }
}

/// What the platform keeps of a refund.
pub fn refund_response(response: RefundResponse) -> (res: RefundsResponseData)
    ensures
        res.connector_refund_id == response.id,
        res.refund_status == refund_status_of(response.status),
{
    RefundsResponseData {
        connector_refund_id: response.id,
        refund_status: crate::connectors::types::RefundStatus::from(response.status),
    }
}

/// What the platform keeps of the sync of a refund.
pub fn refund_sync_response(response: RefundSyncResponse) -> (res: RefundsResponseData)
    ensures
        res.connector_refund_id == response.id,
        res.refund_status == refund_status_of(response.status),
{
    RefundsResponseData {
        connector_refund_id: response.id,
        refund_status: crate::connectors::types::RefundStatus::from(response.status),
    }
}

/// What the platform keeps of a payout.
pub fn fulfill_response(response: PaypalFulfillResponse) -> (res: PayoutsResponseData)
    ensures
        res.status == Some(payout_status_of(response.batch_header.batch_status)),
        res.connector_payout_id == Some(response.batch_header.payout_batch_id),
{
    PayoutsResponseData {
        status: Some(get_payout_status(response.batch_header.batch_status)),
        connector_payout_id: Some(response.batch_header.payout_batch_id),
    }
}

/// What the platform keeps of an incremental authorization.
pub fn incremental_authorization_response(response: PaypalIncrementalAuthResponse) -> (res:
    IncrementalAuthorizationResponse)
    ensures
        res.status == authorization_status_of(response.status),
        res.error_code is None,
        res.error_message is None,
        res.connector_authorization_id == Some(response.id),
{
    IncrementalAuthorizationResponse {
        status: AuthorizationStatus::from(response.status),
        error_code: None,
        error_message: None,
        connector_authorization_id: Some(response.id),
    }
}

/// The access token of a response.
pub fn access_token_response(response: PaypalAuthUpdateResponse) -> (res: AccessToken)
    ensures
        res.token == response.access_token,
        res.expires == response.expires_in,
{
    AccessToken { token: response.access_token, expires: response.expires_in }
}

/// What the platform keeps of a sync, by the form of the response.
pub fn sync_response(
    response: PaypalSyncResponse,
    payment_experience: Option<PaymentExperience>,
    incremental_authorization_allowed: Option<bool>,
) -> (res: Result<PaymentOutcome, ConnectorError>)
    ensures
        match response {
            PaypalSyncResponse::PaypalOrdersSyncResponse(order) => match order_failure(order) {
                Some(error) => res matches Err(e) && e == error,
                None => res == Ok::<PaymentOutcome, ConnectorError>(
                    order_outcome(order, incremental_authorization_allowed),
                ),
            },
            PaypalSyncResponse::PaypalRedirectSyncResponse(redirect) => is_redirect_result(
                res,
                redirect,
                next_action_for(payment_experience),
            ),
            PaypalSyncResponse::PaypalPaymentsSyncResponse(payment) => res matches Ok(outcome)
                && outcome.status == attempt_status_of_payment(payment.status)
                && outcome.response.resource_id == ResponseId::ConnectorTransactionId(
                payment.supplementary_data.related_ids.order_id,
            ),
            PaypalSyncResponse::PaypalThreeDsSyncResponse(threeds) => res matches Ok(outcome)
                && outcome.status == AttemptStatus::AuthenticationPending && outcome.response
                == plain_response(ResponseId::ConnectorTransactionId(threeds.id)),
        },
{
    match response {
        PaypalSyncResponse::PaypalOrdersSyncResponse(response) => orders_response(
            &response,
            incremental_authorization_allowed,
        ),
        PaypalSyncResponse::PaypalRedirectSyncResponse(response) => redirect_sync_response(
            &response,
            payment_experience,
        ),
        PaypalSyncResponse::PaypalPaymentsSyncResponse(response) => Ok(
            payments_sync_response(response),
        ),
        PaypalSyncResponse::PaypalThreeDsSyncResponse(response) => Ok(
            threeds_sync_response(response),
        ),
    }
}

/// An order that can be read is referred to by its own id, is never
/// redirected, and stores the id that its intent asks for; an order to
/// authenticate can never be read.
pub proof fn lemma_order_outcome(response: PaypalOrdersResponse, allowed: Option<bool>)
    requires
        order_failure(response) is None,
    ensures
        response.intent != PaypalPaymentIntent::Authenticate,
        order_outcome(response, allowed).response.resource_id
            == ResponseId::ConnectorTransactionId(response.id),
        response.intent == PaypalPaymentIntent::Capture ==> order_meta(response).capture_id
            is Some && order_meta(response).authorize_id is None,
        response.intent == PaypalPaymentIntent::Authorize ==> order_meta(response).authorize_id
            is Some && order_meta(response).capture_id is None && order_meta(
            response,
        ).incremental_authorization_id == order_meta(response).authorize_id,
{
    if response.intent == PaypalPaymentIntent::Authorize {
        let units = response.purchase_units@;
        assert(first_item_id(units[0].payments.authorizations) is Some);
        assert(first_authorization_id(units) == first_item_id(units[0].payments.authorizations));
    }
}

} // verus!
