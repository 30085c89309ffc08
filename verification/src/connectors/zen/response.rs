//! From Zen's responses to what the platform keeps of them.

use vstd::prelude::*;
use vstd::std_specs::convert::{FromSpecImpl, TryFromSpecImpl};

use crate::codec::{url_query_pairs_of, url_without_query_of};
use crate::connectors::form::{is_form_of_parts, redirect_form_of_url};
use crate::connectors::types::{
    clone_optional_string, is_payment_failure, is_refund_failure, payment_failed, refund_failed,
    AttemptStatus, ConnectorAuthType, ConnectorError, ErrorResponse, Method, RefundsResponseData,
    ResponseId, TransactionResponse, NO_ERROR_CODE, NO_ERROR_MESSAGE,
};
use crate::connectors::zen::types::{
    ApiResponse, CheckoutResponse, RefundResponse, RefundStatus, ZenActions, ZenAuthType,
    ZenPaymentStatus, ZenPaymentsResponse,
};

verus! {

/// A conversion that may fail, from a value of another part of the platform.
pub trait ForeignTryFrom<F>: Sized {
    type Error;

    /// What the conversion gives.
    spec fn foreign_spec(from: F) -> Result<Self, Self::Error>;

    fn foreign_try_from(from: F) -> (res: Result<Self, Self::Error>)
        ensures
            res == Self::foreign_spec(from),
    ;
}

/// The state of an attempt whose payment is in the given state. An
/// authorized payment is still pending, since Zen reports its acceptance
/// later; a pending payment waits for authentication where the merchant must
/// redirect the payer.
pub open spec fn attempt_status_of(
    status: ZenPaymentStatus,
    action: Option<ZenActions>,
) -> AttemptStatus {
    match status {
        ZenPaymentStatus::Authorized => AttemptStatus::Pending,
        ZenPaymentStatus::Accepted => AttemptStatus::Charged,
        ZenPaymentStatus::Pending => match action {
            Some(ZenActions::Redirect) => AttemptStatus::AuthenticationPending,
            None => AttemptStatus::Pending,
        },
        ZenPaymentStatus::Rejected => AttemptStatus::Failure,
        ZenPaymentStatus::Canceled => AttemptStatus::Voided,
    }
}

/// The state of a refund.
pub open spec fn refund_status_of(item: RefundStatus) -> crate::connectors::types::RefundStatus {
    match item {
        RefundStatus::Accepted => crate::connectors::types::RefundStatus::Success,
        RefundStatus::Pending | RefundStatus::Authorized => {
            crate::connectors::types::RefundStatus::Pending
        },
        RefundStatus::Rejected => crate::connectors::types::RefundStatus::Failure,
    }
}

/// The text of an optional string, or a default where there is none.
pub open spec fn text_or(text: Option<String>, default: Seq<char>) -> Seq<char> {
    match text {
        Some(s) => s@,
        None => default,
    }
}

/// Whether an error is the one reported for a rejected response: Zen's code
/// and reason, or the platform's defaults where Zen gave none, under the id
/// of the transaction.
pub open spec fn is_rejection(
    error: ErrorResponse,
    id: String,
    reject_code: Option<String>,
    reject_reason: Option<String>,
    status_code: u16,
    attempt_status: Option<AttemptStatus>,
) -> bool {
    &&& error.code@ == text_or(reject_code, NO_ERROR_CODE@)
    &&& error.message@ == text_or(reject_reason, NO_ERROR_MESSAGE@)
    &&& error.reason == reject_reason
    &&& error.status_code == status_code
    &&& error.attempt_status == attempt_status
    &&& error.connector_transaction_id == Some(id)
}

impl TryFrom<&ConnectorAuthType> for ZenAuthType {
    type Error = ConnectorError;

    fn try_from(auth_type: &ConnectorAuthType) -> (res: Result<Self, ConnectorError>) {
        if let ConnectorAuthType::HeaderKey { api_key } = auth_type {
            Ok(ZenAuthType { api_key: api_key.clone() })
        } else {
            Err(ConnectorError::FailedToObtainAuthType)
        }
    }
}

impl TryFromSpecImpl<&ConnectorAuthType> for ZenAuthType {
    open spec fn obeys_try_from_spec() -> bool {
        true
    }

    /// Zen is configured by a header key and by nothing else.
    open spec fn try_from_spec(auth_type: &ConnectorAuthType) -> Result<Self, ConnectorError> {
        match *auth_type {
            ConnectorAuthType::HeaderKey { api_key } => Ok(ZenAuthType { api_key }),
            _ => Err(ConnectorError::FailedToObtainAuthType),
        }
    }
}

impl ForeignTryFrom<(ZenPaymentStatus, Option<ZenActions>)> for AttemptStatus {
    type Error = ConnectorError;

    open spec fn foreign_spec(from: (ZenPaymentStatus, Option<ZenActions>)) -> Result<
        Self,
        ConnectorError,
    > {
        Ok(attempt_status_of(from.0, from.1))
    }

    fn foreign_try_from(item: (ZenPaymentStatus, Option<ZenActions>)) -> (res: Result<
        Self,
        ConnectorError,
    >) {
        let (item_txn_status, item_action_status) = item;
        Ok(
            match item_txn_status {
                ZenPaymentStatus::Authorized => AttemptStatus::Pending,
                ZenPaymentStatus::Accepted => AttemptStatus::Charged,
                ZenPaymentStatus::Pending => match item_action_status {
                    Some(ZenActions::Redirect) => AttemptStatus::AuthenticationPending,
                    None => AttemptStatus::Pending,
                },
                ZenPaymentStatus::Rejected => AttemptStatus::Failure,
                ZenPaymentStatus::Canceled => AttemptStatus::Voided,
            },
        )
    }
}

impl From<RefundStatus> for crate::connectors::types::RefundStatus {
    fn from(item: RefundStatus) -> (res: Self) {
        match item {
            RefundStatus::Accepted => crate::connectors::types::RefundStatus::Success,
            RefundStatus::Pending | RefundStatus::Authorized => {
                crate::connectors::types::RefundStatus::Pending
            },
            RefundStatus::Rejected => crate::connectors::types::RefundStatus::Failure,
        }
    }
}

impl FromSpecImpl<RefundStatus> for crate::connectors::types::RefundStatus {
    open spec fn obeys_from_spec() -> bool {
        true
    }

    open spec fn from_spec(item: RefundStatus) -> Self {
        refund_status_of(item)
    }
}

fn text_or_default(text: &Option<String>, default: &str) -> (res: String)
    ensures
        res@ == text_or(*text, default@),
{
    match text {
        Some(s) => s.clone(),
        None => String::from_str(default),
    }
}

/// What the platform keeps of a payment response: the attempt's state, an
/// error where the payment was rejected, and the transaction with the form
/// that redirects the payer where Zen asks for a redirect. A redirect
/// address that is not a URL gives no form.
pub fn get_zen_response(response: ApiResponse, status_code: u16) -> (res: Result<
    (AttemptStatus, Option<ErrorResponse>, TransactionResponse<()>),
    ConnectorError,
>)
    ensures
        res matches Ok((status, error, data)) && {
            let action = match response.merchant_action {
                Some(merchant_action) => Some(merchant_action.action),
                None => None,
            };
            &&& status == attempt_status_of(response.status, action)
            &&& payment_failed(status) ==> (error matches Some(e) && is_rejection(
                e,
                response.id,
                response.reject_code,
                response.reject_reason,
                status_code,
                Some(status),
            ))
            &&& !payment_failed(status) ==> error is None
            &&& data.resource_id == ResponseId::ConnectorTransactionId(response.id)
            &&& data.mandate_reference is None
            &&& data.connector_metadata is None
            &&& data.connector_response_reference_id is None
            &&& data.incremental_authorization_allowed is None
            &&& match response.merchant_action {
                Some(merchant_action) => match (
                    url_query_pairs_of(merchant_action.data.redirect_url@),
                    url_without_query_of(merchant_action.data.redirect_url@),
                ) {
                    (Some(pairs), Some(endpoint)) => data.redirection_data matches Some(form)
                        && is_form_of_parts(form, pairs, endpoint, Method::Get),
                    _ => data.redirection_data is None,
                },
                None => data.redirection_data is None,
            }
        },
{
    let (redirection_data, action) = match &response.merchant_action {
        Some(merchant_action) => (
            redirect_form_of_url(merchant_action.data.redirect_url.as_str(), Method::Get),
            Some(merchant_action.action),
        ),
        None => (None, None),
    };
    let status = match AttemptStatus::foreign_try_from((response.status, action)) {
        Ok(status) => status,
        Err(error) => {
            return Err(error);
        },
    };
    let error = if is_payment_failure(status) {
        Some(
            ErrorResponse {
                code: text_or_default(&response.reject_code, NO_ERROR_CODE),
                message: text_or_default(&response.reject_reason, NO_ERROR_MESSAGE),
                reason: clone_optional_string(&response.reject_reason),
                status_code,
                attempt_status: Some(status),
                connector_transaction_id: Some(response.id.clone()),
            },
        )
    } else {
        None
    };
    let payment_response_data = TransactionResponse {
        resource_id: ResponseId::ConnectorTransactionId(response.id.clone()),
        redirection_data,
        mandate_reference: None,
        connector_metadata: None,
        connector_response_reference_id: None,
        incremental_authorization_allowed: None,
    };
    Ok((status, error, payment_response_data))
}

/// What the platform keeps of a refund response: the refund under Zen's id
/// in the platform's state, and an error where the refund was rejected.
pub fn get_zen_refund_response(response: RefundResponse, status_code: u16) -> (res: Result<
    (Option<ErrorResponse>, RefundsResponseData),
    ConnectorError,
>)
    ensures
        res matches Ok((error, data)) && {
            &&& data.connector_refund_id == response.id
            &&& data.refund_status == refund_status_of(response.status)
            &&& refund_failed(data.refund_status) ==> (error matches Some(e) && is_rejection(
                e,
                response.id,
                response.reject_code,
                response.reject_reason,
                status_code,
                None,
            ))
            &&& !refund_failed(data.refund_status) ==> error is None
        },
{
    let refund_status = crate::connectors::types::RefundStatus::from(response.status);
    let error = if is_refund_failure(refund_status) {
        Some(
            ErrorResponse {
                code: text_or_default(&response.reject_code, NO_ERROR_CODE),
                message: text_or_default(&response.reject_reason, NO_ERROR_MESSAGE),
                reason: clone_optional_string(&response.reject_reason),
                status_code,
                attempt_status: None,
                connector_transaction_id: Some(response.id.clone()),
            },
        )
    } else {
        None
    };
    let refund_response_data = RefundsResponseData {
        connector_refund_id: response.id,
        refund_status,
    };
    Ok((error, refund_response_data))
}

/// What the platform keeps of a checkout response: the payer is to be
/// authenticated, and is sent on by the form of the redirect address. A
/// redirect address that is not a URL gives no form.
pub fn get_checkout_response(response: CheckoutResponse) -> (res: (
    AttemptStatus,
    TransactionResponse<()>,
))
    ensures
        res.0 == AttemptStatus::AuthenticationPending,
        res.1.resource_id == ResponseId::NoResponseId,
        res.1.mandate_reference is None,
        res.1.connector_metadata is None,
        res.1.connector_response_reference_id is None,
        res.1.incremental_authorization_allowed is None,
        match (
            url_query_pairs_of(response.redirect_url@),
            url_without_query_of(response.redirect_url@),
        ) {
            (Some(pairs), Some(endpoint)) => res.1.redirection_data matches Some(form)
                && is_form_of_parts(form, pairs, endpoint, Method::Get),
            _ => res.1.redirection_data is None,
        },
{
    let redirection_data = redirect_form_of_url(response.redirect_url.as_str(), Method::Get);
    (
        AttemptStatus::AuthenticationPending,
        TransactionResponse {
            resource_id: ResponseId::NoResponseId,
            redirection_data,
            mandate_reference: None,
            connector_metadata: None,
            connector_response_reference_id: None,
            incremental_authorization_allowed: None,
        },
    )
}

/// What the platform keeps of the response to a payment, by the way the
/// payment was taken.
pub fn get_payments_response(response: ZenPaymentsResponse, status_code: u16) -> (res: Result<
    (AttemptStatus, Option<ErrorResponse>, TransactionResponse<()>),
    ConnectorError,
>)
    ensures
        res is Ok,
        match response {
            ZenPaymentsResponse::ApiResponse(api) => res matches Ok((status, error, data))
                && status == attempt_status_of(
                api.status,
                match api.merchant_action {
                    Some(merchant_action) => Some(merchant_action.action),
                    None => None,
                },
            ) && (error is Some <==> payment_failed(status)) && data.resource_id
                == ResponseId::ConnectorTransactionId(api.id),
            ZenPaymentsResponse::CheckoutResponse(_) => res matches Ok((status, error, data))
                && status == AttemptStatus::AuthenticationPending && error is None
                && data.resource_id == ResponseId::NoResponseId,
        },
{
    match response {
        ZenPaymentsResponse::ApiResponse(response) => get_zen_response(response, status_code),
        ZenPaymentsResponse::CheckoutResponse(response) => {
            let (status, data) = get_checkout_response(response);
            Ok((status, None, data))
        },
    }
}

/// What the platform keeps of the sync of a refund.
pub fn get_zen_refund_sync_response(response: RefundResponse) -> (res: RefundsResponseData)
    ensures
        res.connector_refund_id == response.id,
        res.refund_status == refund_status_of(response.status),
{
    let refund_status = crate::connectors::types::RefundStatus::from(response.status);
    RefundsResponseData { connector_refund_id: response.id, refund_status }
}

/// An error is reported for a payment exactly when Zen rejected it, and for a
/// refund exactly when Zen rejected it.
pub proof fn lemma_only_rejections_are_errors(
    status: ZenPaymentStatus,
    action: Option<ZenActions>,
    refund: RefundStatus,
)
    ensures
        payment_failed(attempt_status_of(status, action)) <==> status == ZenPaymentStatus::Rejected,
        refund_failed(refund_status_of(refund)) <==> refund == RefundStatus::Rejected,
        attempt_status_of(status, action) == AttemptStatus::Charged <==> status
            == ZenPaymentStatus::Accepted,
{
}

} // verus!
