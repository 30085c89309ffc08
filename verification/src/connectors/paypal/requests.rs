//! The requests that follow an order: capture, refund, incremental
//! authorization, payout and access token.

use vstd::prelude::*;

use crate::connectors::paypal::types::{
    OrderAmount, PayoutBatchHeader, PayoutRecipientType, PayoutWalletType, PaypalRouterData,
};
use crate::connectors::types::{clone_optional_string, ConnectorError};
use crate::currency::Currency;
use crate::secret::Secret;

verus! {

/// The language in which PayPal notifies the recipient of a payout.
pub const DEFAULT_NOTIFICATION_SCRIPT_LANGUAGE: &'static str = "en-US";

/// A request to capture an authorization.
#[derive(Debug)]
pub struct PaypalPaymentsCaptureRequest {
    pub amount: OrderAmount,
    pub final_capture: bool,
}

/// A request to refund a capture.
#[derive(Debug)]
pub struct PaypalRefundRequest {
    pub amount: OrderAmount,
}

/// A request to raise an authorization.
#[derive(Debug)]
pub struct PaypalIncrementalAuthRequest {
    pub amount: OrderAmount,
}

/// A request for an access token.
pub struct PaypalAuthUpdateRequest {
    pub grant_type: String,
    pub client_id: Secret,
    pub client_secret: Secret,
}

/// The amount of a payout.
#[derive(Debug)]
pub struct PayoutAmount {
    pub value: String,
    pub currency: Currency,
}

/// The receiver of a payout: an email address, or a phone number or PayPal
/// id.
pub enum PaypalPayoutDataType {
    EmailType(String),
    OtherType(Secret),
}

/// Who receives a payout, and how.
pub struct PaypalPayoutMethodData {
    pub recipient_type: PayoutRecipientType,
    pub recipient_wallet: PayoutWalletType,
    pub receiver: PaypalPayoutDataType,
}

/// One item of a payout.
pub struct PaypalPayoutItem {
    pub amount: PayoutAmount,
    pub note: Option<String>,
    pub notification_language: String,
    pub payout_method_data: PaypalPayoutMethodData,
}

/// A request to pay out.
pub struct PaypalFulfillRequest {
    pub sender_batch_header: PayoutBatchHeader,
    pub items: Vec<PaypalPayoutItem>,
}

/// The wallet that a payout goes to, with what is known of its owner.
pub enum WalletPayout {
    Paypal { email: Option<String>, telephone_number: Option<Secret>, paypal_id: Option<Secret> },
    Venmo { telephone_number: Option<Secret> },
}

/// What a payout is made to.
pub enum PayoutMethodData {
    Card,
    Bank,
    Wallet(WalletPayout),
}

/// A payout that a connector is asked to make.
pub struct PayoutRequestData {
    pub connector_request_reference_id: String,
    pub destination_currency: Currency,
    pub description: Option<String>,
    pub payout_method_data: Option<PayoutMethodData>,
}

/// Whether an amount is the amount of a request in a currency.
pub open spec fn is_request_amount<T>(
    amount: OrderAmount,
    item: PaypalRouterData<T>,
    currency: Currency,
) -> bool {
    amount.currency_code == currency && amount.value == item.amount
}

/// How the recipient of a payout is named: by email before phone, and by
/// phone before PayPal id, for a PayPal wallet; by phone for Venmo.
pub open spec fn recipient_of(wallet: WalletPayout) -> Result<
    (PayoutRecipientType, PayoutWalletType),
    ConnectorError,
> {
    match wallet {
        WalletPayout::Paypal { email, telephone_number, paypal_id } => if email is Some {
            Ok((PayoutRecipientType::Email, PayoutWalletType::Paypal))
        } else if telephone_number is Some {
            Ok((PayoutRecipientType::Phone, PayoutWalletType::Paypal))
        } else if paypal_id is Some {
            Ok((PayoutRecipientType::PaypalId, PayoutWalletType::Paypal))
        } else {
            Err(ConnectorError::MissingRequiredField { field_name: "receiver_data" })
        },
        WalletPayout::Venmo { telephone_number } => if telephone_number is Some {
            Ok((PayoutRecipientType::Phone, PayoutWalletType::Venmo))
        } else {
            Err(ConnectorError::MissingRequiredField { field_name: "telephone_number" })
        },
    }
}

/// The receiver that a recipient type names.
pub open spec fn receiver_matches(
    receiver: PaypalPayoutDataType,
    wallet: WalletPayout,
    recipient_type: PayoutRecipientType,
) -> bool {
    match (wallet, recipient_type) {
        (WalletPayout::Paypal { email, .. }, PayoutRecipientType::Email) => receiver
            == PaypalPayoutDataType::EmailType(email->0),
        (WalletPayout::Paypal { telephone_number, .. }, PayoutRecipientType::Phone) => receiver
            == PaypalPayoutDataType::OtherType(telephone_number->0),
        (WalletPayout::Paypal { paypal_id, .. }, PayoutRecipientType::PaypalId) => receiver
            == PaypalPayoutDataType::OtherType(paypal_id->0),
        (WalletPayout::Venmo { telephone_number }, PayoutRecipientType::Phone) => receiver
            == PaypalPayoutDataType::OtherType(telephone_number->0),
        _ => false,
    }
}

/// The first failure in building the item of a payout, if any.
pub open spec fn payout_failure(data: PayoutRequestData) -> Option<ConnectorError> {
    match data.payout_method_data {
        None => Some(ConnectorError::MissingRequiredField { field_name: "payout_method_data" }),
        Some(PayoutMethodData::Wallet(wallet)) => match recipient_of(wallet) {
            Ok(_) => None,
            Err(error) => Some(error),
        },
        Some(_) => Some(
            ConnectorError::NotSupported {
                message: "PayoutMethodType is not supported",
                connector: "Paypal",
            },
        ),
    }
}

/// Whether an item is the item of a payout.
pub open spec fn is_payout_item(
    payout: PaypalPayoutItem,
    item: PaypalRouterData<&PayoutRequestData>,
) -> bool {
    let data = *item.router_data;
    &&& payout.amount.value == item.amount
    &&& payout.amount.currency == data.destination_currency
    &&& payout.note == data.description
    &&& payout.notification_language@ == DEFAULT_NOTIFICATION_SCRIPT_LANGUAGE@
    &&& data.payout_method_data matches Some(PayoutMethodData::Wallet(wallet))
    &&& recipient_of(wallet) == Ok::<(PayoutRecipientType, PayoutWalletType), ConnectorError>(
        (payout.payout_method_data.recipient_type, payout.payout_method_data.recipient_wallet),
    )
    &&& receiver_matches(
        payout.payout_method_data.receiver,
        wallet,
        payout.payout_method_data.recipient_type,
    )
}

impl PaypalPaymentsCaptureRequest {
    /// The request to capture the whole of an amount: the capture is final.
    pub fn for_capture<T>(item: &PaypalRouterData<T>, currency: Currency) -> (res: Self)
        ensures
            is_request_amount(res.amount, *item, currency),
            res.final_capture,
    {
        PaypalPaymentsCaptureRequest {
            amount: OrderAmount { currency_code: currency, value: item.amount.clone() },
            final_capture: true,
        }
    }
}

impl PaypalRefundRequest {
    /// The request to refund an amount.
    pub fn for_refund<T>(item: &PaypalRouterData<T>, currency: Currency) -> (res: Self)
        ensures
            is_request_amount(res.amount, *item, currency),
    {
        PaypalRefundRequest {
            amount: OrderAmount { currency_code: currency, value: item.amount.clone() },
        }
    }
}

impl PaypalIncrementalAuthRequest {
    /// The request to raise an authorization to an amount.
    pub fn for_increment<T>(item: &PaypalRouterData<T>, currency: Currency) -> (res: Self)
        ensures
            is_request_amount(res.amount, *item, currency),
    {
        PaypalIncrementalAuthRequest {
            amount: OrderAmount { currency_code: currency, value: item.amount.clone() },
        }
    }
}

impl PaypalAuthUpdateRequest {
    /// The request for an access token by client credentials; the client id
    /// is the id of the request.
    pub fn for_refresh(request_id: &Option<Secret>, app_id: &Secret) -> (res: Result<
        Self,
        ConnectorError,
    >)
        ensures
            match *request_id {
                Some(id) => res matches Ok(request) && request.grant_type@
                    == "client_credentials"@ && request.client_id == id && request.client_secret
                    == *app_id,
                None => res matches Err(e) && e == (ConnectorError::MissingRequiredField {
                    field_name: "request.id",
                }),
            },
    {
        match request_id {
            Some(id) => Ok(
                PaypalAuthUpdateRequest {
                    grant_type: String::from_str("client_credentials"),
                    client_id: id.clone(),
                    client_secret: app_id.clone(),
                },
            ),
            None => Err(ConnectorError::MissingRequiredField { field_name: "request.id" }),
        }
    }
}

impl PaypalPayoutItem {
    /// The item of a payout, or why it cannot be built.
    pub fn for_payout(item: &PaypalRouterData<&PayoutRequestData>) -> (res: Result<
        Self,
        ConnectorError,
    >)
        ensures
            match payout_failure(*item.router_data) {
                Some(error) => res matches Err(e) && e == error,
                None => res matches Ok(payout) && is_payout_item(payout, *item),
            },
    {
        let data = item.router_data;
        let amount = PayoutAmount {
            value: item.amount.clone(),
            currency: data.destination_currency,
        };
        let method = match &data.payout_method_data {
            Some(method) => method,
            None => {
                return Err(
                    ConnectorError::MissingRequiredField { field_name: "payout_method_data" },
                );
            },
        };
        let payout_method_data = match method {
            PayoutMethodData::Wallet(wallet_data) => match wallet_data {
                WalletPayout::Paypal { email, telephone_number, paypal_id } => {
                    let (recipient_type, receiver) = match (email, telephone_number, paypal_id) {
                        (Some(email), _, _) => (
                            PayoutRecipientType::Email,
                            PaypalPayoutDataType::EmailType(email.clone()),
                        ),
                        (_, Some(phone), _) => (
                            PayoutRecipientType::Phone,
                            PaypalPayoutDataType::OtherType(phone.clone()),
                        ),
                        (_, _, Some(paypal_id)) => (
                            PayoutRecipientType::PaypalId,
                            PaypalPayoutDataType::OtherType(paypal_id.clone()),
                        ),
                        _ => {
                            return Err(
                                ConnectorError::MissingRequiredField {
                                    field_name: "receiver_data",
                                },
                            );
                        },
                    };
                    PaypalPayoutMethodData {
                        recipient_type,
                        recipient_wallet: PayoutWalletType::Paypal,
                        receiver,
                    }
                },
                WalletPayout::Venmo { telephone_number } => {
                    let receiver = match telephone_number {
                        Some(phone) => PaypalPayoutDataType::OtherType(phone.clone()),
                        None => {
                            return Err(
                                ConnectorError::MissingRequiredField {
                                    field_name: "telephone_number",
                                },
                            );
                        },
                    };
                    PaypalPayoutMethodData {
                        recipient_type: PayoutRecipientType::Phone,
                        recipient_wallet: PayoutWalletType::Venmo,
                        receiver,
                    }
                },
            },
            _ => {
                return Err(
                    ConnectorError::NotSupported {
                        message: "PayoutMethodType is not supported",
                        connector: "Paypal",
                    },
                );
            },
        };
        Ok(
            PaypalPayoutItem {
                amount,
                payout_method_data,
                note: clone_optional_string(&data.description),
                notification_language: String::from_str(DEFAULT_NOTIFICATION_SCRIPT_LANGUAGE),
            },
        )
    }
}

impl PaypalFulfillRequest {
    /// The request to pay out: a batch of the one item of the payout, under
    /// the reference of the request.
    pub fn for_payout(item: &PaypalRouterData<&PayoutRequestData>) -> (res: Result<
        Self,
        ConnectorError,
    >)
        ensures
            match payout_failure(*item.router_data) {
                Some(error) => res matches Err(e) && e == error,
                None => res matches Ok(request) && request.sender_batch_header.sender_batch_id
                    == item.router_data.connector_request_reference_id && request.items@.len() == 1
                    && is_payout_item(request.items@[0], *item),
            },
    {
        let item_data = match PaypalPayoutItem::for_payout(item) {
            Ok(item_data) => item_data,
            Err(error) => {
                return Err(error);
            },
        };
        let mut items: Vec<PaypalPayoutItem> = Vec::new();
        items.push(item_data);
        Ok(
            PaypalFulfillRequest {
                sender_batch_header: PayoutBatchHeader {
                    sender_batch_id: item.router_data.connector_request_reference_id.clone(),
                },
                items,
            },
        )
    }
}

} // verus!
