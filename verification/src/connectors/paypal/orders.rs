//! The orders that PayPal is asked to create and to update.
//!
//! An order has one purchase unit: the amount with its breakdown, the payee,
//! the address to ship to, and one item that stands for the whole payment.
//! What the order is paid with decides its payment source; PayPal takes
//! cards, its own wallet and four bank redirects, and nothing else.

use vstd::prelude::*;
use vstd::std_specs::convert::TryFromSpecImpl;

use crate::connectors::payment::{
    auto_capture, country_of, details_of, expiry_yyyymm, first_name_of, full_name_of,
    get_optional_full_name, AuthenticationType, BankDebitData, BankRedirectData, BankTransferData,
    Card, CardRedirectData, FutureUsage, GiftCardData, PayLaterData, PaymentMethodData,
    PaymentRequestData, VoucherData, WalletData,
};
use crate::connectors::paypal::auth::{paypal_auth_of, payer_id_of, PaypalAuthType};
use crate::connectors::paypal::types::{
    Attributes, CardRequestAttributes, ContextStruct, Customer, OrderAmount, PaypalLinks,
    PaypalMandateStruct,
    PaypalOperationType, PaypalPaymentIntent, PaypalRedirectionStruct, PaypalRouterData,
    PaypalVault, ShippingPreference, StoreInVault, ThreeDsMethod, ThreeDsType, UsageType,
    UserAction,
};
use crate::connectors::types::{clone_optional_string, ConnectorError};
use crate::currency::Currency;
use crate::euclid::dir::PaymentMethodType;
use crate::secret::Secret;

verus! {

/// The number of the one item of an order.
pub const ORDER_QUANTITY: u16 = 1;

/// The error for a payment method that PayPal does not take.
pub const NOT_IMPLEMENTED: &'static str = "Selected payment method through Paypal";

/// The error for a mandate of a payment method type that PayPal does not
/// take.
pub const MANDATE_NOT_IMPLEMENTED: &'static str = "Selected payment method through paypal";

/// The parts of an amount.
#[derive(Debug)]
pub struct AmountBreakdown {
    pub item_total: OrderAmount,
    pub tax_total: Option<OrderAmount>,
    pub shipping: Option<OrderAmount>,
}

/// The amount of an order with its breakdown.
#[derive(Debug)]
pub struct OrderRequestAmount {
    pub currency_code: Currency,
    pub value: String,
    pub breakdown: AmountBreakdown,
}

/// The merchant that receives the funds.
pub struct Payee {
    pub merchant_id: Secret,
}

/// An item of an order.
#[derive(Debug)]
pub struct ItemDetails {
    pub name: String,
    pub quantity: u16,
    pub unit_amount: OrderAmount,
    pub tax: Option<OrderAmount>,
}

/// A postal address as PayPal writes it.
pub struct Address {
    pub address_line_1: Option<Secret>,
    pub postal_code: Option<Secret>,
    pub country_code: String,
    pub admin_area_2: Option<String>,
}

/// The name that an order is shipped to.
pub struct ShippingName {
    pub full_name: Option<Secret>,
}

/// Where an order is shipped to.
pub struct ShippingAddress {
    pub address: Option<Address>,
    pub name: Option<ShippingName>,
}

/// The purchase unit of an order.
pub struct PurchaseUnitRequest {
    pub reference_id: Option<String>,
    pub invoice_id: Option<String>,
    pub custom_id: Option<String>,
    pub amount: OrderRequestAmount,
    pub payee: Option<Payee>,
    pub shipping: Option<ShippingAddress>,
    pub items: Vec<ItemDetails>,
}

/// A card given with the order.
pub struct CardRequestStruct {
    pub billing_address: Option<Address>,
    pub expiry: Option<Secret>,
    pub name: Option<Secret>,
    pub number: Option<Secret>,
    pub security_code: Option<Secret>,
    pub attributes: Option<CardRequestAttributes>,
}

/// A payment source stored in the vault.
pub struct VaultStruct {
    pub vault_id: Secret,
}

/// A card: given with the order, or stored in the vault.
pub enum CardRequest {
    CardRequestStruct(CardRequestStruct),
    CardVaultStruct(VaultStruct),
}

/// A bank redirect.
pub struct RedirectRequest {
    pub name: Secret,
    pub country_code: String,
    pub experience_context: ContextStruct,
}

/// PayPal's wallet: by redirect, or stored in the vault.
pub enum PaypalRedirectionRequest {
    PaypalRedirectionStruct(PaypalRedirectionStruct),
    PaypalVaultStruct(VaultStruct),
}

/// What an order is paid with.
pub enum PaymentSourceItem {
    Card(CardRequest),
    Paypal(PaypalRedirectionRequest),
    IDeal(RedirectRequest),
    Eps(RedirectRequest),
    Giropay(RedirectRequest),
    Sofort(RedirectRequest),
}

/// A request to create an order.
pub struct PaypalPaymentsRequest {
    pub intent: PaypalPaymentIntent,
    pub purchase_units: Vec<PurchaseUnitRequest>,
    pub payment_source: Option<PaymentSourceItem>,
}

/// A card for a mandate without a payment.
pub struct CardMandateRequest {
    pub billing_address: Option<Address>,
    pub expiry: Option<Secret>,
    pub name: Option<Secret>,
    pub number: Option<Secret>,
}

/// What a mandate without a payment is set up with.
pub enum ZeroMandateSourceItem {
    Card(CardMandateRequest),
    Paypal(PaypalMandateStruct),
}

/// A request to set up a mandate without a payment.
pub struct PaypalZeroMandateRequest {
    pub payment_source: ZeroMandateSourceItem,
}

/// The response to a mandate that was set up without a payment.
pub struct PaypalSetupMandatesResponse {
    pub id: String,
    pub customer: Customer,
    pub payment_source: ZeroMandateSourceItem,
    pub links: Vec<PaypalLinks>,
}

/// What an operation of an order update sets.
#[derive(Debug)]
pub enum OperationValue {
    Amount(OrderRequestAmount),
    Items(Vec<ItemDetails>),
}

/// One operation of an order update.
#[derive(Debug)]
pub struct Operation {
    pub op: PaypalOperationType,
    pub path: String,
    pub value: OperationValue,
}

/// A request to update an order.
#[derive(Debug)]
pub struct PaypalUpdateOrderRequest(pub Vec<Operation>);

/// The flows in which an order is built. They differ in where the item total
/// and the tax come from.
#[derive(Debug, Clone, Copy, PartialEq, Eq, Structural)]
pub enum OrderFlow {
    /// The payment is authorized: the item total is the amount, and there is
    /// no tax.
    Authorize,
    /// The session tokens were posted: the item total is the order amount,
    /// and there is no tax.
    PostSessionTokens,
    /// The session is updated from the SDK: the item total is the order
    /// amount, and the tax is the order's tax.
    SdkSessionUpdate,
}

/// The text of an optional amount, or zero where there is none.
pub open spec fn amount_or_zero(amount: Option<String>) -> Seq<char> {
    match amount {
        Some(a) => a@,
        None => "0"@,
    }
}

/// Whether an amount is the given value in the given currency.
pub open spec fn is_amount(amount: OrderAmount, currency: Currency, value: Seq<char>) -> bool {
    amount.currency_code == currency && amount.value@ == value
}

/// The first amount that a flow needs and the request lacks, by its name.
pub open spec fn missing_amount<T>(item: PaypalRouterData<T>, flow: OrderFlow) -> Option<
    &'static str,
> {
    match flow {
        OrderFlow::Authorize => None,
        OrderFlow::PostSessionTokens => if item.order_amount is None {
            Some("order_amount")
        } else {
            None
        },
        OrderFlow::SdkSessionUpdate => if item.order_amount is None {
            Some("order_amount")
        } else if item.order_tax_amount is None {
            Some("order_tax_amount")
        } else {
            None
        },
    }
}

/// The item total of a flow.
pub open spec fn item_total_of<T>(item: PaypalRouterData<T>, flow: OrderFlow) -> Seq<char> {
    match flow {
        OrderFlow::Authorize => item.amount@,
        _ => match item.order_amount {
            Some(a) => a@,
            None => Seq::empty(),
        },
    }
}

/// Whether an amount with its breakdown is the one of an order: the whole
/// amount, the item total of the flow, the tax where the flow has one, and
/// the shipping cost or zero.
pub open spec fn is_order_amount<T>(
    amount: OrderRequestAmount,
    item: PaypalRouterData<T>,
    currency: Currency,
    flow: OrderFlow,
) -> bool {
    &&& amount.currency_code == currency
    &&& amount.value@ == item.amount@
    &&& is_amount(amount.breakdown.item_total, currency, item_total_of(item, flow))
    &&& match flow {
        OrderFlow::SdkSessionUpdate => amount.breakdown.tax_total matches Some(tax) && is_amount(
            tax,
            currency,
            amount_or_zero(item.order_tax_amount),
        ) && item.order_tax_amount is Some,
        _ => amount.breakdown.tax_total is None,
    }
    &&& amount.breakdown.shipping matches Some(shipping) && is_amount(
        shipping,
        currency,
        amount_or_zero(item.shipping_cost),
    )
}

/// Whether an item is the one that stands for the whole payment.
pub open spec fn is_order_item<T>(
    details: ItemDetails,
    item: PaypalRouterData<T>,
    reference_id: Seq<char>,
    currency: Currency,
    flow: OrderFlow,
) -> bool {
    &&& details.name@ == "Payment for invoice "@ + reference_id
    &&& details.quantity == ORDER_QUANTITY
    &&& is_amount(details.unit_amount, currency, item_total_of(item, flow))
    &&& match flow {
        OrderFlow::SdkSessionUpdate => details.tax matches Some(tax) && is_amount(
            tax,
            currency,
            amount_or_zero(item.order_tax_amount),
        ) && item.order_tax_amount is Some,
        _ => details.tax is None,
    }
}

/// Whether an address is PayPal's form of the given one. An address without
/// a country has no form.
pub open spec fn is_address_of(
    address: Option<Address>,
    payment_address: Option<crate::connectors::payment::Address>,
) -> bool {
    match details_of(payment_address) {
        Some(details) => match details.country {
            Some(country) => address matches Some(a) && a.country_code == country
                && a.address_line_1 == details.line1 && a.postal_code == details.zip
                && a.admin_area_2 == details.city,
            None => address is None,
        },
        None => address is None,
    }
}

/// Whether a shipping address is the one of a payment: its address in
/// PayPal's form, under the first name of the recipient.
pub open spec fn is_shipping_of(shipping: ShippingAddress, data: PaymentRequestData) -> bool {
    &&& is_address_of(shipping.address, data.shipping)
    &&& shipping.name matches Some(name) && name.full_name == first_name_of(data.shipping)
}

/// The vault instruction of a payment: the payment source is stored for the
/// merchant where it is to be used without the payer.
pub open spec fn vault_of(setup_future_usage: Option<FutureUsage>) -> Option<PaypalVault> {
    match setup_future_usage {
        Some(FutureUsage::OffSession) => Some(
            PaypalVault {
                store_in_vault: StoreInVault::OnSuccess,
                usage_type: UsageType::Merchant,
            },
        ),
        _ => None,
    }
}

/// The payee of an order: the payer id of a partner integration.
pub open spec fn payee_of(auth_type: PaypalAuthType) -> Option<Secret> {
    match auth_type {
        PaypalAuthType::AuthWithDetails(credentials) => payer_id_of(credentials),
        PaypalAuthType::TemporaryAuth => None,
    }
}

/// The intent of an order: to capture where the funds are captured with the
/// authorization, to authorize otherwise.
pub open spec fn intent_of(data: PaymentRequestData) -> Result<PaypalPaymentIntent, ConnectorError> {
    match auto_capture(data.capture_method) {
        Ok(true) => Ok(PaypalPaymentIntent::Capture),
        Ok(false) => Ok(PaypalPaymentIntent::Authorize),
        Err(error) => Err(error),
    }
}

/// Whether a purchase unit is the one of a payment in a flow.
pub open spec fn is_purchase_unit(
    unit: PurchaseUnitRequest,
    item: PaypalRouterData<&PaymentRequestData>,
    flow: OrderFlow,
) -> bool {
    let data = *item.router_data;
    &&& unit.reference_id == Some(data.connector_request_reference_id)
    &&& unit.invoice_id == Some(data.connector_request_reference_id)
    &&& unit.custom_id == data.merchant_order_reference_id
    &&& is_order_amount(unit.amount, item, data.currency, flow)
    &&& match paypal_auth_of(&data.connector_auth_type) {
        Ok(auth) => match payee_of(auth) {
            Some(id) => unit.payee matches Some(payee) && payee.merchant_id == id,
            None => unit.payee is None,
        },
        Err(_) => false,
    }
    &&& unit.shipping matches Some(shipping) && is_shipping_of(shipping, data)
    &&& unit.items@.len() == 1
    &&& is_order_item(unit.items@[0], item, data.connector_request_reference_id@, data.currency, flow)
}

/// Whether an experience context sends the payer to act now and back to the
/// given address, with the given shipping preference.
pub open spec fn is_context(
    context: ContextStruct,
    url: Option<String>,
    shipping_preference: ShippingPreference,
) -> bool {
    &&& context.return_url == url
    &&& context.cancel_url == url
    &&& context.user_action == Some(UserAction::PayNow)
    &&& context.shipping_preference == shipping_preference
}

/// The shipping preference of a payment: the address of the payment where it
/// has what decides it, the address on file otherwise.
pub open spec fn preference_of(has_address: bool) -> ShippingPreference {
    if has_address {
        ShippingPreference::SetProvidedAddress
    } else {
        ShippingPreference::GetFromFile
    }
}

/// Whether a bank redirect is one that PayPal takes.
pub open spec fn redirect_is_taken(bank: BankRedirectData) -> bool {
    bank == BankRedirectData::Eps || bank == BankRedirectData::Giropay || bank
        == BankRedirectData::Ideal || bank == BankRedirectData::Sofort
}

/// The redirect request inside a payment source for a bank redirect.
pub open spec fn redirect_of(source: PaymentSourceItem, bank: BankRedirectData) -> Option<
    RedirectRequest,
> {
    match (bank, source) {
        (BankRedirectData::Eps, PaymentSourceItem::Eps(request)) => Some(request),
        (BankRedirectData::Giropay, PaymentSourceItem::Giropay(request)) => Some(request),
        (BankRedirectData::Ideal, PaymentSourceItem::IDeal(request)) => Some(request),
        (BankRedirectData::Sofort, PaymentSourceItem::Sofort(request)) => Some(request),
        _ => None,
    }
}

/// What asking for the payment source of a bank redirect gives: for a bank
/// that PayPal takes, the redirect under the payer's full name and country,
/// back to the address that completes the authorization; an error where the
/// name or the country is missing; and for any other bank, the error that it
/// is not taken.
pub open spec fn is_bank_source(
    res: Result<PaymentSourceItem, ConnectorError>,
    data: PaymentRequestData,
    bank: BankRedirectData,
) -> bool {
    if !redirect_is_taken(bank) {
        res matches Err(error) && error == ConnectorError::NotImplemented(NOT_IMPLEMENTED)
    } else if full_name_of(data.billing) is None {
        res matches Err(error) && error == (ConnectorError::MissingRequiredField {
            field_name: "billing_first_name",
        })
    } else if country_of(data.billing) is None {
        res matches Err(error) && error == (ConnectorError::MissingRequiredField {
            field_name: "payment_method_data.billing.address.country",
        })
    } else {
        res matches Ok(source) && redirect_of(source, bank) matches Some(request) && request.name@
            == full_name_of(data.billing)->0 && request.country_code == country_of(
            data.billing,
        )->0 && is_context(
            request.experience_context,
            data.complete_authorize_url,
            preference_of(country_of(data.shipping) is Some),
        )
    }
}

/// Whether a payment source is PayPal's wallet by redirect, with the given
/// context and the vault instruction of the payment.
pub open spec fn is_wallet_source(
    source: Option<PaymentSourceItem>,
    url: Option<String>,
    shipping_preference: ShippingPreference,
    setup_future_usage: Option<FutureUsage>,
) -> bool {
    source matches Some(
        PaymentSourceItem::Paypal(PaypalRedirectionRequest::PaypalRedirectionStruct(redirect)),
    ) && is_context(redirect.experience_context, url, shipping_preference) && match vault_of(
        setup_future_usage,
    ) {
        Some(vault) => redirect.attributes == Some(Attributes { vault }),
        None => redirect.attributes is None,
    }
}

/// Whether a payment source is the card of a payment.
pub open spec fn is_card_source(
    source: Option<PaymentSourceItem>,
    card: Card,
    data: PaymentRequestData,
) -> bool {
    source matches Some(PaymentSourceItem::Card(CardRequest::CardRequestStruct(request))) && {
        &&& is_address_of(request.billing_address, data.billing)
        &&& request.expiry matches Some(expiry) && expiry@ == expiry_yyyymm(card, seq!['-'])
        &&& match full_name_of(data.billing) {
            Some(name) => request.name matches Some(n) && n@ == name,
            None => request.name is None,
        }
        &&& request.number == Some(card.card_number)
        &&& request.security_code == Some(card.card_cvc)
        &&& request.attributes == Some(
            CardRequestAttributes {
                vault: vault_of(data.setup_future_usage),
                verification: match data.auth_type {
                    AuthenticationType::ThreeDs => Some(
                        ThreeDsMethod { method: ThreeDsType::ScaAlways },
                    ),
                    AuthenticationType::NoThreeDs => None,
                },
            },
        )
    }
}

/// The first failure in building the payment source of a mandate payment,
/// if any.
pub open spec fn mandate_failure(data: PaymentRequestData) -> Option<ConnectorError> {
    match data.recurring_mandate_payment_method_type {
        None => Some(
            ConnectorError::MissingRequiredField { field_name: "recurring_mandate_payment_data" },
        ),
        Some(None) => Some(ConnectorError::MissingRequiredField { field_name: "payment_method_type" }),
        Some(Some(method_type)) => if data.connector_mandate_id is None {
            Some(ConnectorError::MissingRequiredField { field_name: "connector_mandate_id" })
        } else if method_type == PaymentMethodType::Credit || method_type
            == PaymentMethodType::Debit || method_type == PaymentMethodType::Paypal {
            None
        } else {
            Some(ConnectorError::NotImplemented(MANDATE_NOT_IMPLEMENTED))
        },
    }
}

/// Whether a payment source is the vaulted source of a mandate payment: a
/// card for a credit or debit mandate, PayPal's wallet for a PayPal mandate.
pub open spec fn is_mandate_source(source: Option<PaymentSourceItem>, data: PaymentRequestData) -> bool {
    match (data.recurring_mandate_payment_method_type, data.connector_mandate_id) {
        (Some(Some(PaymentMethodType::Paypal)), Some(id)) => source matches Some(
            PaymentSourceItem::Paypal(PaypalRedirectionRequest::PaypalVaultStruct(vault)),
        ) && vault.vault_id@ == id@,
        (Some(Some(_)), Some(id)) => source matches Some(
            PaymentSourceItem::Card(CardRequest::CardVaultStruct(vault)),
        ) && vault.vault_id@ == id@,
        _ => false,
    }
}

/// The first failure in building the order of an authorization, if any. The
/// credentials are read first, then the capture method; what follows depends
/// on what the payment is made with.
pub open spec fn authorize_failure(data: PaymentRequestData) -> Option<ConnectorError> {
    if paypal_auth_of(&data.connector_auth_type) is Err {
        Some(ConnectorError::FailedToObtainAuthType)
    } else if auto_capture(data.capture_method) is Err {
        Some(ConnectorError::CaptureMethodNotSupported)
    } else {
        match data.payment_method_data {
            PaymentMethodData::Card(_) => None,
            PaymentMethodData::Wallet(WalletData::PaypalRedirect) => None,
            PaymentMethodData::Wallet(WalletData::PaypalSdk) => None,
            PaymentMethodData::BankRedirect(bank) => if auto_capture(data.capture_method) == Ok::<
                bool,
                ConnectorError,
            >(false) {
                Some(
                    ConnectorError::FlowNotSupported {
                        flow: "Manual capture method for Bank Redirect",
                        connector: "Paypal",
                    },
                )
            } else if !redirect_is_taken(bank) {
                Some(ConnectorError::NotImplemented(NOT_IMPLEMENTED))
            } else if full_name_of(data.billing) is None {
                Some(ConnectorError::MissingRequiredField { field_name: "billing_first_name" })
            } else if country_of(data.billing) is None {
                Some(
                    ConnectorError::MissingRequiredField {
                        field_name: "payment_method_data.billing.address.country",
                    },
                )
            } else {
                None
            },
            PaymentMethodData::MandatePayment => mandate_failure(data),
            _ => Some(ConnectorError::NotImplemented(NOT_IMPLEMENTED)),
        }
    }
}

/// Whether a request is the order of an authorization.
pub open spec fn is_authorize_request(
    request: PaypalPaymentsRequest,
    item: PaypalRouterData<&PaymentRequestData>,
) -> bool {
    let data = *item.router_data;
    &&& intent_of(data) == Ok::<PaypalPaymentIntent, ConnectorError>(request.intent)
    &&& request.purchase_units@.len() == 1
    &&& is_purchase_unit(request.purchase_units@[0], item, OrderFlow::Authorize)
    &&& match data.payment_method_data {
        PaymentMethodData::Card(card) => is_card_source(request.payment_source, card, data),
        PaymentMethodData::Wallet(WalletData::PaypalRedirect) => is_wallet_source(
            request.payment_source,
            data.complete_authorize_url,
            preference_of(data.shipping is Some),
            data.setup_future_usage,
        ),
        PaymentMethodData::Wallet(WalletData::PaypalSdk) => is_wallet_source(
            request.payment_source,
            None,
            ShippingPreference::GetFromFile,
            data.setup_future_usage,
        ),
        PaymentMethodData::BankRedirect(bank) => request.payment_source matches Some(source)
            && is_bank_source(Ok(source), data, bank),
        PaymentMethodData::MandatePayment => is_mandate_source(request.payment_source, data),
        _ => false,
    }
}

fn amount_in(currency: Currency, value: String) -> (res: OrderAmount)
    ensures
        res.currency_code == currency,
        res.value == value,
{
    OrderAmount { currency_code: currency, value }
}

fn or_zero(amount: &Option<String>) -> (res: String)
    ensures
        res@ == amount_or_zero(*amount),
{
    match amount {
        Some(a) => a.clone(),
        None => String::from_str("0"),
    }
}

fn vault_for(setup_future_usage: Option<FutureUsage>) -> (res: Option<PaypalVault>)
    ensures
        res == vault_of(setup_future_usage),
{
    match setup_future_usage {
        Some(FutureUsage::OffSession) => Some(
            PaypalVault {
                store_in_vault: StoreInVault::OnSuccess,
                usage_type: UsageType::Merchant,
            },
        ),
        Some(FutureUsage::OnSession) => None,
        None => None,
    }
}

fn pay_now_context(url: &Option<String>, shipping_preference: ShippingPreference) -> (res:
    ContextStruct)
    ensures
        is_context(res, *url, shipping_preference),
{
    ContextStruct {
        return_url: clone_optional_string(url),
        cancel_url: clone_optional_string(url),
        shipping_preference,
        user_action: Some(UserAction::PayNow),
    }
}

fn wallet_source(
    url: &Option<String>,
    shipping_preference: ShippingPreference,
    setup_future_usage: Option<FutureUsage>,
) -> (res: Option<PaymentSourceItem>)
    ensures
        is_wallet_source(res, *url, shipping_preference, setup_future_usage),
{
    Some(
        PaymentSourceItem::Paypal(
            PaypalRedirectionRequest::PaypalRedirectionStruct(
                PaypalRedirectionStruct {
                    experience_context: pay_now_context(url, shipping_preference),
                    attributes: match vault_for(setup_future_usage) {
                        Some(vault) => Some(Attributes { vault }),
                        None => None,
                    },
                },
            ),
        ),
    )
}

fn clone_optional_secret(secret: &Option<Secret>) -> (res: Option<Secret>)
    ensures
        res == *secret,
{
    match secret {
        Some(s) => Some(s.clone()),
        None => None,
    }
}

impl OrderRequestAmount {
    /// The amount of an order in a flow, or an error that names the amount
    /// that the flow needs and the request lacks.
    pub fn for_flow<T>(item: &PaypalRouterData<T>, currency: Currency, flow: OrderFlow) -> (res:
        Result<Self, ConnectorError>)
        ensures
            match missing_amount(*item, flow) {
                Some(field_name) => res matches Err(error) && error
                    == (ConnectorError::MissingRequiredField { field_name }),
                None => res matches Ok(amount) && is_order_amount(amount, *item, currency, flow),
            },
    {
        let item_total = match flow {
            OrderFlow::Authorize => item.amount.clone(),
            OrderFlow::PostSessionTokens | OrderFlow::SdkSessionUpdate => {
                match &item.order_amount {
                    Some(order_amount) => order_amount.clone(),
                    None => {
                        return Err(
                            ConnectorError::MissingRequiredField { field_name: "order_amount" },
                        );
                    },
                }
            },
        };
        let tax_total = match flow {
            OrderFlow::SdkSessionUpdate => {
                match &item.order_tax_amount {
                    Some(tax) => Some(amount_in(currency, tax.clone())),
                    None => {
                        return Err(
                            ConnectorError::MissingRequiredField { field_name: "order_tax_amount" },
                        );
                    },
                }
            },
            OrderFlow::Authorize | OrderFlow::PostSessionTokens => None,
        };
        Ok(
            OrderRequestAmount {
                currency_code: currency,
                value: item.amount.clone(),
                breakdown: AmountBreakdown {
                    item_total: amount_in(currency, item_total),
                    tax_total,
                    shipping: Some(amount_in(currency, or_zero(&item.shipping_cost))),
                },
            },
        )
    }
}

impl ItemDetails {
    /// The item that stands for the whole payment in a flow, or an error
    /// that names the amount that the flow needs and the request lacks.
    pub fn for_flow<T>(
        item: &PaypalRouterData<T>,
        reference_id: &str,
        currency: Currency,
        flow: OrderFlow,
    ) -> (res: Result<Self, ConnectorError>)
        ensures
            match missing_amount(*item, flow) {
                Some(field_name) => res matches Err(error) && error
                    == (ConnectorError::MissingRequiredField { field_name }),
                None => res matches Ok(details) && is_order_item(
                    details,
                    *item,
                    reference_id@,
                    currency,
                    flow,
                ),
            },
    {
        let unit_amount = match flow {
            OrderFlow::Authorize => item.amount.clone(),
            OrderFlow::PostSessionTokens | OrderFlow::SdkSessionUpdate => {
                match &item.order_amount {
                    Some(order_amount) => order_amount.clone(),
                    None => {
                        return Err(
                            ConnectorError::MissingRequiredField { field_name: "order_amount" },
                        );
                    },
                }
            },
        };
        let tax = match flow {
            OrderFlow::SdkSessionUpdate => {
                match &item.order_tax_amount {
                    Some(tax) => Some(amount_in(currency, tax.clone())),
                    None => {
                        return Err(
                            ConnectorError::MissingRequiredField { field_name: "order_tax_amount" },
                        );
                    },
                }
            },
            OrderFlow::Authorize | OrderFlow::PostSessionTokens => None,
        };
        Ok(
            ItemDetails {
                name: String::from_str("Payment for invoice ").concat(reference_id),
                quantity: ORDER_QUANTITY,
                unit_amount: amount_in(currency, unit_amount),
                tax,
            },
        )
    }
}

/// PayPal's form of an address.
pub fn get_address_info(payment_address: Option<&crate::connectors::payment::Address>) -> (res:
    Option<Address>)
    ensures
        is_address_of(
            res,
            match payment_address {
                Some(a) => Some(*a),
                None => None,
            },
        ),
{
    let address = match payment_address {
        Some(payment_address) => match &payment_address.address {
            Some(address) => address,
            None => {
                return None;
            },
        },
        None => {
            return None;
        },
    };
    match &address.country {
        Some(country) => Some(
            Address {
                country_code: country.clone(),
                address_line_1: clone_optional_secret(&address.line1),
                postal_code: clone_optional_secret(&address.zip),
                admin_area_2: clone_optional_string(&address.city),
            },
        ),
        None => None,
    }
}

impl ShippingAddress {
    /// Where the order of a payment is shipped to.
    pub fn for_payment(data: &PaymentRequestData) -> (res: Self)
        ensures
            is_shipping_of(res, *data),
    {
        let full_name = match data.get_optional_shipping() {
            Some(shipping) => match &shipping.address {
                Some(details) => clone_optional_secret(&details.first_name),
                None => None,
            },
            None => None,
        };
        ShippingAddress {
            address: get_address_info(data.get_optional_shipping()),
            name: Some(ShippingName { full_name }),
        }
    }
}

/// The payee of an order: the merchant of a partner integration.
pub fn get_payee(auth_type: &PaypalAuthType) -> (res: Option<Payee>)
    ensures
        match payee_of(*auth_type) {
            Some(id) => res matches Some(payee) && payee.merchant_id == id,
            None => res is None,
        },
{
    match auth_type.get_credentials() {
        Ok(credentials) => match credentials.get_payer_id() {
            Some(payer_id) => Some(Payee { merchant_id: payer_id }),
            None => None,
        },
        Err(_) => None,
    }
}

/// The payment source of a bank redirect.
pub fn get_payment_source(item: &PaymentRequestData, bank_redirection_data: &BankRedirectData) -> (res:
    Result<PaymentSourceItem, ConnectorError>)
    ensures
        is_bank_source(res, *item, *bank_redirection_data),
{
    let bank = *bank_redirection_data;
    match bank {
        BankRedirectData::Eps
        | BankRedirectData::Giropay
        | BankRedirectData::Ideal
        | BankRedirectData::Sofort => {},
        _ => {
            return Err(ConnectorError::NotImplemented(NOT_IMPLEMENTED));
        },
    }
    let name = match get_optional_full_name(item.get_optional_billing()) {
        Some(name) => name,
        None => {
            return Err(ConnectorError::MissingRequiredField { field_name: "billing_first_name" });
        },
    };
    let billing_country = match item.get_optional_billing() {
        Some(billing) => match &billing.address {
            Some(details) => clone_optional_string(&details.country),
            None => None,
        },
        None => None,
    };
    let country_code = match billing_country {
        Some(country) => country,
        None => {
            return Err(
                ConnectorError::MissingRequiredField {
                    field_name: "payment_method_data.billing.address.country",
                },
            );
        },
    };
    let has_shipping_country = match item.get_optional_shipping() {
        Some(shipping) => match &shipping.address {
            Some(details) => details.country.is_some(),
            None => false,
        },
        None => false,
    };
    let shipping_preference = if has_shipping_country {
        ShippingPreference::SetProvidedAddress
    } else {
        ShippingPreference::GetFromFile
    };
    let request = RedirectRequest {
        name,
        country_code,
        experience_context: pay_now_context(&item.complete_authorize_url, shipping_preference),
    };
    Ok(
        match bank {
            BankRedirectData::Eps => PaymentSourceItem::Eps(request),
            BankRedirectData::Giropay => PaymentSourceItem::Giropay(request),
            BankRedirectData::Ideal => PaymentSourceItem::IDeal(request),
            _ => PaymentSourceItem::Sofort(request),
        },
    )
}

fn purchase_unit(
    item: &PaypalRouterData<&PaymentRequestData>,
    auth: &PaypalAuthType,
    amount: OrderRequestAmount,
    details: ItemDetails,
    flow: OrderFlow,
) -> (res: Vec<PurchaseUnitRequest>)
    requires
        paypal_auth_of(&item.router_data.connector_auth_type) == Ok::<
            PaypalAuthType,
            ConnectorError,
        >(*auth),
        is_order_amount(amount, *item, item.router_data.currency, flow),
        is_order_item(
            details,
            *item,
            item.router_data.connector_request_reference_id@,
            item.router_data.currency,
            flow,
        ),
    ensures
        res@.len() == 1,
        is_purchase_unit(res@[0], *item, flow),
{
    let data = item.router_data;
    let mut items: Vec<ItemDetails> = Vec::new();
    items.push(details);
    let mut units: Vec<PurchaseUnitRequest> = Vec::new();
    units.push(
        PurchaseUnitRequest {
            reference_id: Some(data.connector_request_reference_id.clone()),
            custom_id: clone_optional_string(&data.merchant_order_reference_id),
            invoice_id: Some(data.connector_request_reference_id.clone()),
            amount,
            payee: get_payee(auth),
            shipping: Some(ShippingAddress::for_payment(data)),
            items,
        },
    );
    units
}

fn mandate_source(data: &PaymentRequestData) -> (res: Result<
    Option<PaymentSourceItem>,
    ConnectorError,
>)
    ensures
        match mandate_failure(*data) {
            Some(error) => res matches Err(e) && e == error,
            None => res matches Ok(source) && is_mandate_source(source, *data),
        },
{
    let payment_method_type = match data.recurring_mandate_payment_method_type {
        Some(Some(method_type)) => method_type,
        Some(None) => {
            return Err(ConnectorError::MissingRequiredField { field_name: "payment_method_type" });
        },
        None => {
            return Err(
                ConnectorError::MissingRequiredField {
                    field_name: "recurring_mandate_payment_data",
                },
            );
        },
    };
    let connector_mandate_id = match &data.connector_mandate_id {
        Some(id) => id.clone(),
        None => {
            return Err(ConnectorError::MissingRequiredField { field_name: "connector_mandate_id" });
        },
    };
    match payment_method_type {
        PaymentMethodType::Credit | PaymentMethodType::Debit => Ok(
            Some(
                PaymentSourceItem::Card(
                    CardRequest::CardVaultStruct(
                        VaultStruct { vault_id: Secret::new(connector_mandate_id) },
                    ),
                ),
            ),
        ),
        PaymentMethodType::Paypal => Ok(
            Some(
                PaymentSourceItem::Paypal(
                    PaypalRedirectionRequest::PaypalVaultStruct(
                        VaultStruct { vault_id: Secret::new(connector_mandate_id) },
                    ),
                ),
            ),
        ),
        _ => Err(ConnectorError::NotImplemented(MANDATE_NOT_IMPLEMENTED)),
    }
}

impl PaypalPaymentsRequest {
    /// The order of an authorization.
    pub fn for_authorize(item: &PaypalRouterData<&PaymentRequestData>) -> (res: Result<
        Self,
        ConnectorError,
    >)
        ensures
            match authorize_failure(*item.router_data) {
                Some(error) => res matches Err(e) && e == error,
                None => res matches Ok(request) && is_authorize_request(request, *item),
            },
    {
        let data = item.router_data;
        let paypal_auth = match PaypalAuthType::try_from(&data.connector_auth_type) {
            Ok(auth) => auth,
            Err(error) => {
                return Err(error);
            },
        };
        let amount = match OrderRequestAmount::for_flow(item, data.currency, OrderFlow::Authorize) {
            Ok(amount) => amount,
            Err(error) => {
                return Err(error);
            },
        };
        let auto = match data.is_auto_capture() {
            Ok(auto) => auto,
            Err(error) => {
                return Err(error);
            },
        };
        let intent = if auto {
            PaypalPaymentIntent::Capture
        } else {
            PaypalPaymentIntent::Authorize
        };
        let details = match ItemDetails::for_flow(
            item,
            data.connector_request_reference_id.as_str(),
            data.currency,
            OrderFlow::Authorize,
        ) {
            Ok(details) => details,
            Err(error) => {
                return Err(error);
            },
        };
        let purchase_units = purchase_unit(item, &paypal_auth, amount, details, OrderFlow::Authorize);
        match &data.payment_method_data {
            PaymentMethodData::Card(ccard) => {
                let verification = match data.auth_type {
                    AuthenticationType::ThreeDs => Some(
                        ThreeDsMethod { method: ThreeDsType::ScaAlways },
                    ),
                    AuthenticationType::NoThreeDs => None,
                };
                proof {
                    reveal_strlit("-");
                    assert("-"@ =~= seq!['-']);
                }
                let payment_source = Some(
                    PaymentSourceItem::Card(
                        CardRequest::CardRequestStruct(
                            CardRequestStruct {
                                billing_address: get_address_info(data.get_optional_billing()),
                                expiry: Some(ccard.get_expiry_date_as_yyyymm("-")),
                                name: get_optional_full_name(data.get_optional_billing()),
                                number: Some(ccard.card_number.clone()),
                                security_code: Some(ccard.card_cvc.clone()),
                                attributes: Some(
                                    CardRequestAttributes {
                                        vault: vault_for(data.setup_future_usage),
                                        verification,
                                    },
                                ),
                            },
                        ),
                    ),
                );
                Ok(PaypalPaymentsRequest { intent, purchase_units, payment_source })
            },
            PaymentMethodData::Wallet(wallet_data) => match wallet_data {
                WalletData::PaypalRedirect => {
                    let shipping_preference = if data.get_optional_shipping().is_some() {
                        ShippingPreference::SetProvidedAddress
                    } else {
                        ShippingPreference::GetFromFile
                    };
                    let payment_source = wallet_source(
                        &data.complete_authorize_url,
                        shipping_preference,
                        data.setup_future_usage,
                    );
                    Ok(PaypalPaymentsRequest { intent, purchase_units, payment_source })
                },
                WalletData::PaypalSdk => {
                    let payment_source = wallet_source(
                        &None,
                        ShippingPreference::GetFromFile,
                        data.setup_future_usage,
                    );
                    Ok(PaypalPaymentsRequest { intent, purchase_units, payment_source })
                },
                _ => Err(ConnectorError::NotImplemented(NOT_IMPLEMENTED)),
            },
            PaymentMethodData::BankRedirect(bank_redirection_data) => {
                if !auto {
                    return Err(
                        ConnectorError::FlowNotSupported {
                            flow: "Manual capture method for Bank Redirect",
                            connector: "Paypal",
                        },
                    );
                }
                let payment_source = match get_payment_source(data, bank_redirection_data) {
                    Ok(source) => Some(source),
                    Err(error) => {
                        return Err(error);
                    },
                };
                Ok(
                    PaypalPaymentsRequest {
                        intent: PaypalPaymentIntent::Capture,
                        purchase_units,
                        payment_source,
                    },
                )
            },
            PaymentMethodData::CardRedirect(card_redirect_data) => PaypalPaymentsRequest::try_from(
                card_redirect_data,
            ),
            PaymentMethodData::PayLater(paylater_data) => PaypalPaymentsRequest::try_from(
                paylater_data,
            ),
            PaymentMethodData::BankDebit(bank_debit_data) => PaypalPaymentsRequest::try_from(
                bank_debit_data,
            ),
            PaymentMethodData::BankTransfer(bank_transfer_data) => PaypalPaymentsRequest::try_from(
                bank_transfer_data,
            ),
            PaymentMethodData::Voucher(voucher_data) => PaypalPaymentsRequest::try_from(
                voucher_data,
            ),
            PaymentMethodData::GiftCard(giftcard_data) => PaypalPaymentsRequest::try_from(
                giftcard_data,
            ),
            PaymentMethodData::MandatePayment => {
                let payment_source = match mandate_source(data) {
                    Ok(source) => source,
                    Err(error) => {
                        return Err(error);
                    },
                };
                Ok(PaypalPaymentsRequest { intent, purchase_units, payment_source })
            },
            PaymentMethodData::Reward
            | PaymentMethodData::RealTimePayment
            | PaymentMethodData::MobilePayment
            | PaymentMethodData::Crypto
            | PaymentMethodData::Upi
            | PaymentMethodData::OpenBanking
            | PaymentMethodData::CardToken
            | PaymentMethodData::NetworkToken
            | PaymentMethodData::CardDetailsForNetworkTransactionId => Err(
                ConnectorError::NotImplemented(NOT_IMPLEMENTED),
            ),
        }
    }
}

impl TryFrom<&CardRedirectData> for PaypalPaymentsRequest {
    type Error = ConnectorError;

    fn try_from(value: &CardRedirectData) -> (res: Result<Self, ConnectorError>) {
        Err(ConnectorError::NotImplemented(NOT_IMPLEMENTED))
    }
}

impl TryFromSpecImpl<&CardRedirectData> for PaypalPaymentsRequest {
    open spec fn obeys_try_from_spec() -> bool {
        true
    }

    /// PayPal takes no card redirect.
    open spec fn try_from_spec(value: &CardRedirectData) -> Result<Self, ConnectorError> {
        Err(ConnectorError::NotImplemented(NOT_IMPLEMENTED))
    }
}

impl TryFrom<&PayLaterData> for PaypalPaymentsRequest {
    type Error = ConnectorError;

    fn try_from(value: &PayLaterData) -> (res: Result<Self, ConnectorError>) {
        Err(ConnectorError::NotImplemented(NOT_IMPLEMENTED))
    }
}

impl TryFromSpecImpl<&PayLaterData> for PaypalPaymentsRequest {
    open spec fn obeys_try_from_spec() -> bool {
        true
    }

    /// PayPal takes no pay-later provider.
    open spec fn try_from_spec(value: &PayLaterData) -> Result<Self, ConnectorError> {
        Err(ConnectorError::NotImplemented(NOT_IMPLEMENTED))
    }
}

impl TryFrom<&BankDebitData> for PaypalPaymentsRequest {
    type Error = ConnectorError;

    fn try_from(value: &BankDebitData) -> (res: Result<Self, ConnectorError>) {
        Err(ConnectorError::NotImplemented(NOT_IMPLEMENTED))
    }
}

impl TryFromSpecImpl<&BankDebitData> for PaypalPaymentsRequest {
    open spec fn obeys_try_from_spec() -> bool {
        true
    }

    /// PayPal takes no bank debit.
    open spec fn try_from_spec(value: &BankDebitData) -> Result<Self, ConnectorError> {
        Err(ConnectorError::NotImplemented(NOT_IMPLEMENTED))
    }
}

impl TryFrom<&BankTransferData> for PaypalPaymentsRequest {
    type Error = ConnectorError;

    fn try_from(value: &BankTransferData) -> (res: Result<Self, ConnectorError>) {
        Err(ConnectorError::NotImplemented(NOT_IMPLEMENTED))
    }
}

impl TryFromSpecImpl<&BankTransferData> for PaypalPaymentsRequest {
    open spec fn obeys_try_from_spec() -> bool {
        true
    }

    /// PayPal takes no bank transfer.
    open spec fn try_from_spec(value: &BankTransferData) -> Result<Self, ConnectorError> {
        Err(ConnectorError::NotImplemented(NOT_IMPLEMENTED))
    }
}

impl TryFrom<&VoucherData> for PaypalPaymentsRequest {
    type Error = ConnectorError;

    fn try_from(value: &VoucherData) -> (res: Result<Self, ConnectorError>) {
        Err(ConnectorError::NotImplemented(NOT_IMPLEMENTED))
    }
}

impl TryFromSpecImpl<&VoucherData> for PaypalPaymentsRequest {
    open spec fn obeys_try_from_spec() -> bool {
        true
    }

    /// PayPal takes no voucher.
    open spec fn try_from_spec(value: &VoucherData) -> Result<Self, ConnectorError> {
        Err(ConnectorError::NotImplemented(NOT_IMPLEMENTED))
    }
}

impl TryFrom<&GiftCardData> for PaypalPaymentsRequest {
    type Error = ConnectorError;

    fn try_from(value: &GiftCardData) -> (res: Result<Self, ConnectorError>) {
        Err(ConnectorError::NotImplemented(NOT_IMPLEMENTED))
    }
}

impl TryFromSpecImpl<&GiftCardData> for PaypalPaymentsRequest {
    open spec fn obeys_try_from_spec() -> bool {
        true
    }

    /// PayPal takes no gift card.
    open spec fn try_from_spec(value: &GiftCardData) -> Result<Self, ConnectorError> {
        Err(ConnectorError::NotImplemented(NOT_IMPLEMENTED))
    }
}

/// Whether a request is the order built after the session tokens were
/// posted: an order paid with PayPal's wallet, back to the address of the
/// router, and shipped to the address on file.
pub open spec fn is_post_session_tokens_request(
    request: PaypalPaymentsRequest,
    item: PaypalRouterData<&PaymentRequestData>,
) -> bool {
    let data = *item.router_data;
    &&& intent_of(data) == Ok::<PaypalPaymentIntent, ConnectorError>(request.intent)
    &&& request.purchase_units@.len() == 1
    &&& is_purchase_unit(request.purchase_units@[0], item, OrderFlow::PostSessionTokens)
    &&& is_wallet_source(
        request.payment_source,
        data.router_return_url,
        ShippingPreference::GetFromFile,
        data.setup_future_usage,
    )
}

/// The first failure in building the order after the session tokens were
/// posted, if any: the capture method is read first, then the credentials,
/// then the order amount.
pub open spec fn post_session_tokens_failure(
    item: PaypalRouterData<&PaymentRequestData>,
) -> Option<ConnectorError> {
    if auto_capture(item.router_data.capture_method) is Err {
        Some(ConnectorError::CaptureMethodNotSupported)
    } else if paypal_auth_of(&item.router_data.connector_auth_type) is Err {
        Some(ConnectorError::FailedToObtainAuthType)
    } else {
        match missing_amount(item, OrderFlow::PostSessionTokens) {
            Some(field_name) => Some(ConnectorError::MissingRequiredField { field_name }),
            None => None,
        }
    }
}

/// The path of a part of the purchase unit of a reference.
pub open spec fn unit_path(reference_id: Seq<char>, part: Seq<char>) -> Seq<char> {
    "/purchase_units/@reference_id=='"@ + reference_id + "'/"@ + part
}

/// Whether a request is the update of an order from the SDK: it replaces
/// the amount and then the items of the purchase unit of the payment.
pub open spec fn is_update_request(
    request: PaypalUpdateOrderRequest,
    item: PaypalRouterData<&PaymentRequestData>,
) -> bool {
    let data = *item.router_data;
    let reference_id = data.connector_request_reference_id@;
    &&& request.0@.len() == 2
    &&& request.0@[0].op == PaypalOperationType::Replace
    &&& request.0@[0].path@ == unit_path(reference_id, "amount"@)
    &&& request.0@[0].value matches OperationValue::Amount(amount) && is_order_amount(
        amount,
        item,
        data.currency,
        OrderFlow::SdkSessionUpdate,
    )
    &&& request.0@[1].op == PaypalOperationType::Replace
    &&& request.0@[1].path@ == unit_path(reference_id, "items"@)
    &&& request.0@[1].value matches OperationValue::Items(items) && items@.len() == 1
        && is_order_item(items@[0], item, reference_id, data.currency, OrderFlow::SdkSessionUpdate)
}

/// Whether a request sets up a mandate on the card of a payment.
pub open spec fn is_zero_mandate_request(
    request: PaypalZeroMandateRequest,
    card: Card,
    data: PaymentRequestData,
) -> bool {
    request.payment_source matches ZeroMandateSourceItem::Card(mandate) && {
        &&& is_address_of(mandate.billing_address, data.billing)
        &&& mandate.expiry matches Some(expiry) && expiry@ == expiry_yyyymm(card, seq!['-'])
        &&& match full_name_of(data.billing) {
            Some(name) => mandate.name matches Some(n) && n@ == name,
            None => mandate.name is None,
        }
        &&& mandate.number == Some(card.card_number)
    }
}

impl PaypalPaymentsRequest {
    /// The order built after the session tokens were posted.
    pub fn for_post_session_tokens(item: &PaypalRouterData<&PaymentRequestData>) -> (res: Result<
        Self,
        ConnectorError,
    >)
        ensures
            match post_session_tokens_failure(*item) {
                Some(error) => res matches Err(e) && e == error,
                None => res matches Ok(request) && is_post_session_tokens_request(request, *item),
            },
    {
        let data = item.router_data;
        let auto = match data.is_auto_capture() {
            Ok(auto) => auto,
            Err(error) => {
                return Err(error);
            },
        };
        let intent = if auto {
            PaypalPaymentIntent::Capture
        } else {
            PaypalPaymentIntent::Authorize
        };
        let paypal_auth = match PaypalAuthType::try_from(&data.connector_auth_type) {
            Ok(auth) => auth,
            Err(error) => {
                return Err(error);
            },
        };
        let amount = match OrderRequestAmount::for_flow(
            item,
            data.currency,
            OrderFlow::PostSessionTokens,
        ) {
            Ok(amount) => amount,
            Err(error) => {
                return Err(error);
            },
        };
        let details = match ItemDetails::for_flow(
            item,
            data.connector_request_reference_id.as_str(),
            data.currency,
            OrderFlow::PostSessionTokens,
        ) {
            Ok(details) => details,
            Err(error) => {
                return Err(error);
            },
        };
        let purchase_units = purchase_unit(
            item,
            &paypal_auth,
            amount,
            details,
            OrderFlow::PostSessionTokens,
        );
        let payment_source = wallet_source(
            &data.router_return_url,
            ShippingPreference::GetFromFile,
            data.setup_future_usage,
        );
        Ok(PaypalPaymentsRequest { intent, purchase_units, payment_source })
    }
}

impl PaypalUpdateOrderRequest {
    /// The operations of the request.
    pub fn get_inner_value(self) -> (res: Vec<Operation>)
        ensures
            res == self.0,
    {
        self.0
    }

    /// The update of an order from the SDK, or an error that names the
    /// amount that the request lacks.
    pub fn for_sdk_session_update(item: &PaypalRouterData<&PaymentRequestData>) -> (res: Result<
        Self,
        ConnectorError,
    >)
        ensures
            match missing_amount(*item, OrderFlow::SdkSessionUpdate) {
                Some(field_name) => res matches Err(error) && error
                    == (ConnectorError::MissingRequiredField { field_name }),
                None => res matches Ok(request) && is_update_request(request, *item),
            },
    {
        let data = item.router_data;
        let reference_id = data.connector_request_reference_id.as_str();
        let amount_path = String::from_str("/purchase_units/@reference_id=='").concat(
            reference_id,
        ).concat("'/").concat("amount");
        let items_path = String::from_str("/purchase_units/@reference_id=='").concat(
            reference_id,
        ).concat("'/").concat("items");
        let amount = match OrderRequestAmount::for_flow(
            item,
            data.currency,
            OrderFlow::SdkSessionUpdate,
        ) {
            Ok(amount) => amount,
            Err(error) => {
                return Err(error);
            },
        };
        let details = match ItemDetails::for_flow(
            item,
            reference_id,
            data.currency,
            OrderFlow::SdkSessionUpdate,
        ) {
            Ok(details) => details,
            Err(error) => {
                return Err(error);
            },
        };
        let mut items: Vec<ItemDetails> = Vec::new();
        items.push(details);
        let mut operations: Vec<Operation> = Vec::new();
        operations.push(
            Operation {
                op: PaypalOperationType::Replace,
                path: amount_path,
                value: OperationValue::Amount(amount),
            },
        );
        operations.push(
            Operation {
                op: PaypalOperationType::Replace,
                path: items_path,
                value: OperationValue::Items(items),
            },
        );
        Ok(PaypalUpdateOrderRequest(operations))
    }
}

impl PaypalZeroMandateRequest {
    /// The request that sets up a mandate without a payment. Only a card
    /// can be set up so.
    pub fn for_setup_mandate(data: &PaymentRequestData) -> (res: Result<Self, ConnectorError>)
        ensures
            match data.payment_method_data {
                PaymentMethodData::Card(card) => res matches Ok(request)
                    && is_zero_mandate_request(request, card, *data),
                _ => res matches Err(error) && error == ConnectorError::NotImplemented(
                    NOT_IMPLEMENTED,
                ),
            },
    {
        match &data.payment_method_data {
            PaymentMethodData::Card(ccard) => {
                proof {
                    reveal_strlit("-");
                    assert("-"@ =~= seq!['-']);
                }
                Ok(
                    PaypalZeroMandateRequest {
                        payment_source: ZeroMandateSourceItem::Card(
                            CardMandateRequest {
                                billing_address: get_address_info(data.get_optional_billing()),
                                expiry: Some(ccard.get_expiry_date_as_yyyymm("-")),
                                name: get_optional_full_name(data.get_optional_billing()),
                                number: Some(ccard.card_number.clone()),
                            },
                        ),
                    },
                )
            },
            _ => Err(ConnectorError::NotImplemented(NOT_IMPLEMENTED)),
        }
    }
}

/// An order is to capture exactly when the funds are captured with the
/// authorization, and an order that is not to capture is never paid by bank
/// redirect.
pub proof fn lemma_intent_follows_capture(data: PaymentRequestData)
    ensures
        intent_of(data) == Ok::<PaypalPaymentIntent, ConnectorError>(PaypalPaymentIntent::Capture)
            <==> auto_capture(data.capture_method) == Ok::<bool, ConnectorError>(true),
        intent_of(data) is Ok ==> intent_of(data) != Ok::<PaypalPaymentIntent, ConnectorError>(
            PaypalPaymentIntent::Authenticate,
        ),
        data.payment_method_data is BankRedirect && authorize_failure(data) is None ==> intent_of(
            data,
        ) == Ok::<PaypalPaymentIntent, ConnectorError>(PaypalPaymentIntent::Capture),
{
}

/// A payment source is stored in the vault exactly when the payment method
/// is to be used without the payer.
pub proof fn lemma_vault_follows_future_usage(setup_future_usage: Option<FutureUsage>)
    ensures
        vault_of(setup_future_usage) is Some <==> setup_future_usage == Some(
            FutureUsage::OffSession,
        ),
{
}

} // verus!
