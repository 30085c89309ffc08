//! The payments that Zen is asked to take.
//!
//! Zen takes cards through its API, five vouchers and three bank transfers
//! through the same API as general payments, and Apple Pay and Google Pay
//! through its hosted checkout, whose requests are signed. It takes nothing
//! else.

use vstd::prelude::*;
use vstd::std_specs::convert::TryFromSpecImpl;
use vstd::utf8::encode_utf8;

use crate::connectors::payment::{
    BankDebitData, BankRedirectData, BankTransferData, Card, CardRedirectData, GiftCardData,
    PayLaterData, PaymentMethodData, VoucherData, WalletData,
};
use crate::connectors::types::ConnectorError;
use crate::connectors::zen::checkout::{
    get_browser_details, get_checkout_signature, is_details_of, missing_browser_field,
    signature_fields, signature_of, signature_text, MAX_DIGEST_INPUT,
};
use crate::connectors::zen::types::{
    BrowserInformation, CheckoutRequest, WalletSessionData, ZenBrowserDetails,
    ZenGeneralPaymentData, ZenItemObject, ZenPaymentChannels, ZenPaymentTypes, ZenRouterData,
};
use crate::secret::Secret;

verus! {

/// The error for a payment method that Zen does not take.
pub const NOT_IMPLEMENTED: &'static str = "Selected payment method through Zen";

/// The longest descriptor that Zen takes, in characters.
pub const DESCRIPTOR_LENGTH: usize = 24;

/// The payer of a payment.
pub struct ZenCustomerDetails {
    pub email: String,
    pub ip: Secret,
}

/// The card of a payment.
pub struct ZenCardDetails {
    pub number: Secret,
    pub expiry_date: Secret,
    pub cvv: Secret,
}

/// What Zen is told of a card payment.
pub struct ZenPaymentData {
    pub browser_details: ZenBrowserDetails,
    pub payment_type: ZenPaymentTypes,
    pub token: Option<Secret>,
    pub card: Option<ZenCardDetails>,
    pub descriptor: String,
    pub return_verify_url: Option<String>,
}

/// What Zen is told of a payment, by its kind.
pub enum ZenPaymentSpecificData {
    ZenOnetimePayment(Box<ZenPaymentData>),
    ZenGeneralPayment(ZenGeneralPaymentData),
}

/// A payment through Zen's API.
pub struct ApiRequest {
    pub merchant_transaction_id: String,
    pub payment_channel: ZenPaymentChannels,
    pub amount: String,
    pub currency: String,
    pub payment_specific_data: ZenPaymentSpecificData,
    pub customer: ZenCustomerDetails,
    pub custom_ipn_url: String,
    pub items: Vec<ZenItemObject>,
}

/// A payment through Zen, by the way it is taken.
pub enum ZenPaymentsRequest {
    ApiRequest(Box<ApiRequest>),
    CheckoutRequest(Box<CheckoutRequest>),
}

/// The wallet sessions configured for a merchant.
pub struct SessionObject {
    pub apple_pay: Option<WalletSessionData>,
    pub google_pay: Option<WalletSessionData>,
}

/// What is configured for the wallets of a merchant.
pub enum SessionReading {
    /// Nothing is configured.
    Missing,
    /// What is configured cannot be read.
    Invalid,
    /// The sessions.
    Found(SessionObject),
}

/// A payment that Zen is asked to take.
pub struct ZenPaymentInput {
    pub connector_request_reference_id: String,
    pub currency: String,
    pub payment_method_data: PaymentMethodData,
    pub browser_info: Option<BrowserInformation>,
    pub ip_address: Option<Secret>,
    pub description: Option<String>,
    pub router_return_url: Option<String>,
    pub webhook_url: Option<String>,
    pub email: Option<String>,
    /// The items of the order, with their prices and totals as Zen writes
    /// them; none where the order has no details.
    pub items: Option<Vec<ZenItemObject>>,
    pub session: SessionReading,
}

/// The channel of a voucher, for the vouchers that Zen takes.
pub open spec fn voucher_channel(voucher: VoucherData) -> Option<ZenPaymentChannels> {
    match voucher {
        VoucherData::Boleto => Some(ZenPaymentChannels::PclBoacompraBoleto),
        VoucherData::Efecty => Some(ZenPaymentChannels::PclBoacompraEfecty),
        VoucherData::PagoEfectivo => Some(ZenPaymentChannels::PclBoacompraPagoefectivo),
        VoucherData::RedCompra => Some(ZenPaymentChannels::PclBoacompraRedcompra),
        VoucherData::RedPagos => Some(ZenPaymentChannels::PclBoacompraRedpagos),
        _ => None,
    }
}

/// The channel of a bank transfer, for the bank transfers that Zen takes.
pub open spec fn bank_transfer_channel(transfer: BankTransferData) -> Option<ZenPaymentChannels> {
    match transfer {
        BankTransferData::MultibancoBankTransfer => Some(ZenPaymentChannels::PclBoacompraMultibanco),
        BankTransferData::Pix => Some(ZenPaymentChannels::PclBoacompraPix),
        BankTransferData::Pse => Some(ZenPaymentChannels::PclBoacompraPse),
        _ => None,
    }
}

/// The channel of a wallet, for the wallets that Zen takes.
pub open spec fn wallet_channel(wallet: WalletData) -> Option<ZenPaymentChannels> {
    match wallet {
        WalletData::ApplePayRedirect => Some(ZenPaymentChannels::PclApplepay),
        WalletData::GooglePayRedirect => Some(ZenPaymentChannels::PclGooglepay),
        _ => None,
    }
}

/// The session of a wallet that Zen takes.
pub open spec fn wallet_session(wallet: WalletData, session: SessionObject) -> Option<
    WalletSessionData,
> {
    match wallet {
        WalletData::ApplePayRedirect => session.apple_pay,
        WalletData::GooglePayRedirect => session.google_pay,
        _ => None,
    }
}

/// The expiry of a card as its month and the last two digits of its year;
/// none where the year has fewer than two characters.
pub open spec fn expiry_mmyy(card: Card) -> Option<Seq<char>> {
    let year = card.card_exp_year@;
    if year.len() >= 2 {
        Some(card.card_exp_month@ + year.subrange(year.len() - 2, year.len() as int))
    } else {
        None
    }
}

/// The descriptor of a payment: the first characters of its description, as
/// many as Zen takes.
pub open spec fn descriptor_of(description: Seq<char>) -> Seq<char> {
    if description.len() <= DESCRIPTOR_LENGTH {
        description
    } else {
        description.subrange(0, DESCRIPTOR_LENGTH as int)
    }
}

/// The first of what every API payment needs and the payment lacks, in the
/// order in which it is asked for: the payer's email, the address for
/// notifications, the items.
pub open spec fn missing_common(input: ZenPaymentInput) -> Option<ConnectorError> {
    if input.email is None {
        Some(ConnectorError::MissingRequiredField { field_name: "email" })
    } else if input.webhook_url is None {
        Some(ConnectorError::MissingRequiredField { field_name: "webhook_url" })
    } else if input.items is None {
        Some(ConnectorError::MissingRequiredField { field_name: "order_details" })
    } else {
        None
    }
}

/// The first of what is known of the payer's browser and address and the
/// payment lacks.
pub open spec fn missing_browser(input: ZenPaymentInput) -> Option<ConnectorError> {
    if input.browser_info is None {
        Some(ConnectorError::MissingRequiredField { field_name: "browser_info" })
    } else if input.ip_address is None {
        Some(ConnectorError::MissingRequiredField { field_name: "browser_info.ip_address" })
    } else {
        None
    }
}

/// The first failure in building a card payment, if any.
pub open spec fn card_failure(input: ZenPaymentInput, card: Card) -> Option<ConnectorError> {
    if missing_browser(input) is Some {
        missing_browser(input)
    } else if missing_browser_field(input.browser_info->0) is Some {
        Some(
            ConnectorError::MissingRequiredField {
                field_name: missing_browser_field(input.browser_info->0)->0,
            },
        )
    } else if expiry_mmyy(card) is None {
        Some(ConnectorError::RequestEncodingFailed)
    } else if input.description is None {
        Some(ConnectorError::MissingRequiredField { field_name: "description" })
    } else {
        missing_common(input)
    }
}

/// The first failure in building a general payment on a channel, if any.
pub open spec fn general_failure(
    input: ZenPaymentInput,
    channel: Option<ZenPaymentChannels>,
) -> Option<ConnectorError> {
    if missing_browser(input) is Some {
        missing_browser(input)
    } else if input.router_return_url is None {
        Some(ConnectorError::MissingRequiredField { field_name: "return_url" })
    } else if channel is None {
        Some(ConnectorError::NotImplemented(NOT_IMPLEMENTED))
    } else {
        missing_common(input)
    }
}

/// The checkout request of a wallet payment before it is signed.
pub open spec fn unsigned_checkout(
    item: ZenRouterData<&ZenPaymentInput>,
    channel: ZenPaymentChannels,
    terminal_uuid: Secret,
) -> CheckoutRequest {
    let input = *item.router_data;
    CheckoutRequest {
        amount: item.amount,
        currency: input.currency,
        custom_ipn_url: input.webhook_url->0,
        items: input.items->0,
        merchant_transaction_id: input.connector_request_reference_id,
        signature: None,
        specified_payment_channel: channel,
        terminal_uuid,
        url_redirect: input.router_return_url->0,
    }
}

/// The first failure in building a wallet payment, if any.
pub open spec fn wallet_failure(
    item: ZenRouterData<&ZenPaymentInput>,
    wallet: WalletData,
) -> Option<ConnectorError> {
    let input = *item.router_data;
    match input.session {
        SessionReading::Missing => Some(
            ConnectorError::MissingRequiredField { field_name: "connector_meta_data" },
        ),
        SessionReading::Invalid => Some(ConnectorError::RequestEncodingFailed),
        SessionReading::Found(session) => match wallet_channel(wallet) {
            None => Some(ConnectorError::NotImplemented(NOT_IMPLEMENTED)),
            Some(channel) => match wallet_session(wallet, session) {
                None => Some(
                    ConnectorError::InvalidWalletToken {
                        wallet_name: if wallet == WalletData::ApplePayRedirect {
                            "Apple Pay"
                        } else {
                            "Google Pay"
                        },
                    },
                ),
                Some(data) => if data.terminal_uuid is None {
                    Some(ConnectorError::RequestEncodingFailed)
                } else if input.webhook_url is None {
                    Some(ConnectorError::MissingRequiredField { field_name: "webhook_url" })
                } else if input.items is None {
                    Some(ConnectorError::MissingRequiredField { field_name: "order_details" })
                } else if input.router_return_url is None {
                    Some(ConnectorError::MissingRequiredField { field_name: "return_url" })
                } else if data.pay_wall_secret is None {
                    Some(ConnectorError::RequestEncodingFailed)
                } else if encode_utf8(
                    signature_text(unsigned_checkout(item, channel, data.terminal_uuid->0))
                        + data.pay_wall_secret->0@,
                ).len() > MAX_DIGEST_INPUT {
                    Some(ConnectorError::RequestEncodingFailed)
                } else {
                    None
                },
            },
        },
    }
}

/// The first failure in building a payment, if any.
pub open spec fn payment_failure(item: ZenRouterData<&ZenPaymentInput>) -> Option<ConnectorError> {
    let input = *item.router_data;
    match input.payment_method_data {
        PaymentMethodData::Card(card) => card_failure(input, card),
        PaymentMethodData::Wallet(wallet) => wallet_failure(item, wallet),
        PaymentMethodData::Voucher(voucher) => general_failure(input, voucher_channel(voucher)),
        PaymentMethodData::BankTransfer(transfer) => general_failure(
            input,
            bank_transfer_channel(transfer),
        ),
        _ => Some(ConnectorError::NotImplemented(NOT_IMPLEMENTED)),
    }
}

/// Whether an API request carries what every API payment carries.
pub open spec fn has_common_parts(
    request: ApiRequest,
    item: ZenRouterData<&ZenPaymentInput>,
    channel: ZenPaymentChannels,
) -> bool {
    let input = *item.router_data;
    &&& request.merchant_transaction_id == input.connector_request_reference_id
    &&& request.payment_channel == channel
    &&& request.amount == item.amount
    &&& request.currency == input.currency
    &&& input.email == Some(request.customer.email)
    &&& input.ip_address == Some(request.customer.ip)
    &&& input.webhook_url == Some(request.custom_ipn_url)
    &&& input.items matches Some(items) && request.items@ == items@
}

/// Whether a request is the card payment of an input.
pub open spec fn is_card_request(
    request: ZenPaymentsRequest,
    item: ZenRouterData<&ZenPaymentInput>,
    card: Card,
) -> bool {
    let input = *item.router_data;
    request matches ZenPaymentsRequest::ApiRequest(api) && {
        &&& has_common_parts(*api, item, ZenPaymentChannels::PclCard)
        &&& api.payment_specific_data matches ZenPaymentSpecificData::ZenOnetimePayment(data)
        &&& is_details_of(data.browser_details, input.browser_info->0)
        &&& data.payment_type == ZenPaymentTypes::Onetime
        &&& data.token is None
        &&& data.card matches Some(details) && details.number == card.card_number
            && details.cvv == card.card_cvc && Some(details.expiry_date@) == expiry_mmyy(card)
        &&& input.description matches Some(description) && data.descriptor@ == descriptor_of(
            description@,
        )
        &&& data.return_verify_url == input.router_return_url
    }
}

/// Whether a request is the general payment of an input on a channel.
pub open spec fn is_general_request(
    request: ZenPaymentsRequest,
    item: ZenRouterData<&ZenPaymentInput>,
    channel: ZenPaymentChannels,
) -> bool {
    let input = *item.router_data;
    request matches ZenPaymentsRequest::ApiRequest(api) && {
        &&& has_common_parts(*api, item, channel)
        &&& api.payment_specific_data matches ZenPaymentSpecificData::ZenGeneralPayment(data)
        &&& data.payment_type == ZenPaymentTypes::General
        &&& input.router_return_url == Some(data.return_url)
    }
}

/// Whether a request is the signed checkout of a wallet payment.
pub open spec fn is_wallet_request(
    request: ZenPaymentsRequest,
    item: ZenRouterData<&ZenPaymentInput>,
    wallet: WalletData,
) -> bool {
    let input = *item.router_data;
    request matches ZenPaymentsRequest::CheckoutRequest(checkout) && {
        &&& input.session matches SessionReading::Found(session)
        &&& wallet_channel(wallet) matches Some(channel)
        &&& wallet_session(wallet, session) matches Some(data)
        &&& data.terminal_uuid matches Some(terminal)
        &&& data.pay_wall_secret matches Some(secret)
        &&& checkout.amount == item.amount
        &&& checkout.currency == input.currency
        &&& input.webhook_url == Some(checkout.custom_ipn_url)
        &&& input.items matches Some(items) && checkout.items@ == items@
        &&& checkout.merchant_transaction_id == input.connector_request_reference_id
        &&& checkout.specified_payment_channel == channel
        &&& checkout.terminal_uuid@ == terminal@
        &&& input.router_return_url == Some(checkout.url_redirect)
        &&& checkout.signature matches Some(signature) && signature@ == signature_of(
            signature_text(*checkout),
            secret@,
        )
    }
}

/// Whether a request is the payment of an input.
pub open spec fn is_payment_request(
    request: ZenPaymentsRequest,
    item: ZenRouterData<&ZenPaymentInput>,
) -> bool {
    match item.router_data.payment_method_data {
        PaymentMethodData::Card(card) => is_card_request(request, item, card),
        PaymentMethodData::Wallet(wallet) => is_wallet_request(request, item, wallet),
        PaymentMethodData::Voucher(voucher) => voucher_channel(voucher) matches Some(channel)
            && is_general_request(request, item, channel),
        PaymentMethodData::BankTransfer(transfer) => bank_transfer_channel(transfer) matches Some(
            channel,
        ) && is_general_request(request, item, channel),
        _ => false,
    }
}

fn clone_items(items: &Vec<ZenItemObject>) -> (res: Vec<ZenItemObject>)
    ensures
        res@ == items@,
{
    let mut out: Vec<ZenItemObject> = Vec::new();
    let mut i: usize = 0;
    while i < items.len()
        invariant
            i <= items.len(),
            out@ == items@.subrange(0, i as int),
        decreases items.len() - i,
    {
        out.push(
            ZenItemObject {
                name: items[i].name.clone(),
                price: items[i].price.clone(),
                quantity: items[i].quantity,
                line_amount_total: items[i].line_amount_total.clone(),
            },
        );
        assert(out@ == items@.subrange(0, i + 1));
        i += 1;
    }
    assert(items@.subrange(0, items@.len() as int) == items@);
    out
}

fn browser_and_ip(input: &ZenPaymentInput) -> (res: Result<
    (&BrowserInformation, Secret),
    ConnectorError,
>)
    ensures
        match missing_browser(*input) {
            Some(error) => res matches Err(e) && e == error,
            None => res matches Ok((info, ip)) && input.browser_info == Some(*info)
                && input.ip_address == Some(ip),
        },
{
    let browser_info = match &input.browser_info {
        Some(info) => info,
        None => {
            return Err(ConnectorError::MissingRequiredField { field_name: "browser_info" });
        },
    };
    let ip = match &input.ip_address {
        Some(ip) => ip.clone(),
        None => {
            return Err(
                ConnectorError::MissingRequiredField { field_name: "browser_info.ip_address" },
            );
        },
    };
    Ok((browser_info, ip))
}

fn api_request(
    item: &ZenRouterData<&ZenPaymentInput>,
    channel: ZenPaymentChannels,
    payment_specific_data: ZenPaymentSpecificData,
    ip: Secret,
) -> (res: Result<ApiRequest, ConnectorError>)
    requires
        item.router_data.ip_address == Some(ip),
    ensures
        match missing_common(*item.router_data) {
            Some(error) => res matches Err(e) && e == error,
            None => res matches Ok(request) && has_common_parts(request, *item, channel)
                && request.payment_specific_data == payment_specific_data,
        },
{
    let input = item.router_data;
    let email = match &input.email {
        Some(email) => email.clone(),
        None => {
            return Err(ConnectorError::MissingRequiredField { field_name: "email" });
        },
    };
    let custom_ipn_url = match &input.webhook_url {
        Some(url) => url.clone(),
        None => {
            return Err(ConnectorError::MissingRequiredField { field_name: "webhook_url" });
        },
    };
    let items = match &input.items {
        Some(items) => clone_items(items),
        None => {
            return Err(ConnectorError::MissingRequiredField { field_name: "order_details" });
        },
    };
    Ok(
        ApiRequest {
            merchant_transaction_id: input.connector_request_reference_id.clone(),
            payment_channel: channel,
            currency: input.currency.clone(),
            payment_specific_data,
            customer: ZenCustomerDetails { email, ip },
            custom_ipn_url,
            items,
            amount: item.amount.clone(),
        },
    )
}

impl Card {
    /// The expiry of the card as its month and the last two digits of its
    /// year.
    pub fn get_card_expiry_month_year_2_digit(&self) -> (res: Result<Secret, ConnectorError>)
        ensures
            match expiry_mmyy(*self) {
                Some(text) => res matches Ok(expiry) && expiry@ == text,
                None => res matches Err(e) && e == ConnectorError::RequestEncodingFailed,
            },
    {
        let year = self.card_exp_year.peek();
        let length = year.unicode_len();
        if length < 2 {
            return Err(ConnectorError::RequestEncodingFailed);
        }
        let mut text = String::from_str(self.card_exp_month.peek());
        text.append(year.substring_char(length - 2, length));
        Ok(Secret::new(text))
    }
}

/// The descriptor of a payment.
pub fn descriptor(description: &str) -> (res: String)
    ensures
        res@ == descriptor_of(description@),
{
    let length = description.unicode_len();
    if length <= DESCRIPTOR_LENGTH {
        String::from_str(description)
    } else {
        String::from_str(description.substring_char(0, DESCRIPTOR_LENGTH))
    }
}

impl ZenPaymentsRequest {
    /// The card payment of an input.
    pub fn for_card(item: &ZenRouterData<&ZenPaymentInput>, ccard: &Card) -> (res: Result<
        Self,
        ConnectorError,
    >)
        ensures
            match card_failure(*item.router_data, *ccard) {
                Some(error) => res matches Err(e) && e == error,
                None => res matches Ok(request) && is_card_request(request, *item, *ccard),
            },
    {
        let input = item.router_data;
        let (browser_info, ip) = match browser_and_ip(input) {
            Ok(found) => found,
            Err(error) => {
                return Err(error);
            },
        };
        let browser_details = match get_browser_details(browser_info) {
            Ok(details) => details,
            Err(error) => {
                return Err(error);
            },
        };
        let expiry_date = match ccard.get_card_expiry_month_year_2_digit() {
            Ok(expiry) => expiry,
            Err(error) => {
                return Err(error);
            },
        };
        let description = match &input.description {
            Some(description) => description,
            None => {
                return Err(ConnectorError::MissingRequiredField { field_name: "description" });
            },
        };
        let payment_specific_data = ZenPaymentSpecificData::ZenOnetimePayment(
            Box::new(
                ZenPaymentData {
                    browser_details,
                    payment_type: ZenPaymentTypes::Onetime,
                    token: None,
                    card: Some(
                        ZenCardDetails {
                            number: ccard.card_number.clone(),
                            expiry_date,
                            cvv: ccard.card_cvc.clone(),
                        },
                    ),
                    descriptor: descriptor(description.as_str()),
                    return_verify_url: match &input.router_return_url {
                        Some(url) => Some(url.clone()),
                        None => None,
                    },
                },
            ),
        );
        match api_request(item, ZenPaymentChannels::PclCard, payment_specific_data, ip) {
            Ok(request) => Ok(ZenPaymentsRequest::ApiRequest(Box::new(request))),
            Err(error) => Err(error),
        }
    }

    fn for_channel(item: &ZenRouterData<&ZenPaymentInput>, channel: Option<ZenPaymentChannels>) -> (res:
        Result<Self, ConnectorError>)
        ensures
            match general_failure(*item.router_data, channel) {
                Some(error) => res matches Err(e) && e == error,
                None => res matches Ok(request) && is_general_request(request, *item, channel->0),
            },
    {
        let input = item.router_data;
        let (_, ip) = match browser_and_ip(input) {
            Ok(found) => found,
            Err(error) => {
                return Err(error);
            },
        };
        let return_url = match &input.router_return_url {
            Some(url) => url.clone(),
            None => {
                return Err(ConnectorError::MissingRequiredField { field_name: "return_url" });
            },
        };
        let payment_specific_data = ZenPaymentSpecificData::ZenGeneralPayment(
            ZenGeneralPaymentData { payment_type: ZenPaymentTypes::General, return_url },
        );
        let payment_channel = match channel {
            Some(channel) => channel,
            None => {
                return Err(ConnectorError::NotImplemented(NOT_IMPLEMENTED));
            },
        };
        match api_request(item, payment_channel, payment_specific_data, ip) {
            Ok(request) => Ok(ZenPaymentsRequest::ApiRequest(Box::new(request))),
            Err(error) => Err(error),
        }
    }

    /// The voucher payment of an input.
    pub fn for_voucher(item: &ZenRouterData<&ZenPaymentInput>, voucher_data: &VoucherData) -> (res:
        Result<Self, ConnectorError>)
        ensures
            match general_failure(*item.router_data, voucher_channel(*voucher_data)) {
                Some(error) => res matches Err(e) && e == error,
                None => res matches Ok(request) && is_general_request(
                    request,
                    *item,
                    voucher_channel(*voucher_data)->0,
                ),
            },
    {
        let channel = match voucher_data {
            VoucherData::Boleto => Some(ZenPaymentChannels::PclBoacompraBoleto),
            VoucherData::Efecty => Some(ZenPaymentChannels::PclBoacompraEfecty),
            VoucherData::PagoEfectivo => Some(ZenPaymentChannels::PclBoacompraPagoefectivo),
            VoucherData::RedCompra => Some(ZenPaymentChannels::PclBoacompraRedcompra),
            VoucherData::RedPagos => Some(ZenPaymentChannels::PclBoacompraRedpagos),
            VoucherData::Oxxo
            | VoucherData::Alfamart
            | VoucherData::Indomaret
            | VoucherData::SevenEleven
            | VoucherData::Lawson
            | VoucherData::MiniStop
            | VoucherData::FamilyMart
            | VoucherData::Seicomart
            | VoucherData::PayEasy => None,
        };
        Self::for_channel(item, channel)
    }

    /// The bank transfer payment of an input.
    pub fn for_bank_transfer(
        item: &ZenRouterData<&ZenPaymentInput>,
        bank_transfer_data: &BankTransferData,
    ) -> (res: Result<Self, ConnectorError>)
        ensures
            match general_failure(*item.router_data, bank_transfer_channel(*bank_transfer_data)) {
                Some(error) => res matches Err(e) && e == error,
                None => res matches Ok(request) && is_general_request(
                    request,
                    *item,
                    bank_transfer_channel(*bank_transfer_data)->0,
                ),
            },
    {
        let channel = match bank_transfer_data {
            BankTransferData::MultibancoBankTransfer => Some(
                ZenPaymentChannels::PclBoacompraMultibanco,
            ),
            BankTransferData::Pix => Some(ZenPaymentChannels::PclBoacompraPix),
            BankTransferData::Pse => Some(ZenPaymentChannels::PclBoacompraPse),
            _ => None,
        };
        Self::for_channel(item, channel)
    }

    /// The wallet payment of an input: a checkout request, signed with the
    /// secret of the wallet's session.
    pub fn for_wallet(item: &ZenRouterData<&ZenPaymentInput>, wallet_data: &WalletData) -> (res:
        Result<Self, ConnectorError>)
        ensures
            match wallet_failure(*item, *wallet_data) {
                Some(error) => res matches Err(e) && e == error,
                None => res matches Ok(request) && is_wallet_request(request, *item, *wallet_data),
            },
    {
        let input = item.router_data;
        let session = match &input.session {
            SessionReading::Found(session) => session,
            SessionReading::Missing => {
                return Err(
                    ConnectorError::MissingRequiredField { field_name: "connector_meta_data" },
                );
            },
            SessionReading::Invalid => {
                return Err(ConnectorError::RequestEncodingFailed);
            },
        };
        let (specified_payment_channel, session_data) = match wallet_data {
            WalletData::ApplePayRedirect => match &session.apple_pay {
                Some(data) => (ZenPaymentChannels::PclApplepay, data),
                None => {
                    return Err(ConnectorError::InvalidWalletToken { wallet_name: "Apple Pay" });
                },
            },
            WalletData::GooglePayRedirect => match &session.google_pay {
                Some(data) => (ZenPaymentChannels::PclGooglepay, data),
                None => {
                    return Err(ConnectorError::InvalidWalletToken { wallet_name: "Google Pay" });
                },
            },
            _ => {
                return Err(ConnectorError::NotImplemented(NOT_IMPLEMENTED));
            },
        };
        let terminal_uuid = match &session_data.terminal_uuid {
            Some(terminal) => terminal.clone(),
            None => {
                return Err(ConnectorError::RequestEncodingFailed);
            },
        };
        let custom_ipn_url = match &input.webhook_url {
            Some(url) => url.clone(),
            None => {
                return Err(ConnectorError::MissingRequiredField { field_name: "webhook_url" });
            },
        };
        let items = match &input.items {
            Some(items) => clone_items(items),
            None => {
                return Err(ConnectorError::MissingRequiredField { field_name: "order_details" });
            },
        };
        let url_redirect = match &input.router_return_url {
            Some(url) => url.clone(),
            None => {
                return Err(ConnectorError::MissingRequiredField { field_name: "return_url" });
            },
        };
        let mut checkout_request = CheckoutRequest {
            merchant_transaction_id: input.connector_request_reference_id.clone(),
            specified_payment_channel,
            currency: input.currency.clone(),
            custom_ipn_url,
            items,
            amount: item.amount.clone(),
            terminal_uuid,
            signature: None,
            url_redirect,
        };
        proof {
            assert(signature_text(checkout_request) == signature_text(
                unsigned_checkout(*item, specified_payment_channel, session_data.terminal_uuid->0),
            )) by {
                assert(signature_fields(checkout_request)
                    =~= signature_fields(
                    unsigned_checkout(
                        *item,
                        specified_payment_channel,
                        session_data.terminal_uuid->0,
                    ),
                ));
            }
        }
        let signature = match get_checkout_signature(&checkout_request, session_data) {
            Ok(signature) => signature,
            Err(error) => {
                return Err(error);
            },
        };
        let ghost unsigned = checkout_request;
        checkout_request.signature = Some(signature);
        proof {
            assert(signature_fields(checkout_request)
                =~= signature_fields(unsigned));
        }
        Ok(ZenPaymentsRequest::CheckoutRequest(Box::new(checkout_request)))
    }

    /// The payment of an input, by what it is paid with.
    pub fn for_payment(item: &ZenRouterData<&ZenPaymentInput>) -> (res: Result<Self, ConnectorError>)
        ensures
            match payment_failure(*item) {
                Some(error) => res matches Err(e) && e == error,
                None => res matches Ok(request) && is_payment_request(request, *item),
            },
    {
        match &item.router_data.payment_method_data {
            PaymentMethodData::Card(card) => Self::for_card(item, card),
            PaymentMethodData::Wallet(wallet_data) => Self::for_wallet(item, wallet_data),
            PaymentMethodData::Voucher(voucher_data) => Self::for_voucher(item, voucher_data),
            PaymentMethodData::BankTransfer(bank_transfer_data) => Self::for_bank_transfer(
                item,
                bank_transfer_data,
            ),
            PaymentMethodData::BankRedirect(bank_redirect_data) => Self::try_from(
                bank_redirect_data,
            ),
            PaymentMethodData::PayLater(paylater_data) => Self::try_from(paylater_data),
            PaymentMethodData::BankDebit(bank_debit_data) => Self::try_from(bank_debit_data),
            PaymentMethodData::CardRedirect(card_redirect_data) => Self::try_from(
                card_redirect_data,
            ),
            PaymentMethodData::GiftCard(gift_card_data) => Self::try_from(gift_card_data),
            PaymentMethodData::Crypto
            | PaymentMethodData::MandatePayment
            | PaymentMethodData::Reward
            | PaymentMethodData::RealTimePayment
            | PaymentMethodData::MobilePayment
            | PaymentMethodData::Upi
            | PaymentMethodData::OpenBanking
            | PaymentMethodData::CardToken
            | PaymentMethodData::NetworkToken
            | PaymentMethodData::CardDetailsForNetworkTransactionId => Err(
                ConnectorError::NotImplemented(NOT_IMPLEMENTED),
            ),
        }
    }
}

impl TryFrom<&BankRedirectData> for ZenPaymentsRequest {
    type Error = ConnectorError;

    fn try_from(value: &BankRedirectData) -> (res: Result<Self, ConnectorError>) {
        Err(ConnectorError::NotImplemented(NOT_IMPLEMENTED))
    }
}

impl TryFromSpecImpl<&BankRedirectData> for ZenPaymentsRequest {
    open spec fn obeys_try_from_spec() -> bool {
        true
    }

    /// Zen takes no bank redirect.
    open spec fn try_from_spec(value: &BankRedirectData) -> Result<Self, ConnectorError> {
        Err(ConnectorError::NotImplemented(NOT_IMPLEMENTED))
    }
}

impl TryFrom<&PayLaterData> for ZenPaymentsRequest {
    type Error = ConnectorError;

    fn try_from(value: &PayLaterData) -> (res: Result<Self, ConnectorError>) {
        Err(ConnectorError::NotImplemented(NOT_IMPLEMENTED))
    }
}

impl TryFromSpecImpl<&PayLaterData> for ZenPaymentsRequest {
    open spec fn obeys_try_from_spec() -> bool {
        true
    }

    /// Zen takes no pay-later provider.
    open spec fn try_from_spec(value: &PayLaterData) -> Result<Self, ConnectorError> {
        Err(ConnectorError::NotImplemented(NOT_IMPLEMENTED))
    }
}

impl TryFrom<&BankDebitData> for ZenPaymentsRequest {
    type Error = ConnectorError;

    fn try_from(value: &BankDebitData) -> (res: Result<Self, ConnectorError>) {
        Err(ConnectorError::NotImplemented(NOT_IMPLEMENTED))
    }
}

impl TryFromSpecImpl<&BankDebitData> for ZenPaymentsRequest {
    open spec fn obeys_try_from_spec() -> bool {
        true
    }

    /// Zen takes no bank debit.
    open spec fn try_from_spec(value: &BankDebitData) -> Result<Self, ConnectorError> {
        Err(ConnectorError::NotImplemented(NOT_IMPLEMENTED))
    }
}

impl TryFrom<&CardRedirectData> for ZenPaymentsRequest {
    type Error = ConnectorError;

    fn try_from(value: &CardRedirectData) -> (res: Result<Self, ConnectorError>) {
        Err(ConnectorError::NotImplemented(NOT_IMPLEMENTED))
    }
}

impl TryFromSpecImpl<&CardRedirectData> for ZenPaymentsRequest {
    open spec fn obeys_try_from_spec() -> bool {
        true
    }

    /// Zen takes no card redirect.
    open spec fn try_from_spec(value: &CardRedirectData) -> Result<Self, ConnectorError> {
        Err(ConnectorError::NotImplemented(NOT_IMPLEMENTED))
    }
}

impl TryFrom<&GiftCardData> for ZenPaymentsRequest {
    type Error = ConnectorError;

    fn try_from(value: &GiftCardData) -> (res: Result<Self, ConnectorError>) {
        Err(ConnectorError::NotImplemented(NOT_IMPLEMENTED))
    }
}

impl TryFromSpecImpl<&GiftCardData> for ZenPaymentsRequest {
    open spec fn obeys_try_from_spec() -> bool {
        true
    }

    /// Zen takes no gift card.
    open spec fn try_from_spec(value: &GiftCardData) -> Result<Self, ConnectorError> {
        Err(ConnectorError::NotImplemented(NOT_IMPLEMENTED))
    }
}

/// A request to refund a payment.
#[derive(Debug)]
pub struct ZenRefundRequest {
    pub amount: String,
    pub transaction_id: String,
    pub currency: String,
    pub merchant_transaction_id: String,
}

impl ZenRefundRequest {
    /// The request to refund an amount of a transaction, under the id of the
    /// refund.
    pub fn for_refund<T>(
        item: &ZenRouterData<T>,
        connector_transaction_id: &String,
        currency: &String,
        refund_id: &String,
    ) -> (res: Self)
        ensures
            res.amount == item.amount,
            res.transaction_id == *connector_transaction_id,
            res.currency == *currency,
            res.merchant_transaction_id == *refund_id,
    {
        ZenRefundRequest {
            amount: item.amount.clone(),
            transaction_id: connector_transaction_id.clone(),
            currency: currency.clone(),
            merchant_transaction_id: refund_id.clone(),
        }
    }
}

/// Zen takes a wallet only through a session that names its terminal and
/// its secret, and takes no payment without an address for notifications.
pub proof fn lemma_wallet_needs_session(item: ZenRouterData<&ZenPaymentInput>, wallet: WalletData)
    requires
        wallet_failure(item, wallet) is None,
    ensures
        wallet == WalletData::ApplePayRedirect || wallet == WalletData::GooglePayRedirect,
        item.router_data.session matches SessionReading::Found(session) && wallet_session(
            wallet,
            session,
        ) matches Some(data) && data.terminal_uuid is Some && data.pay_wall_secret is Some,
        item.router_data.webhook_url is Some,
{
}

} // verus!
