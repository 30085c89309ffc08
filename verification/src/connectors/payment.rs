//! What the platform knows of a payment when it asks a connector to take it.

use vstd::prelude::*;

use crate::connectors::types::{ConnectorAuthType, ConnectorError};
use crate::currency::Currency;
use crate::euclid::dir::PaymentMethodType;
use crate::secret::Secret;

verus! {

/// When the funds of a payment are captured.
#[derive(Debug, Clone, Copy, PartialEq, Eq, Structural)]
pub enum CaptureMethod {
    Automatic,
    Manual,
    ManualMultiple,
    Scheduled,
    SequentialAutomatic,
}

/// Whether the payment method is kept for payments without the payer.
#[derive(Debug, Clone, Copy, PartialEq, Eq, Structural)]
pub enum FutureUsage {
    OffSession,
    OnSession,
}

/// Whether the payer is to be authenticated with 3DS.
#[derive(Debug, Clone, Copy, PartialEq, Eq, Structural)]
pub enum AuthenticationType {
    ThreeDs,
    NoThreeDs,
}

/// The wallets a payment can be made with.
#[derive(Debug, Clone, Copy, PartialEq, Eq, Structural)]
pub enum WalletData {
    AliPayQr,
    AliPayRedirect,
    AliPayHkRedirect,
    AmazonPayRedirect,
    Paysera,
    Skrill,
    MomoRedirect,
    KakaoPayRedirect,
    GoPayRedirect,
    GcashRedirect,
    ApplePay,
    ApplePayRedirect,
    ApplePayThirdPartySdk,
    DanaRedirect,
    GooglePay,
    BluecodeRedirect,
    GooglePayRedirect,
    GooglePayThirdPartySdk,
    MbWayRedirect,
    MobilePayRedirect,
    PaypalRedirect,
    PaypalSdk,
    SamsungPay,
    TwintRedirect,
    VippsRedirect,
    TouchNGoRedirect,
    WeChatPayRedirect,
    WeChatPayQr,
    CashappQr,
    SwishQr,
    Mifinity,
    RevolutPay,
    Paze,
}

/// The banks and schemes a payer can be redirected to.
#[derive(Debug, Clone, Copy, PartialEq, Eq, Structural)]
pub enum BankRedirectData {
    BancontactCard,
    Bizum,
    Blik,
    Eft,
    Eps,
    Giropay,
    Ideal,
    Interac,
    OnlineBankingCzechRepublic,
    OnlineBankingFinland,
    OnlineBankingPoland,
    OnlineBankingSlovakia,
    OpenBankingUk,
    Przelewy24,
    Sofort,
    Trustly,
    OnlineBankingFpx,
    OnlineBankingThailand,
    LocalBankRedirect,
}

/// The card redirect schemes.
#[derive(Debug, Clone, Copy, PartialEq, Eq, Structural)]
pub enum CardRedirectData {
    Knet,
    Benefit,
    MomoAtm,
    CardRedirect,
}

/// The pay-later providers.
#[derive(Debug, Clone, Copy, PartialEq, Eq, Structural)]
pub enum PayLaterData {
    KlarnaRedirect,
    KlarnaSdk,
    AffirmRedirect,
    AfterpayClearpayRedirect,
    PayBrightRedirect,
    WalleyRedirect,
    FlexitiRedirect,
    AlmaRedirect,
    AtomeRedirect,
    BreadpayRedirect,
}

/// The bank debit schemes.
#[derive(Debug, Clone, Copy, PartialEq, Eq, Structural)]
pub enum BankDebitData {
    AchBankDebit,
    SepaBankDebit,
    BecsBankDebit,
    BacsBankDebit,
}

/// The bank transfer schemes.
#[derive(Debug, Clone, Copy, PartialEq, Eq, Structural)]
pub enum BankTransferData {
    AchBankTransfer,
    SepaBankTransfer,
    BacsBankTransfer,
    MultibancoBankTransfer,
    PermataBankTransfer,
    BcaBankTransfer,
    BniVaBankTransfer,
    BriVaBankTransfer,
    CimbVaBankTransfer,
    DanamonVaBankTransfer,
    MandiriVaBankTransfer,
    Pix,
    Pse,
    InstantBankTransfer,
    InstantBankTransferFinland,
    InstantBankTransferPoland,
    IndonesianBankTransfer,
    LocalBankTransfer,
}

/// The voucher schemes.
#[derive(Debug, Clone, Copy, PartialEq, Eq, Structural)]
pub enum VoucherData {
    Boleto,
    Efecty,
    PagoEfectivo,
    RedCompra,
    RedPagos,
    Alfamart,
    Indomaret,
    Oxxo,
    SevenEleven,
    Lawson,
    MiniStop,
    FamilyMart,
    Seicomart,
    PayEasy,
}

/// The gift cards.
#[derive(Debug, Clone, Copy, PartialEq, Eq, Structural)]
pub enum GiftCardData {
    Givex,
    PaySafeCard,
}

/// A card as the payer gave it.
pub struct Card {
    pub card_number: Secret,
    pub card_exp_month: Secret,
    pub card_exp_year: Secret,
    pub card_cvc: Secret,
}

/// What a payment is made with.
pub enum PaymentMethodData {
    Card(Card),
    CardRedirect(CardRedirectData),
    Wallet(WalletData),
    PayLater(PayLaterData),
    BankRedirect(BankRedirectData),
    BankDebit(BankDebitData),
    BankTransfer(BankTransferData),
    Crypto,
    MandatePayment,
    Reward,
    RealTimePayment,
    Upi,
    Voucher(VoucherData),
    GiftCard(GiftCardData),
    CardToken,
    CardDetailsForNetworkTransactionId,
    NetworkToken,
    OpenBanking,
    MobilePayment,
}

/// A postal address with the name it is for.
pub struct AddressDetails {
    pub city: Option<String>,
    /// The two-letter code of the country.
    pub country: Option<String>,
    pub line1: Option<Secret>,
    pub zip: Option<Secret>,
    pub first_name: Option<Secret>,
    pub last_name: Option<Secret>,
}

/// The address of a payer or of a delivery.
pub struct Address {
    pub address: Option<AddressDetails>,
}

/// A payment that a connector is asked to take.
pub struct PaymentRequestData {
    pub connector_auth_type: ConnectorAuthType,
    pub connector_request_reference_id: String,
    pub currency: Currency,
    pub capture_method: Option<CaptureMethod>,
    pub auth_type: AuthenticationType,
    pub setup_future_usage: Option<FutureUsage>,
    pub merchant_order_reference_id: Option<String>,
    pub complete_authorize_url: Option<String>,
    pub router_return_url: Option<String>,
    pub payment_method_data: PaymentMethodData,
    pub shipping: Option<Address>,
    pub billing: Option<Address>,
    /// The payment method type of the mandate that the payment is made
    /// under, where it is made under one; a mandate may lack the type.
    pub recurring_mandate_payment_method_type: Option<Option<PaymentMethodType>>,
    pub connector_mandate_id: Option<String>,
}

/// Whether the funds are captured with the authorization: so by default and
/// for the automatic methods, not so for the manual method. Capture in parts
/// and scheduled capture are not supported.
pub open spec fn auto_capture(capture_method: Option<CaptureMethod>) -> Result<
    bool,
    ConnectorError,
> {
    match capture_method {
        None | Some(CaptureMethod::Automatic) | Some(CaptureMethod::SequentialAutomatic) => Ok(
            true,
        ),
        Some(CaptureMethod::Manual) => Ok(false),
        Some(CaptureMethod::ManualMultiple) | Some(CaptureMethod::Scheduled) => Err(
            ConnectorError::CaptureMethodNotSupported,
        ),
    }
}

/// The details of an optional address.
pub open spec fn details_of(address: Option<Address>) -> Option<AddressDetails> {
    match address {
        Some(a) => a.address,
        None => None,
    }
}

/// The first name of an optional address.
pub open spec fn first_name_of(address: Option<Address>) -> Option<Secret> {
    match details_of(address) {
        Some(details) => details.first_name,
        None => None,
    }
}

/// The country of an optional address.
pub open spec fn country_of(address: Option<Address>) -> Option<String> {
    match details_of(address) {
        Some(details) => details.country,
        None => None,
    }
}

/// The full name of an optional address: the first and last name with a
/// space between them, or the first name alone; none without a first name.
pub open spec fn full_name_of(address: Option<Address>) -> Option<Seq<char>> {
    match details_of(address) {
        Some(details) => match (details.first_name, details.last_name) {
            (Some(first), Some(last)) => Some(first@ + seq![' '] + last@),
            (Some(first), None) => Some(first@),
            _ => None,
        },
        None => None,
    }
}

/// The year of a card's expiry in four digits: a year of two digits is a
/// year of this century.
pub open spec fn expiry_year_4_digit(year: Seq<char>) -> Seq<char> {
    if year.len() == 2 {
        seq!['2', '0'] + year
    } else {
        year
    }
}

/// The expiry of a card as year, delimiter and month.
pub open spec fn expiry_yyyymm(card: Card, delimiter: Seq<char>) -> Seq<char> {
    expiry_year_4_digit(card.card_exp_year@) + delimiter + card.card_exp_month@
}

impl PaymentRequestData {
    /// Whether the funds are captured with the authorization.
    pub fn is_auto_capture(&self) -> (res: Result<bool, ConnectorError>)
        ensures
            res == auto_capture(self.capture_method),
    {
        match self.capture_method {
            None | Some(CaptureMethod::Automatic) | Some(CaptureMethod::SequentialAutomatic) => Ok(
                true,
            ),
            Some(CaptureMethod::Manual) => Ok(false),
            Some(CaptureMethod::ManualMultiple) | Some(CaptureMethod::Scheduled) => Err(
                ConnectorError::CaptureMethodNotSupported,
            ),
        }
    }

    /// The address to deliver to, where one is known.
    pub fn get_optional_shipping(&self) -> (res: Option<&Address>)
        ensures
            match res {
                Some(address) => self.shipping == Some(*address),
                None => self.shipping is None,
            },
    {
        self.shipping.as_ref()
    }

    /// The address of the payer, where one is known.
    pub fn get_optional_billing(&self) -> (res: Option<&Address>)
        ensures
            match res {
                Some(address) => self.billing == Some(*address),
                None => self.billing is None,
            },
    {
        self.billing.as_ref()
    }
}

/// The full name of an optional address.
pub fn get_optional_full_name(address: Option<&Address>) -> (res: Option<Secret>)
    ensures
        match full_name_of(
            match address {
                Some(a) => Some(*a),
                None => None,
            },
        ) {
            Some(name) => res matches Some(secret) && secret@ == name,
            None => res is None,
        },
{
    let details = match address {
        Some(a) => match &a.address {
            Some(details) => details,
            None => {
                return None;
            },
        },
        None => {
            return None;
        },
    };
    match (&details.first_name, &details.last_name) {
        (Some(first), Some(last)) => {
            let mut name = String::from_str(first.peek());
            name.append(" ");
            proof {
                reveal_strlit(" ");
                assert(" "@ =~= seq![' ']);
            }
            name.append(last.peek());
            Some(Secret::new(name))
        },
        (Some(first), None) => Some(first.clone()),
        _ => None,
    }
}

impl Card {
    /// The expiry of the card as a four-digit year, the delimiter and the
    /// month.
    pub fn get_expiry_date_as_yyyymm(&self, delimiter: &str) -> (res: Secret)
        ensures
            res@ == expiry_yyyymm(*self, delimiter@),
    {
        let year = self.card_exp_year.peek();
        let mut text = if year.unicode_len() == 2 {
            proof {
                reveal_strlit("20");
                assert("20"@ =~= seq!['2', '0']);
            }
            String::from_str("20").concat(year)
        } else {
            String::from_str(year)
        };
        text.append(delimiter);
        text.append(self.card_exp_month.peek());
        Secret::new(text)
    }
}

} // verus!
