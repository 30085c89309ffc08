//! The directory of values that routing rules speak of: the payment methods
//! and their types, and the value that each of them is in a rule.

use vstd::prelude::*;

use crate::enums::RoutableConnectors;

verus! {

/// The payment methods.
#[derive(Debug, Clone, Copy, PartialEq, Eq, Hash, Structural)]
pub enum PaymentMethod {
    Card,
    CardRedirect,
    PayLater,
    Wallet,
    BankRedirect,
    BankTransfer,
    Crypto,
    BankDebit,
    Reward,
    RealTimePayment,
    Upi,
    Voucher,
    GiftCard,
    OpenBanking,
    MobilePayment,
}

/// The types of payment method.
#[derive(Debug, Clone, Copy, PartialEq, Eq, Hash, Structural)]
pub enum PaymentMethodType {
    Credit,
    Debit,
    Giropay,
    Ideal,
    Sofort,
    DuitNow,
    Eps,
    Fps,
    Klarna,
    Affirm,
    AfterpayClearpay,
    AmazonPay,
    Skrill,
    Paysera,
    GooglePay,
    Bluecode,
    ApplePay,
    Paypal,
    RevolutPay,
    CryptoCurrency,
    Ach,
    Bacs,
    Becs,
    Sepa,
    SepaBankTransfer,
    AliPay,
    AliPayHk,
    BancontactCard,
    Blik,
    MbWay,
    MobilePay,
    Cashapp,
    Multibanco,
    Pix,
    Pse,
    Interac,
    OnlineBankingCzechRepublic,
    OnlineBankingFinland,
    OnlineBankingPoland,
    OnlineBankingSlovakia,
    Swish,
    Trustly,
    Bizum,
    PayBright,
    Flexiti,
    Walley,
    Breadpay,
    Przelewy24,
    PromptPay,
    WeChatPay,
    ClassicReward,
    Evoucher,
    UpiCollect,
    UpiIntent,
    SamsungPay,
    GoPay,
    KakaoPay,
    Twint,
    Gcash,
    Vipps,
    VietQr,
    Momo,
    Alma,
    Dana,
    OnlineBankingFpx,
    LocalBankRedirect,
    OnlineBankingThailand,
    TouchNGo,
    Atome,
    Boleto,
    Efecty,
    PagoEfectivo,
    RedCompra,
    RedPagos,
    Alfamart,
    BcaBankTransfer,
    BniVa,
    BriVa,
    CimbVa,
    DanamonVa,
    Indomaret,
    MandiriVa,
    LocalBankTransfer,
    InstantBankTransfer,
    InstantBankTransferFinland,
    InstantBankTransferPoland,
    PermataBankTransfer,
    PaySafeCard,
    SevenEleven,
    Lawson,
    MiniStop,
    FamilyMart,
    Seicomart,
    PayEasy,
    Givex,
    Benefit,
    Knet,
    OpenBankingUk,
    MomoAtm,
    Oxxo,
    CardRedirect,
    Venmo,
    Mifinity,
    OpenBankingPIS,
    Paze,
    DirectCarrierBilling,
    Eft,
    IndonesianBankTransfer,
}

/// The types of card.
#[derive(Debug, Clone, Copy, PartialEq, Eq, Hash, Structural)]
pub enum CardType {
    Credit,
    Debit,
}

/// The banks and schemes a payer can be redirected to.
#[derive(Debug, Clone, Copy, PartialEq, Eq, Hash, Structural)]
pub enum BankRedirectType {
    Giropay,
    Ideal,
    Sofort,
    Eps,
    BancontactCard,
    Blik,
    Interac,
    OnlineBankingCzechRepublic,
    OnlineBankingFinland,
    OnlineBankingPoland,
    OnlineBankingSlovakia,
    Trustly,
    Bizum,
    Przelewy24,
    OnlineBankingFpx,
    LocalBankRedirect,
    OnlineBankingThailand,
    OpenBankingUk,
    Eft,
}

/// The real-time payment schemes.
#[derive(Debug, Clone, Copy, PartialEq, Eq, Hash, Structural)]
pub enum RealTimePaymentType {
    DuitNow,
    Fps,
    PromptPay,
    VietQr,
}

/// The pay-later providers.
#[derive(Debug, Clone, Copy, PartialEq, Eq, Hash, Structural)]
pub enum PayLaterType {
    Klarna,
    Affirm,
    AfterpayClearpay,
    PayBright,
    Flexiti,
    Walley,
    Breadpay,
    Alma,
    Atome,
}

/// The wallets.
#[derive(Debug, Clone, Copy, PartialEq, Eq, Hash, Structural)]
pub enum WalletType {
    AmazonPay,
    Skrill,
    Paysera,
    GooglePay,
    Bluecode,
    ApplePay,
    Paypal,
    RevolutPay,
    AliPay,
    AliPayHk,
    MbWay,
    MobilePay,
    Cashapp,
    Swish,
    WeChatPay,
    SamsungPay,
    GoPay,
    KakaoPay,
    Twint,
    Gcash,
    Vipps,
    Momo,
    Dana,
    TouchNGo,
    Venmo,
    Mifinity,
    Paze,
}

/// The kinds of crypto payment.
#[derive(Debug, Clone, Copy, PartialEq, Eq, Hash, Structural)]
pub enum CryptoType {
    CryptoCurrency,
}

/// The bank debit schemes.
#[derive(Debug, Clone, Copy, PartialEq, Eq, Hash, Structural)]
pub enum BankDebitType {
    Becs,
    Sepa,
    Ach,
    Bacs,
}

/// The bank transfer schemes.
#[derive(Debug, Clone, Copy, PartialEq, Eq, Hash, Structural)]
pub enum BankTransferType {
    SepaBankTransfer,
    Multibanco,
    Pix,
    Pse,
    BcaBankTransfer,
    BniVa,
    BriVa,
    CimbVa,
    DanamonVa,
    MandiriVa,
    LocalBankTransfer,
    InstantBankTransfer,
    InstantBankTransferFinland,
    InstantBankTransferPoland,
    PermataBankTransfer,
    IndonesianBankTransfer,
    Ach,
    Bacs,
}

/// The kinds of reward.
#[derive(Debug, Clone, Copy, PartialEq, Eq, Hash, Structural)]
pub enum RewardType {
    ClassicReward,
    Evoucher,
}

/// The UPI flows.
#[derive(Debug, Clone, Copy, PartialEq, Eq, Hash, Structural)]
pub enum UpiType {
    UpiCollect,
    UpiIntent,
}

/// The voucher schemes.
#[derive(Debug, Clone, Copy, PartialEq, Eq, Hash, Structural)]
pub enum VoucherType {
    Boleto,
    Efecty,
    PagoEfectivo,
    RedCompra,
    RedPagos,
    Alfamart,
    Indomaret,
    SevenEleven,
    Lawson,
    MiniStop,
    FamilyMart,
    Seicomart,
    PayEasy,
    Oxxo,
}

/// The gift cards.
#[derive(Debug, Clone, Copy, PartialEq, Eq, Hash, Structural)]
pub enum GiftCardType {
    PaySafeCard,
    Givex,
}

/// The card redirect schemes.
#[derive(Debug, Clone, Copy, PartialEq, Eq, Hash, Structural)]
pub enum CardRedirectType {
    Benefit,
    Knet,
    MomoAtm,
    CardRedirect,
}

/// The open banking flows.
#[derive(Debug, Clone, Copy, PartialEq, Eq, Hash, Structural)]
pub enum OpenBankingType {
    OpenBankingPIS,
}

/// The mobile payment flows.
#[derive(Debug, Clone, Copy, PartialEq, Eq, Hash, Structural)]
pub enum MobilePaymentType {
    DirectCarrierBilling,
}

/// A connector as a rule names it.
#[derive(Debug, Clone, Copy, PartialEq, Eq, Hash, Structural)]
pub struct ConnectorChoice {
    pub connector: RoutableConnectors,
}

/// A value that a rule can test a payment for.
#[derive(Debug, Clone, PartialEq, Eq)]
pub enum DirValue {
    CardType(CardType),
    BankRedirectType(BankRedirectType),
    RealTimePaymentType(RealTimePaymentType),
    PayLaterType(PayLaterType),
    WalletType(WalletType),
    CryptoType(CryptoType),
    BankDebitType(BankDebitType),
    BankTransferType(BankTransferType),
    RewardType(RewardType),
    UpiType(UpiType),
    VoucherType(VoucherType),
    GiftCardType(GiftCardType),
    CardRedirectType(CardRedirectType),
    OpenBankingType(OpenBankingType),
    MobilePaymentType(MobilePaymentType),
    Connector(Box<ConnectorChoice>),
}

/// The keys that a rule can test.
#[derive(Debug, Clone, Copy, PartialEq, Eq, Hash, Structural)]
pub enum DirKeyKind {
    PaymentMethod,
    CardBin,
    CardType,
    CardNetwork,
    PayLaterType,
    WalletType,
    UpiType,
    VoucherType,
    BankDebitType,
    BankRedirectType,
    BankTransferType,
    GiftCardType,
    CardRedirectType,
    CryptoType,
    RewardType,
    RealTimePaymentType,
    OpenBankingType,
    MobilePaymentType,
    MetaData,
    PaymentAmount,
    PaymentCurrency,
    AuthenticationType,
    MandateAcceptanceType,
    MandateType,
    PaymentType,
    SetupFutureUsage,
    CaptureMethod,
    BillingCountry,
    BusinessCountry,
    BusinessLabel,
    Connector,
}

/// Why a value cannot be analysed.
#[derive(Debug, Clone, Copy, PartialEq, Eq, Structural)]
pub enum AnalysisErrorType {
    /// The combination is not one that rules can speak of.
    NotSupported,
}

/// The key under which a value is tested.
pub open spec fn key_of_value(value: DirValue) -> DirKeyKind {
    match value {
        DirValue::CardType(_) => DirKeyKind::CardType,
        DirValue::BankRedirectType(_) => DirKeyKind::BankRedirectType,
        DirValue::RealTimePaymentType(_) => DirKeyKind::RealTimePaymentType,
        DirValue::PayLaterType(_) => DirKeyKind::PayLaterType,
        DirValue::WalletType(_) => DirKeyKind::WalletType,
        DirValue::CryptoType(_) => DirKeyKind::CryptoType,
        DirValue::BankDebitType(_) => DirKeyKind::BankDebitType,
        DirValue::BankTransferType(_) => DirKeyKind::BankTransferType,
        DirValue::RewardType(_) => DirKeyKind::RewardType,
        DirValue::UpiType(_) => DirKeyKind::UpiType,
        DirValue::VoucherType(_) => DirKeyKind::VoucherType,
        DirValue::GiftCardType(_) => DirKeyKind::GiftCardType,
        DirValue::CardRedirectType(_) => DirKeyKind::CardRedirectType,
        DirValue::OpenBankingType(_) => DirKeyKind::OpenBankingType,
        DirValue::MobilePaymentType(_) => DirKeyKind::MobilePaymentType,
        DirValue::Connector(_) => DirKeyKind::Connector,
    }
}

impl DirValue {
    /// The key under which this value is tested.
    pub fn get_key(&self) -> (key: DirKeyKind)
        ensures
            key == key_of_value(*self),
    {
        match self {
            DirValue::CardType(_) => DirKeyKind::CardType,
            DirValue::BankRedirectType(_) => DirKeyKind::BankRedirectType,
            DirValue::RealTimePaymentType(_) => DirKeyKind::RealTimePaymentType,
            DirValue::PayLaterType(_) => DirKeyKind::PayLaterType,
            DirValue::WalletType(_) => DirKeyKind::WalletType,
            DirValue::CryptoType(_) => DirKeyKind::CryptoType,
            DirValue::BankDebitType(_) => DirKeyKind::BankDebitType,
            DirValue::BankTransferType(_) => DirKeyKind::BankTransferType,
            DirValue::RewardType(_) => DirKeyKind::RewardType,
            DirValue::UpiType(_) => DirKeyKind::UpiType,
            DirValue::VoucherType(_) => DirKeyKind::VoucherType,
            DirValue::GiftCardType(_) => DirKeyKind::GiftCardType,
            DirValue::CardRedirectType(_) => DirKeyKind::CardRedirectType,
            DirValue::OpenBankingType(_) => DirKeyKind::OpenBankingType,
            DirValue::MobilePaymentType(_) => DirKeyKind::MobilePaymentType,
            DirValue::Connector(_) => DirKeyKind::Connector,
        }
    }
}

} // verus!
