//! From a payment method and its type to the value that rules test.

use vstd::prelude::*;

use crate::euclid::dir::{
    AnalysisErrorType, BankDebitType, BankRedirectType, BankTransferType, CardRedirectType, CardType, CryptoType, GiftCardType, MobilePaymentType, OpenBankingType, PayLaterType, RealTimePaymentType, RewardType, UpiType, VoucherType, WalletType, DirKeyKind, DirValue, PaymentMethod, PaymentMethodType, key_of_value,
};

verus! {

/// What can be turned into a value of the rule directory.
pub trait IntoDirValue: Sized {
    /// The value that `self` is in a rule, or why it has none.
    spec fn dir_value(self) -> Result<DirValue, AnalysisErrorType>;

    fn into_dir_value(self) -> (res: Result<DirValue, AnalysisErrorType>)
        ensures
            res == self.dir_value(),
    ;
}

/// The value of a payment method type that can be a bank debit or a bank
/// transfer, which one being decided by the payment method. Under any other
/// payment method the combination is not supported.
pub open spec fn debit_or_transfer(
    method: PaymentMethod,
    debit: BankDebitType,
    transfer: BankTransferType,
) -> Result<DirValue, AnalysisErrorType> {
    match method {
        PaymentMethod::BankDebit => Ok(DirValue::BankDebitType(debit)),
        PaymentMethod::BankTransfer => Ok(DirValue::BankTransferType(transfer)),
        _ => Err(AnalysisErrorType::NotSupported),
    }
}

/// The value that a payment method type is in a rule. The payment method
/// matters for ACH and BACS only.
pub open spec fn dir_value_of(
    method_type: PaymentMethodType,
    method: PaymentMethod,
) -> Result<DirValue, AnalysisErrorType> {
    match method_type {
        PaymentMethodType::Credit => Ok(DirValue::CardType(CardType::Credit)),
        PaymentMethodType::Debit => Ok(DirValue::CardType(CardType::Debit)),
        PaymentMethodType::Giropay => Ok(DirValue::BankRedirectType(BankRedirectType::Giropay)),
        PaymentMethodType::Ideal => Ok(DirValue::BankRedirectType(BankRedirectType::Ideal)),
        PaymentMethodType::Sofort => Ok(DirValue::BankRedirectType(BankRedirectType::Sofort)),
        PaymentMethodType::DuitNow => Ok(DirValue::RealTimePaymentType(RealTimePaymentType::DuitNow)),
        PaymentMethodType::Eps => Ok(DirValue::BankRedirectType(BankRedirectType::Eps)),
        PaymentMethodType::Fps => Ok(DirValue::RealTimePaymentType(RealTimePaymentType::Fps)),
        PaymentMethodType::Klarna => Ok(DirValue::PayLaterType(PayLaterType::Klarna)),
        PaymentMethodType::Affirm => Ok(DirValue::PayLaterType(PayLaterType::Affirm)),
        PaymentMethodType::AfterpayClearpay => Ok(DirValue::PayLaterType(PayLaterType::AfterpayClearpay)),
        PaymentMethodType::AmazonPay => Ok(DirValue::WalletType(WalletType::AmazonPay)),
        PaymentMethodType::Skrill => Ok(DirValue::WalletType(WalletType::Skrill)),
        PaymentMethodType::Paysera => Ok(DirValue::WalletType(WalletType::Paysera)),
        PaymentMethodType::GooglePay => Ok(DirValue::WalletType(WalletType::GooglePay)),
        PaymentMethodType::Bluecode => Ok(DirValue::WalletType(WalletType::Bluecode)),
        PaymentMethodType::ApplePay => Ok(DirValue::WalletType(WalletType::ApplePay)),
        PaymentMethodType::Paypal => Ok(DirValue::WalletType(WalletType::Paypal)),
        PaymentMethodType::RevolutPay => Ok(DirValue::WalletType(WalletType::RevolutPay)),
        PaymentMethodType::CryptoCurrency => Ok(DirValue::CryptoType(CryptoType::CryptoCurrency)),
        PaymentMethodType::Ach => debit_or_transfer(
            method,
            BankDebitType::Ach,
            BankTransferType::Ach,
        ),
        PaymentMethodType::Bacs => debit_or_transfer(
            method,
            BankDebitType::Bacs,
            BankTransferType::Bacs,
        ),
        PaymentMethodType::Becs => Ok(DirValue::BankDebitType(BankDebitType::Becs)),
        PaymentMethodType::Sepa => Ok(DirValue::BankDebitType(BankDebitType::Sepa)),
        PaymentMethodType::SepaBankTransfer => Ok(DirValue::BankTransferType(BankTransferType::SepaBankTransfer)),
        PaymentMethodType::AliPay => Ok(DirValue::WalletType(WalletType::AliPay)),
        PaymentMethodType::AliPayHk => Ok(DirValue::WalletType(WalletType::AliPayHk)),
        PaymentMethodType::BancontactCard => Ok(DirValue::BankRedirectType(BankRedirectType::BancontactCard)),
        PaymentMethodType::Blik => Ok(DirValue::BankRedirectType(BankRedirectType::Blik)),
        PaymentMethodType::MbWay => Ok(DirValue::WalletType(WalletType::MbWay)),
        PaymentMethodType::MobilePay => Ok(DirValue::WalletType(WalletType::MobilePay)),
        PaymentMethodType::Cashapp => Ok(DirValue::WalletType(WalletType::Cashapp)),
        PaymentMethodType::Multibanco => Ok(DirValue::BankTransferType(BankTransferType::Multibanco)),
        PaymentMethodType::Pix => Ok(DirValue::BankTransferType(BankTransferType::Pix)),
        PaymentMethodType::Pse => Ok(DirValue::BankTransferType(BankTransferType::Pse)),
        PaymentMethodType::Interac => Ok(DirValue::BankRedirectType(BankRedirectType::Interac)),
        PaymentMethodType::OnlineBankingCzechRepublic => Ok(DirValue::BankRedirectType(BankRedirectType::OnlineBankingCzechRepublic)),
        PaymentMethodType::OnlineBankingFinland => Ok(DirValue::BankRedirectType(BankRedirectType::OnlineBankingFinland)),
        PaymentMethodType::OnlineBankingPoland => Ok(DirValue::BankRedirectType(BankRedirectType::OnlineBankingPoland)),
        PaymentMethodType::OnlineBankingSlovakia => Ok(DirValue::BankRedirectType(BankRedirectType::OnlineBankingSlovakia)),
        PaymentMethodType::Swish => Ok(DirValue::WalletType(WalletType::Swish)),
        PaymentMethodType::Trustly => Ok(DirValue::BankRedirectType(BankRedirectType::Trustly)),
        PaymentMethodType::Bizum => Ok(DirValue::BankRedirectType(BankRedirectType::Bizum)),
        PaymentMethodType::PayBright => Ok(DirValue::PayLaterType(PayLaterType::PayBright)),
        PaymentMethodType::Flexiti => Ok(DirValue::PayLaterType(PayLaterType::Flexiti)),
        PaymentMethodType::Walley => Ok(DirValue::PayLaterType(PayLaterType::Walley)),
        PaymentMethodType::Breadpay => Ok(DirValue::PayLaterType(PayLaterType::Breadpay)),
        PaymentMethodType::Przelewy24 => Ok(DirValue::BankRedirectType(BankRedirectType::Przelewy24)),
        PaymentMethodType::PromptPay => Ok(DirValue::RealTimePaymentType(RealTimePaymentType::PromptPay)),
        PaymentMethodType::WeChatPay => Ok(DirValue::WalletType(WalletType::WeChatPay)),
        PaymentMethodType::ClassicReward => Ok(DirValue::RewardType(RewardType::ClassicReward)),
        PaymentMethodType::Evoucher => Ok(DirValue::RewardType(RewardType::Evoucher)),
        PaymentMethodType::UpiCollect => Ok(DirValue::UpiType(UpiType::UpiCollect)),
        PaymentMethodType::UpiIntent => Ok(DirValue::UpiType(UpiType::UpiIntent)),
        PaymentMethodType::SamsungPay => Ok(DirValue::WalletType(WalletType::SamsungPay)),
        PaymentMethodType::GoPay => Ok(DirValue::WalletType(WalletType::GoPay)),
        PaymentMethodType::KakaoPay => Ok(DirValue::WalletType(WalletType::KakaoPay)),
        PaymentMethodType::Twint => Ok(DirValue::WalletType(WalletType::Twint)),
        PaymentMethodType::Gcash => Ok(DirValue::WalletType(WalletType::Gcash)),
        PaymentMethodType::Vipps => Ok(DirValue::WalletType(WalletType::Vipps)),
        PaymentMethodType::VietQr => Ok(DirValue::RealTimePaymentType(RealTimePaymentType::VietQr)),
        PaymentMethodType::Momo => Ok(DirValue::WalletType(WalletType::Momo)),
        PaymentMethodType::Alma => Ok(DirValue::PayLaterType(PayLaterType::Alma)),
        PaymentMethodType::Dana => Ok(DirValue::WalletType(WalletType::Dana)),
        PaymentMethodType::OnlineBankingFpx => Ok(DirValue::BankRedirectType(BankRedirectType::OnlineBankingFpx)),
        PaymentMethodType::LocalBankRedirect => Ok(DirValue::BankRedirectType(BankRedirectType::LocalBankRedirect)),
        PaymentMethodType::OnlineBankingThailand => Ok(DirValue::BankRedirectType(BankRedirectType::OnlineBankingThailand)),
        PaymentMethodType::TouchNGo => Ok(DirValue::WalletType(WalletType::TouchNGo)),
        PaymentMethodType::Atome => Ok(DirValue::PayLaterType(PayLaterType::Atome)),
        PaymentMethodType::Boleto => Ok(DirValue::VoucherType(VoucherType::Boleto)),
        PaymentMethodType::Efecty => Ok(DirValue::VoucherType(VoucherType::Efecty)),
        PaymentMethodType::PagoEfectivo => Ok(DirValue::VoucherType(VoucherType::PagoEfectivo)),
        PaymentMethodType::RedCompra => Ok(DirValue::VoucherType(VoucherType::RedCompra)),
        PaymentMethodType::RedPagos => Ok(DirValue::VoucherType(VoucherType::RedPagos)),
        PaymentMethodType::Alfamart => Ok(DirValue::VoucherType(VoucherType::Alfamart)),
        PaymentMethodType::BcaBankTransfer => Ok(DirValue::BankTransferType(BankTransferType::BcaBankTransfer)),
        PaymentMethodType::BniVa => Ok(DirValue::BankTransferType(BankTransferType::BniVa)),
        PaymentMethodType::BriVa => Ok(DirValue::BankTransferType(BankTransferType::BriVa)),
        PaymentMethodType::CimbVa => Ok(DirValue::BankTransferType(BankTransferType::CimbVa)),
        PaymentMethodType::DanamonVa => Ok(DirValue::BankTransferType(BankTransferType::DanamonVa)),
        PaymentMethodType::Indomaret => Ok(DirValue::VoucherType(VoucherType::Indomaret)),
        PaymentMethodType::MandiriVa => Ok(DirValue::BankTransferType(BankTransferType::MandiriVa)),
        PaymentMethodType::LocalBankTransfer => Ok(DirValue::BankTransferType(BankTransferType::LocalBankTransfer)),
        PaymentMethodType::InstantBankTransfer => Ok(DirValue::BankTransferType(BankTransferType::InstantBankTransfer)),
        PaymentMethodType::InstantBankTransferFinland => Ok(DirValue::BankTransferType(BankTransferType::InstantBankTransferFinland)),
        PaymentMethodType::InstantBankTransferPoland => Ok(DirValue::BankTransferType(BankTransferType::InstantBankTransferPoland)),
        PaymentMethodType::PermataBankTransfer => Ok(DirValue::BankTransferType(BankTransferType::PermataBankTransfer)),
        PaymentMethodType::PaySafeCard => Ok(DirValue::GiftCardType(GiftCardType::PaySafeCard)),
        PaymentMethodType::SevenEleven => Ok(DirValue::VoucherType(VoucherType::SevenEleven)),
        PaymentMethodType::Lawson => Ok(DirValue::VoucherType(VoucherType::Lawson)),
        PaymentMethodType::MiniStop => Ok(DirValue::VoucherType(VoucherType::MiniStop)),
        PaymentMethodType::FamilyMart => Ok(DirValue::VoucherType(VoucherType::FamilyMart)),
        PaymentMethodType::Seicomart => Ok(DirValue::VoucherType(VoucherType::Seicomart)),
        PaymentMethodType::PayEasy => Ok(DirValue::VoucherType(VoucherType::PayEasy)),
        PaymentMethodType::Givex => Ok(DirValue::GiftCardType(GiftCardType::Givex)),
        PaymentMethodType::Benefit => Ok(DirValue::CardRedirectType(CardRedirectType::Benefit)),
        PaymentMethodType::Knet => Ok(DirValue::CardRedirectType(CardRedirectType::Knet)),
        PaymentMethodType::OpenBankingUk => Ok(DirValue::BankRedirectType(BankRedirectType::OpenBankingUk)),
        PaymentMethodType::MomoAtm => Ok(DirValue::CardRedirectType(CardRedirectType::MomoAtm)),
        PaymentMethodType::Oxxo => Ok(DirValue::VoucherType(VoucherType::Oxxo)),
        PaymentMethodType::CardRedirect => Ok(DirValue::CardRedirectType(CardRedirectType::CardRedirect)),
        PaymentMethodType::Venmo => Ok(DirValue::WalletType(WalletType::Venmo)),
        PaymentMethodType::Mifinity => Ok(DirValue::WalletType(WalletType::Mifinity)),
        PaymentMethodType::OpenBankingPIS => Ok(DirValue::OpenBankingType(OpenBankingType::OpenBankingPIS)),
        PaymentMethodType::Paze => Ok(DirValue::WalletType(WalletType::Paze)),
        PaymentMethodType::DirectCarrierBilling => Ok(DirValue::MobilePaymentType(MobilePaymentType::DirectCarrierBilling)),
        PaymentMethodType::Eft => Ok(DirValue::BankRedirectType(BankRedirectType::Eft)),
        PaymentMethodType::IndonesianBankTransfer => Ok(DirValue::BankTransferType(BankTransferType::IndonesianBankTransfer)),
    }
}

impl IntoDirValue for (PaymentMethodType, PaymentMethod) {
    open spec fn dir_value(self) -> Result<DirValue, AnalysisErrorType> {
        dir_value_of(self.0, self.1)
    }

    fn into_dir_value(self) -> (res: Result<DirValue, AnalysisErrorType>) {
        match self.0 {
            PaymentMethodType::Credit => Ok(DirValue::CardType(CardType::Credit)),
            PaymentMethodType::Debit => Ok(DirValue::CardType(CardType::Debit)),
            PaymentMethodType::Giropay => Ok(DirValue::BankRedirectType(BankRedirectType::Giropay)),
            PaymentMethodType::Ideal => Ok(DirValue::BankRedirectType(BankRedirectType::Ideal)),
            PaymentMethodType::Sofort => Ok(DirValue::BankRedirectType(BankRedirectType::Sofort)),
            PaymentMethodType::DuitNow => Ok(DirValue::RealTimePaymentType(RealTimePaymentType::DuitNow)),
            PaymentMethodType::Eps => Ok(DirValue::BankRedirectType(BankRedirectType::Eps)),
            PaymentMethodType::Fps => Ok(DirValue::RealTimePaymentType(RealTimePaymentType::Fps)),
            PaymentMethodType::Klarna => Ok(DirValue::PayLaterType(PayLaterType::Klarna)),
            PaymentMethodType::Affirm => Ok(DirValue::PayLaterType(PayLaterType::Affirm)),
            PaymentMethodType::AfterpayClearpay => Ok(DirValue::PayLaterType(PayLaterType::AfterpayClearpay)),
            PaymentMethodType::AmazonPay => Ok(DirValue::WalletType(WalletType::AmazonPay)),
            PaymentMethodType::Skrill => Ok(DirValue::WalletType(WalletType::Skrill)),
            PaymentMethodType::Paysera => Ok(DirValue::WalletType(WalletType::Paysera)),
            PaymentMethodType::GooglePay => Ok(DirValue::WalletType(WalletType::GooglePay)),
            PaymentMethodType::Bluecode => Ok(DirValue::WalletType(WalletType::Bluecode)),
            PaymentMethodType::ApplePay => Ok(DirValue::WalletType(WalletType::ApplePay)),
            PaymentMethodType::Paypal => Ok(DirValue::WalletType(WalletType::Paypal)),
            PaymentMethodType::RevolutPay => Ok(DirValue::WalletType(WalletType::RevolutPay)),
            PaymentMethodType::CryptoCurrency => Ok(DirValue::CryptoType(CryptoType::CryptoCurrency)),
            PaymentMethodType::Ach => match self.1 {
                PaymentMethod::BankDebit => Ok(DirValue::BankDebitType(BankDebitType::Ach)),
                PaymentMethod::BankTransfer => Ok(
                    DirValue::BankTransferType(BankTransferType::Ach),
                ),
                PaymentMethod::PayLater
                | PaymentMethod::Card
                | PaymentMethod::CardRedirect
                | PaymentMethod::Wallet
                | PaymentMethod::BankRedirect
                | PaymentMethod::Crypto
                | PaymentMethod::Reward
                | PaymentMethod::RealTimePayment
                | PaymentMethod::Upi
                | PaymentMethod::Voucher
                | PaymentMethod::OpenBanking
                | PaymentMethod::MobilePayment
                | PaymentMethod::GiftCard => Err(AnalysisErrorType::NotSupported),
            },
            PaymentMethodType::Bacs => match self.1 {
                PaymentMethod::BankDebit => Ok(DirValue::BankDebitType(BankDebitType::Bacs)),
                PaymentMethod::BankTransfer => Ok(
                    DirValue::BankTransferType(BankTransferType::Bacs),
                ),
                PaymentMethod::PayLater
                | PaymentMethod::Card
                | PaymentMethod::CardRedirect
                | PaymentMethod::Wallet
                | PaymentMethod::BankRedirect
                | PaymentMethod::Crypto
                | PaymentMethod::Reward
                | PaymentMethod::RealTimePayment
                | PaymentMethod::Upi
                | PaymentMethod::Voucher
                | PaymentMethod::OpenBanking
                | PaymentMethod::MobilePayment
                | PaymentMethod::GiftCard => Err(AnalysisErrorType::NotSupported),
            },
            PaymentMethodType::Becs => Ok(DirValue::BankDebitType(BankDebitType::Becs)),
            PaymentMethodType::Sepa => Ok(DirValue::BankDebitType(BankDebitType::Sepa)),
            PaymentMethodType::SepaBankTransfer => Ok(DirValue::BankTransferType(BankTransferType::SepaBankTransfer)),
            PaymentMethodType::AliPay => Ok(DirValue::WalletType(WalletType::AliPay)),
            PaymentMethodType::AliPayHk => Ok(DirValue::WalletType(WalletType::AliPayHk)),
            PaymentMethodType::BancontactCard => Ok(DirValue::BankRedirectType(BankRedirectType::BancontactCard)),
            PaymentMethodType::Blik => Ok(DirValue::BankRedirectType(BankRedirectType::Blik)),
            PaymentMethodType::MbWay => Ok(DirValue::WalletType(WalletType::MbWay)),
            PaymentMethodType::MobilePay => Ok(DirValue::WalletType(WalletType::MobilePay)),
            PaymentMethodType::Cashapp => Ok(DirValue::WalletType(WalletType::Cashapp)),
            PaymentMethodType::Multibanco => Ok(DirValue::BankTransferType(BankTransferType::Multibanco)),
            PaymentMethodType::Pix => Ok(DirValue::BankTransferType(BankTransferType::Pix)),
            PaymentMethodType::Pse => Ok(DirValue::BankTransferType(BankTransferType::Pse)),
            PaymentMethodType::Interac => Ok(DirValue::BankRedirectType(BankRedirectType::Interac)),
            PaymentMethodType::OnlineBankingCzechRepublic => Ok(DirValue::BankRedirectType(BankRedirectType::OnlineBankingCzechRepublic)),
            PaymentMethodType::OnlineBankingFinland => Ok(DirValue::BankRedirectType(BankRedirectType::OnlineBankingFinland)),
            PaymentMethodType::OnlineBankingPoland => Ok(DirValue::BankRedirectType(BankRedirectType::OnlineBankingPoland)),
            PaymentMethodType::OnlineBankingSlovakia => Ok(DirValue::BankRedirectType(BankRedirectType::OnlineBankingSlovakia)),
            PaymentMethodType::Swish => Ok(DirValue::WalletType(WalletType::Swish)),
            PaymentMethodType::Trustly => Ok(DirValue::BankRedirectType(BankRedirectType::Trustly)),
            PaymentMethodType::Bizum => Ok(DirValue::BankRedirectType(BankRedirectType::Bizum)),
            PaymentMethodType::PayBright => Ok(DirValue::PayLaterType(PayLaterType::PayBright)),
            PaymentMethodType::Flexiti => Ok(DirValue::PayLaterType(PayLaterType::Flexiti)),
            PaymentMethodType::Walley => Ok(DirValue::PayLaterType(PayLaterType::Walley)),
            PaymentMethodType::Breadpay => Ok(DirValue::PayLaterType(PayLaterType::Breadpay)),
            PaymentMethodType::Przelewy24 => Ok(DirValue::BankRedirectType(BankRedirectType::Przelewy24)),
            PaymentMethodType::PromptPay => Ok(DirValue::RealTimePaymentType(RealTimePaymentType::PromptPay)),
            PaymentMethodType::WeChatPay => Ok(DirValue::WalletType(WalletType::WeChatPay)),
            PaymentMethodType::ClassicReward => Ok(DirValue::RewardType(RewardType::ClassicReward)),
            PaymentMethodType::Evoucher => Ok(DirValue::RewardType(RewardType::Evoucher)),
            PaymentMethodType::UpiCollect => Ok(DirValue::UpiType(UpiType::UpiCollect)),
            PaymentMethodType::UpiIntent => Ok(DirValue::UpiType(UpiType::UpiIntent)),
            PaymentMethodType::SamsungPay => Ok(DirValue::WalletType(WalletType::SamsungPay)),
            PaymentMethodType::GoPay => Ok(DirValue::WalletType(WalletType::GoPay)),
            PaymentMethodType::KakaoPay => Ok(DirValue::WalletType(WalletType::KakaoPay)),
            PaymentMethodType::Twint => Ok(DirValue::WalletType(WalletType::Twint)),
            PaymentMethodType::Gcash => Ok(DirValue::WalletType(WalletType::Gcash)),
            PaymentMethodType::Vipps => Ok(DirValue::WalletType(WalletType::Vipps)),
            PaymentMethodType::VietQr => Ok(DirValue::RealTimePaymentType(RealTimePaymentType::VietQr)),
            PaymentMethodType::Momo => Ok(DirValue::WalletType(WalletType::Momo)),
            PaymentMethodType::Alma => Ok(DirValue::PayLaterType(PayLaterType::Alma)),
            PaymentMethodType::Dana => Ok(DirValue::WalletType(WalletType::Dana)),
            PaymentMethodType::OnlineBankingFpx => Ok(DirValue::BankRedirectType(BankRedirectType::OnlineBankingFpx)),
            PaymentMethodType::LocalBankRedirect => Ok(DirValue::BankRedirectType(BankRedirectType::LocalBankRedirect)),
            PaymentMethodType::OnlineBankingThailand => Ok(DirValue::BankRedirectType(BankRedirectType::OnlineBankingThailand)),
            PaymentMethodType::TouchNGo => Ok(DirValue::WalletType(WalletType::TouchNGo)),
            PaymentMethodType::Atome => Ok(DirValue::PayLaterType(PayLaterType::Atome)),
            PaymentMethodType::Boleto => Ok(DirValue::VoucherType(VoucherType::Boleto)),
            PaymentMethodType::Efecty => Ok(DirValue::VoucherType(VoucherType::Efecty)),
            PaymentMethodType::PagoEfectivo => Ok(DirValue::VoucherType(VoucherType::PagoEfectivo)),
            PaymentMethodType::RedCompra => Ok(DirValue::VoucherType(VoucherType::RedCompra)),
            PaymentMethodType::RedPagos => Ok(DirValue::VoucherType(VoucherType::RedPagos)),
            PaymentMethodType::Alfamart => Ok(DirValue::VoucherType(VoucherType::Alfamart)),
            PaymentMethodType::BcaBankTransfer => Ok(DirValue::BankTransferType(BankTransferType::BcaBankTransfer)),
            PaymentMethodType::BniVa => Ok(DirValue::BankTransferType(BankTransferType::BniVa)),
            PaymentMethodType::BriVa => Ok(DirValue::BankTransferType(BankTransferType::BriVa)),
            PaymentMethodType::CimbVa => Ok(DirValue::BankTransferType(BankTransferType::CimbVa)),
            PaymentMethodType::DanamonVa => Ok(DirValue::BankTransferType(BankTransferType::DanamonVa)),
            PaymentMethodType::Indomaret => Ok(DirValue::VoucherType(VoucherType::Indomaret)),
            PaymentMethodType::MandiriVa => Ok(DirValue::BankTransferType(BankTransferType::MandiriVa)),
            PaymentMethodType::LocalBankTransfer => Ok(DirValue::BankTransferType(BankTransferType::LocalBankTransfer)),
            PaymentMethodType::InstantBankTransfer => Ok(DirValue::BankTransferType(BankTransferType::InstantBankTransfer)),
            PaymentMethodType::InstantBankTransferFinland => Ok(DirValue::BankTransferType(BankTransferType::InstantBankTransferFinland)),
            PaymentMethodType::InstantBankTransferPoland => Ok(DirValue::BankTransferType(BankTransferType::InstantBankTransferPoland)),
            PaymentMethodType::PermataBankTransfer => Ok(DirValue::BankTransferType(BankTransferType::PermataBankTransfer)),
            PaymentMethodType::PaySafeCard => Ok(DirValue::GiftCardType(GiftCardType::PaySafeCard)),
            PaymentMethodType::SevenEleven => Ok(DirValue::VoucherType(VoucherType::SevenEleven)),
            PaymentMethodType::Lawson => Ok(DirValue::VoucherType(VoucherType::Lawson)),
            PaymentMethodType::MiniStop => Ok(DirValue::VoucherType(VoucherType::MiniStop)),
            PaymentMethodType::FamilyMart => Ok(DirValue::VoucherType(VoucherType::FamilyMart)),
            PaymentMethodType::Seicomart => Ok(DirValue::VoucherType(VoucherType::Seicomart)),
            PaymentMethodType::PayEasy => Ok(DirValue::VoucherType(VoucherType::PayEasy)),
            PaymentMethodType::Givex => Ok(DirValue::GiftCardType(GiftCardType::Givex)),
            PaymentMethodType::Benefit => Ok(DirValue::CardRedirectType(CardRedirectType::Benefit)),
            PaymentMethodType::Knet => Ok(DirValue::CardRedirectType(CardRedirectType::Knet)),
            PaymentMethodType::OpenBankingUk => Ok(DirValue::BankRedirectType(BankRedirectType::OpenBankingUk)),
            PaymentMethodType::MomoAtm => Ok(DirValue::CardRedirectType(CardRedirectType::MomoAtm)),
            PaymentMethodType::Oxxo => Ok(DirValue::VoucherType(VoucherType::Oxxo)),
            PaymentMethodType::CardRedirect => Ok(DirValue::CardRedirectType(CardRedirectType::CardRedirect)),
            PaymentMethodType::Venmo => Ok(DirValue::WalletType(WalletType::Venmo)),
            PaymentMethodType::Mifinity => Ok(DirValue::WalletType(WalletType::Mifinity)),
            PaymentMethodType::OpenBankingPIS => Ok(DirValue::OpenBankingType(OpenBankingType::OpenBankingPIS)),
            PaymentMethodType::Paze => Ok(DirValue::WalletType(WalletType::Paze)),
            PaymentMethodType::DirectCarrierBilling => Ok(DirValue::MobilePaymentType(MobilePaymentType::DirectCarrierBilling)),
            PaymentMethodType::Eft => Ok(DirValue::BankRedirectType(BankRedirectType::Eft)),
            PaymentMethodType::IndonesianBankTransfer => Ok(DirValue::BankTransferType(BankTransferType::IndonesianBankTransfer)),
        }
    }
}

/// The payment method decides the value of ACH and BACS and of nothing else,
/// and only those two can be without a value.
pub proof fn lemma_method_matters_for_ach_and_bacs(
    method_type: PaymentMethodType,
    a: PaymentMethod,
    b: PaymentMethod,
)
    ensures
        method_type != PaymentMethodType::Ach && method_type != PaymentMethodType::Bacs ==> {
            &&& dir_value_of(method_type, a) is Ok
            &&& dir_value_of(method_type, a) == dir_value_of(method_type, b)
        },
        method_type == PaymentMethodType::Ach || method_type == PaymentMethodType::Bacs ==> (
        dir_value_of(method_type, a) is Err <==> a != PaymentMethod::BankDebit && a
            != PaymentMethod::BankTransfer),
{
}

/// ACH and BACS are tested as a bank debit under the bank debit method and
/// as a bank transfer under the bank transfer method.
pub proof fn lemma_ach_and_bacs_follow_method(method_type: PaymentMethodType)
    requires
        method_type == PaymentMethodType::Ach || method_type == PaymentMethodType::Bacs,
    ensures
        dir_value_of(method_type, PaymentMethod::BankDebit) matches Ok(value) && key_of_value(value)
            == DirKeyKind::BankDebitType,
        dir_value_of(method_type, PaymentMethod::BankTransfer) matches Ok(value) && key_of_value(
            value,
        ) == DirKeyKind::BankTransferType,
{
}

/// No payment method type is tested as a connector.
pub proof fn lemma_value_is_never_a_connector(method_type: PaymentMethodType, method: PaymentMethod)
    ensures
        dir_value_of(method_type, method) matches Ok(value) ==> key_of_value(value)
            != DirKeyKind::Connector,
{
}

} // verus!
