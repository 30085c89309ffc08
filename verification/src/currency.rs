//! The currencies that the platform knows, by their ISO 4217 codes.

use vstd::prelude::*;

use crate::text::text_equals;

verus! {

/// A currency.
#[derive(Debug, Clone, Copy, PartialEq, Eq, Hash, Structural)]
pub enum Currency {
    AED,
    AFN,
    ALL,
    AMD,
    ANG,
    AOA,
    ARS,
    AUD,
    AWG,
    AZN,
    BAM,
    BBD,
    BDT,
    BGN,
    BHD,
    BIF,
    BMD,
    BND,
    BOB,
    BRL,
    BSD,
    BTN,
    BWP,
    BYN,
    BZD,
    CAD,
    CDF,
    CHF,
    CLF,
    CLP,
    CNY,
    COP,
    CRC,
    CUC,
    CUP,
    CVE,
    CZK,
    DJF,
    DKK,
    DOP,
    DZD,
    EGP,
    ERN,
    ETB,
    EUR,
    FJD,
    FKP,
    GBP,
    GEL,
    GHS,
    GIP,
    GMD,
    GNF,
    GTQ,
    GYD,
    HKD,
    HNL,
    HRK,
    HTG,
    HUF,
    IDR,
    ILS,
    INR,
    IQD,
    IRR,
    ISK,
    JMD,
    JOD,
    JPY,
    KES,
    KGS,
    KHR,
    KMF,
    KPW,
    KRW,
    KWD,
    KYD,
    KZT,
    LAK,
    LBP,
    LKR,
    LRD,
    LSL,
    LYD,
    MAD,
    MDL,
    MGA,
    MKD,
    MMK,
    MNT,
    MOP,
    MRU,
    MUR,
    MVR,
    MWK,
    MXN,
    MYR,
    MZN,
    NAD,
    NGN,
    NIO,
    NOK,
    NPR,
    NZD,
    OMR,
    PAB,
    PEN,
    PGK,
    PHP,
    PKR,
    PLN,
    PYG,
    QAR,
    RON,
    RSD,
    RUB,
    RWF,
    SAR,
    SBD,
    SCR,
    SDG,
    SEK,
    SGD,
    SHP,
    SLE,
    SLL,
    SOS,
    SRD,
    SSP,
    STD,
    STN,
    SVC,
    SYP,
    SZL,
    THB,
    TJS,
    TMT,
    TND,
    TOP,
    TRY,
    TTD,
    TWD,
    TZS,
    UAH,
    UGX,
    USD,
    UYU,
    UZS,
    VES,
    VND,
    VUV,
    WST,
    XAF,
    XCD,
    XOF,
    XPF,
    YER,
    ZAR,
    ZMW,
    ZWL,
}

/// The three-letter code of a currency.
pub open spec fn currency_code(currency: Currency) -> Seq<char> {
    match currency {
        Currency::AED => "AED"@,
        Currency::AFN => "AFN"@,
        Currency::ALL => "ALL"@,
        Currency::AMD => "AMD"@,
        Currency::ANG => "ANG"@,
        Currency::AOA => "AOA"@,
        Currency::ARS => "ARS"@,
        Currency::AUD => "AUD"@,
        Currency::AWG => "AWG"@,
        Currency::AZN => "AZN"@,
        Currency::BAM => "BAM"@,
        Currency::BBD => "BBD"@,
        Currency::BDT => "BDT"@,
        Currency::BGN => "BGN"@,
        Currency::BHD => "BHD"@,
        Currency::BIF => "BIF"@,
        Currency::BMD => "BMD"@,
        Currency::BND => "BND"@,
        Currency::BOB => "BOB"@,
        Currency::BRL => "BRL"@,
        Currency::BSD => "BSD"@,
        Currency::BTN => "BTN"@,
        Currency::BWP => "BWP"@,
        Currency::BYN => "BYN"@,
        Currency::BZD => "BZD"@,
        Currency::CAD => "CAD"@,
        Currency::CDF => "CDF"@,
        Currency::CHF => "CHF"@,
        Currency::CLF => "CLF"@,
        Currency::CLP => "CLP"@,
        Currency::CNY => "CNY"@,
        Currency::COP => "COP"@,
        Currency::CRC => "CRC"@,
        Currency::CUC => "CUC"@,
        Currency::CUP => "CUP"@,
        Currency::CVE => "CVE"@,
        Currency::CZK => "CZK"@,
        Currency::DJF => "DJF"@,
        Currency::DKK => "DKK"@,
        Currency::DOP => "DOP"@,
        Currency::DZD => "DZD"@,
        Currency::EGP => "EGP"@,
        Currency::ERN => "ERN"@,
        Currency::ETB => "ETB"@,
        Currency::EUR => "EUR"@,
        Currency::FJD => "FJD"@,
        Currency::FKP => "FKP"@,
        Currency::GBP => "GBP"@,
        Currency::GEL => "GEL"@,
        Currency::GHS => "GHS"@,
        Currency::GIP => "GIP"@,
        Currency::GMD => "GMD"@,
        Currency::GNF => "GNF"@,
        Currency::GTQ => "GTQ"@,
        Currency::GYD => "GYD"@,
        Currency::HKD => "HKD"@,
        Currency::HNL => "HNL"@,
        Currency::HRK => "HRK"@,
        Currency::HTG => "HTG"@,
        Currency::HUF => "HUF"@,
        Currency::IDR => "IDR"@,
        Currency::ILS => "ILS"@,
        Currency::INR => "INR"@,
        Currency::IQD => "IQD"@,
        Currency::IRR => "IRR"@,
        Currency::ISK => "ISK"@,
        Currency::JMD => "JMD"@,
        Currency::JOD => "JOD"@,
        Currency::JPY => "JPY"@,
        Currency::KES => "KES"@,
        Currency::KGS => "KGS"@,
        Currency::KHR => "KHR"@,
        Currency::KMF => "KMF"@,
        Currency::KPW => "KPW"@,
        Currency::KRW => "KRW"@,
        Currency::KWD => "KWD"@,
        Currency::KYD => "KYD"@,
        Currency::KZT => "KZT"@,
        Currency::LAK => "LAK"@,
        Currency::LBP => "LBP"@,
        Currency::LKR => "LKR"@,
        Currency::LRD => "LRD"@,
        Currency::LSL => "LSL"@,
        Currency::LYD => "LYD"@,
        Currency::MAD => "MAD"@,
        Currency::MDL => "MDL"@,
        Currency::MGA => "MGA"@,
        Currency::MKD => "MKD"@,
        Currency::MMK => "MMK"@,
        Currency::MNT => "MNT"@,
        Currency::MOP => "MOP"@,
        Currency::MRU => "MRU"@,
        Currency::MUR => "MUR"@,
        Currency::MVR => "MVR"@,
        Currency::MWK => "MWK"@,
        Currency::MXN => "MXN"@,
        Currency::MYR => "MYR"@,
        Currency::MZN => "MZN"@,
        Currency::NAD => "NAD"@,
        Currency::NGN => "NGN"@,
        Currency::NIO => "NIO"@,
        Currency::NOK => "NOK"@,
        Currency::NPR => "NPR"@,
        Currency::NZD => "NZD"@,
        Currency::OMR => "OMR"@,
        Currency::PAB => "PAB"@,
        Currency::PEN => "PEN"@,
        Currency::PGK => "PGK"@,
        Currency::PHP => "PHP"@,
        Currency::PKR => "PKR"@,
        Currency::PLN => "PLN"@,
        Currency::PYG => "PYG"@,
        Currency::QAR => "QAR"@,
        Currency::RON => "RON"@,
        Currency::RSD => "RSD"@,
        Currency::RUB => "RUB"@,
        Currency::RWF => "RWF"@,
        Currency::SAR => "SAR"@,
        Currency::SBD => "SBD"@,
        Currency::SCR => "SCR"@,
        Currency::SDG => "SDG"@,
        Currency::SEK => "SEK"@,
        Currency::SGD => "SGD"@,
        Currency::SHP => "SHP"@,
        Currency::SLE => "SLE"@,
        Currency::SLL => "SLL"@,
        Currency::SOS => "SOS"@,
        Currency::SRD => "SRD"@,
        Currency::SSP => "SSP"@,
        Currency::STD => "STD"@,
        Currency::STN => "STN"@,
        Currency::SVC => "SVC"@,
        Currency::SYP => "SYP"@,
        Currency::SZL => "SZL"@,
        Currency::THB => "THB"@,
        Currency::TJS => "TJS"@,
        Currency::TMT => "TMT"@,
        Currency::TND => "TND"@,
        Currency::TOP => "TOP"@,
        Currency::TRY => "TRY"@,
        Currency::TTD => "TTD"@,
        Currency::TWD => "TWD"@,
        Currency::TZS => "TZS"@,
        Currency::UAH => "UAH"@,
        Currency::UGX => "UGX"@,
        Currency::USD => "USD"@,
        Currency::UYU => "UYU"@,
        Currency::UZS => "UZS"@,
        Currency::VES => "VES"@,
        Currency::VND => "VND"@,
        Currency::VUV => "VUV"@,
        Currency::WST => "WST"@,
        Currency::XAF => "XAF"@,
        Currency::XCD => "XCD"@,
        Currency::XOF => "XOF"@,
        Currency::XPF => "XPF"@,
        Currency::YER => "YER"@,
        Currency::ZAR => "ZAR"@,
        Currency::ZMW => "ZMW"@,
        Currency::ZWL => "ZWL"@,
    }
}

/// The currency of a three-letter code. Codes are told apart by case, and a
/// text that is no code is no currency.
pub open spec fn currency_of_code(code: Seq<char>) -> Option<Currency> {
    if code == "AED"@ {
        Some(Currency::AED)
    } else if code == "AFN"@ {
        Some(Currency::AFN)
    } else if code == "ALL"@ {
        Some(Currency::ALL)
    } else if code == "AMD"@ {
        Some(Currency::AMD)
    } else if code == "ANG"@ {
        Some(Currency::ANG)
    } else if code == "AOA"@ {
        Some(Currency::AOA)
    } else if code == "ARS"@ {
        Some(Currency::ARS)
    } else if code == "AUD"@ {
        Some(Currency::AUD)
    } else if code == "AWG"@ {
        Some(Currency::AWG)
    } else if code == "AZN"@ {
        Some(Currency::AZN)
    } else if code == "BAM"@ {
        Some(Currency::BAM)
    } else if code == "BBD"@ {
        Some(Currency::BBD)
    } else if code == "BDT"@ {
        Some(Currency::BDT)
    } else if code == "BGN"@ {
        Some(Currency::BGN)
    } else if code == "BHD"@ {
        Some(Currency::BHD)
    } else if code == "BIF"@ {
        Some(Currency::BIF)
    } else if code == "BMD"@ {
        Some(Currency::BMD)
    } else if code == "BND"@ {
        Some(Currency::BND)
    } else if code == "BOB"@ {
        Some(Currency::BOB)
    } else if code == "BRL"@ {
        Some(Currency::BRL)
    } else if code == "BSD"@ {
        Some(Currency::BSD)
    } else if code == "BTN"@ {
        Some(Currency::BTN)
    } else if code == "BWP"@ {
        Some(Currency::BWP)
    } else if code == "BYN"@ {
        Some(Currency::BYN)
    } else if code == "BZD"@ {
        Some(Currency::BZD)
    } else if code == "CAD"@ {
        Some(Currency::CAD)
    } else if code == "CDF"@ {
        Some(Currency::CDF)
    } else if code == "CHF"@ {
        Some(Currency::CHF)
    } else if code == "CLF"@ {
        Some(Currency::CLF)
    } else if code == "CLP"@ {
        Some(Currency::CLP)
    } else if code == "CNY"@ {
        Some(Currency::CNY)
    } else if code == "COP"@ {
        Some(Currency::COP)
    } else if code == "CRC"@ {
        Some(Currency::CRC)
    } else if code == "CUC"@ {
        Some(Currency::CUC)
    } else if code == "CUP"@ {
        Some(Currency::CUP)
    } else if code == "CVE"@ {
        Some(Currency::CVE)
    } else if code == "CZK"@ {
        Some(Currency::CZK)
    } else if code == "DJF"@ {
        Some(Currency::DJF)
    } else if code == "DKK"@ {
        Some(Currency::DKK)
    } else if code == "DOP"@ {
        Some(Currency::DOP)
    } else if code == "DZD"@ {
        Some(Currency::DZD)
    } else if code == "EGP"@ {
        Some(Currency::EGP)
    } else if code == "ERN"@ {
        Some(Currency::ERN)
    } else if code == "ETB"@ {
        Some(Currency::ETB)
    } else if code == "EUR"@ {
        Some(Currency::EUR)
    } else if code == "FJD"@ {
        Some(Currency::FJD)
    } else if code == "FKP"@ {
        Some(Currency::FKP)
    } else if code == "GBP"@ {
        Some(Currency::GBP)
    } else if code == "GEL"@ {
        Some(Currency::GEL)
    } else if code == "GHS"@ {
        Some(Currency::GHS)
    } else if code == "GIP"@ {
        Some(Currency::GIP)
    } else if code == "GMD"@ {
        Some(Currency::GMD)
    } else if code == "GNF"@ {
        Some(Currency::GNF)
    } else if code == "GTQ"@ {
        Some(Currency::GTQ)
    } else if code == "GYD"@ {
        Some(Currency::GYD)
    } else if code == "HKD"@ {
        Some(Currency::HKD)
    } else if code == "HNL"@ {
        Some(Currency::HNL)
    } else if code == "HRK"@ {
        Some(Currency::HRK)
    } else if code == "HTG"@ {
        Some(Currency::HTG)
    } else if code == "HUF"@ {
        Some(Currency::HUF)
    } else if code == "IDR"@ {
        Some(Currency::IDR)
    } else if code == "ILS"@ {
        Some(Currency::ILS)
    } else if code == "INR"@ {
        Some(Currency::INR)
    } else if code == "IQD"@ {
        Some(Currency::IQD)
    } else if code == "IRR"@ {
        Some(Currency::IRR)
    } else if code == "ISK"@ {
        Some(Currency::ISK)
    } else if code == "JMD"@ {
        Some(Currency::JMD)
    } else if code == "JOD"@ {
        Some(Currency::JOD)
    } else if code == "JPY"@ {
        Some(Currency::JPY)
    } else if code == "KES"@ {
        Some(Currency::KES)
    } else if code == "KGS"@ {
        Some(Currency::KGS)
    } else if code == "KHR"@ {
        Some(Currency::KHR)
    } else if code == "KMF"@ {
        Some(Currency::KMF)
    } else if code == "KPW"@ {
        Some(Currency::KPW)
    } else if code == "KRW"@ {
        Some(Currency::KRW)
    } else if code == "KWD"@ {
        Some(Currency::KWD)
    } else if code == "KYD"@ {
        Some(Currency::KYD)
    } else if code == "KZT"@ {
        Some(Currency::KZT)
    } else if code == "LAK"@ {
        Some(Currency::LAK)
    } else if code == "LBP"@ {
        Some(Currency::LBP)
    } else if code == "LKR"@ {
        Some(Currency::LKR)
    } else if code == "LRD"@ {
        Some(Currency::LRD)
    } else if code == "LSL"@ {
        Some(Currency::LSL)
    } else if code == "LYD"@ {
        Some(Currency::LYD)
    } else if code == "MAD"@ {
        Some(Currency::MAD)
    } else if code == "MDL"@ {
        Some(Currency::MDL)
    } else if code == "MGA"@ {
        Some(Currency::MGA)
    } else if code == "MKD"@ {
        Some(Currency::MKD)
    } else if code == "MMK"@ {
        Some(Currency::MMK)
    } else if code == "MNT"@ {
        Some(Currency::MNT)
    } else if code == "MOP"@ {
        Some(Currency::MOP)
    } else if code == "MRU"@ {
        Some(Currency::MRU)
    } else if code == "MUR"@ {
        Some(Currency::MUR)
    } else if code == "MVR"@ {
        Some(Currency::MVR)
    } else if code == "MWK"@ {
        Some(Currency::MWK)
    } else if code == "MXN"@ {
        Some(Currency::MXN)
    } else if code == "MYR"@ {
        Some(Currency::MYR)
    } else if code == "MZN"@ {
        Some(Currency::MZN)
    } else if code == "NAD"@ {
        Some(Currency::NAD)
    } else if code == "NGN"@ {
        Some(Currency::NGN)
    } else if code == "NIO"@ {
        Some(Currency::NIO)
    } else if code == "NOK"@ {
        Some(Currency::NOK)
    } else if code == "NPR"@ {
        Some(Currency::NPR)
    } else if code == "NZD"@ {
        Some(Currency::NZD)
    } else if code == "OMR"@ {
        Some(Currency::OMR)
    } else if code == "PAB"@ {
        Some(Currency::PAB)
    } else if code == "PEN"@ {
        Some(Currency::PEN)
    } else if code == "PGK"@ {
        Some(Currency::PGK)
    } else if code == "PHP"@ {
        Some(Currency::PHP)
    } else if code == "PKR"@ {
        Some(Currency::PKR)
    } else if code == "PLN"@ {
        Some(Currency::PLN)
    } else if code == "PYG"@ {
        Some(Currency::PYG)
    } else if code == "QAR"@ {
        Some(Currency::QAR)
    } else if code == "RON"@ {
        Some(Currency::RON)
    } else if code == "RSD"@ {
        Some(Currency::RSD)
    } else if code == "RUB"@ {
        Some(Currency::RUB)
    } else if code == "RWF"@ {
        Some(Currency::RWF)
    } else if code == "SAR"@ {
        Some(Currency::SAR)
    } else if code == "SBD"@ {
        Some(Currency::SBD)
    } else if code == "SCR"@ {
        Some(Currency::SCR)
    } else if code == "SDG"@ {
        Some(Currency::SDG)
    } else if code == "SEK"@ {
        Some(Currency::SEK)
    } else if code == "SGD"@ {
        Some(Currency::SGD)
    } else if code == "SHP"@ {
        Some(Currency::SHP)
    } else if code == "SLE"@ {
        Some(Currency::SLE)
    } else if code == "SLL"@ {
        Some(Currency::SLL)
    } else if code == "SOS"@ {
        Some(Currency::SOS)
    } else if code == "SRD"@ {
        Some(Currency::SRD)
    } else if code == "SSP"@ {
        Some(Currency::SSP)
    } else if code == "STD"@ {
        Some(Currency::STD)
    } else if code == "STN"@ {
        Some(Currency::STN)
    } else if code == "SVC"@ {
        Some(Currency::SVC)
    } else if code == "SYP"@ {
        Some(Currency::SYP)
    } else if code == "SZL"@ {
        Some(Currency::SZL)
    } else if code == "THB"@ {
        Some(Currency::THB)
    } else if code == "TJS"@ {
        Some(Currency::TJS)
    } else if code == "TMT"@ {
        Some(Currency::TMT)
    } else if code == "TND"@ {
        Some(Currency::TND)
    } else if code == "TOP"@ {
        Some(Currency::TOP)
    } else if code == "TRY"@ {
        Some(Currency::TRY)
    } else if code == "TTD"@ {
        Some(Currency::TTD)
    } else if code == "TWD"@ {
        Some(Currency::TWD)
    } else if code == "TZS"@ {
        Some(Currency::TZS)
    } else if code == "UAH"@ {
        Some(Currency::UAH)
    } else if code == "UGX"@ {
        Some(Currency::UGX)
    } else if code == "USD"@ {
        Some(Currency::USD)
    } else if code == "UYU"@ {
        Some(Currency::UYU)
    } else if code == "UZS"@ {
        Some(Currency::UZS)
    } else if code == "VES"@ {
        Some(Currency::VES)
    } else if code == "VND"@ {
        Some(Currency::VND)
    } else if code == "VUV"@ {
        Some(Currency::VUV)
    } else if code == "WST"@ {
        Some(Currency::WST)
    } else if code == "XAF"@ {
        Some(Currency::XAF)
    } else if code == "XCD"@ {
        Some(Currency::XCD)
    } else if code == "XOF"@ {
        Some(Currency::XOF)
    } else if code == "XPF"@ {
        Some(Currency::XPF)
    } else if code == "YER"@ {
        Some(Currency::YER)
    } else if code == "ZAR"@ {
        Some(Currency::ZAR)
    } else if code == "ZMW"@ {
        Some(Currency::ZMW)
    } else if code == "ZWL"@ {
        Some(Currency::ZWL)
    } else {
        None
    }
}

impl Currency {
    /// The currency's code.
    pub fn as_str(&self) -> (code: &'static str)
        ensures
            code@ == currency_code(*self),
    {
        match self {
            Currency::AED => "AED",
            Currency::AFN => "AFN",
            Currency::ALL => "ALL",
            Currency::AMD => "AMD",
            Currency::ANG => "ANG",
            Currency::AOA => "AOA",
            Currency::ARS => "ARS",
            Currency::AUD => "AUD",
            Currency::AWG => "AWG",
            Currency::AZN => "AZN",
            Currency::BAM => "BAM",
            Currency::BBD => "BBD",
            Currency::BDT => "BDT",
            Currency::BGN => "BGN",
            Currency::BHD => "BHD",
            Currency::BIF => "BIF",
            Currency::BMD => "BMD",
            Currency::BND => "BND",
            Currency::BOB => "BOB",
            Currency::BRL => "BRL",
            Currency::BSD => "BSD",
            Currency::BTN => "BTN",
            Currency::BWP => "BWP",
            Currency::BYN => "BYN",
            Currency::BZD => "BZD",
            Currency::CAD => "CAD",
            Currency::CDF => "CDF",
            Currency::CHF => "CHF",
            Currency::CLF => "CLF",
            Currency::CLP => "CLP",
            Currency::CNY => "CNY",
            Currency::COP => "COP",
            Currency::CRC => "CRC",
            Currency::CUC => "CUC",
            Currency::CUP => "CUP",
            Currency::CVE => "CVE",
            Currency::CZK => "CZK",
            Currency::DJF => "DJF",
            Currency::DKK => "DKK",
            Currency::DOP => "DOP",
            Currency::DZD => "DZD",
            Currency::EGP => "EGP",
            Currency::ERN => "ERN",
            Currency::ETB => "ETB",
            Currency::EUR => "EUR",
            Currency::FJD => "FJD",
            Currency::FKP => "FKP",
            Currency::GBP => "GBP",
            Currency::GEL => "GEL",
            Currency::GHS => "GHS",
            Currency::GIP => "GIP",
            Currency::GMD => "GMD",
            Currency::GNF => "GNF",
            Currency::GTQ => "GTQ",
            Currency::GYD => "GYD",
            Currency::HKD => "HKD",
            Currency::HNL => "HNL",
            Currency::HRK => "HRK",
            Currency::HTG => "HTG",
            Currency::HUF => "HUF",
            Currency::IDR => "IDR",
            Currency::ILS => "ILS",
            Currency::INR => "INR",
            Currency::IQD => "IQD",
            Currency::IRR => "IRR",
            Currency::ISK => "ISK",
            Currency::JMD => "JMD",
            Currency::JOD => "JOD",
            Currency::JPY => "JPY",
            Currency::KES => "KES",
            Currency::KGS => "KGS",
            Currency::KHR => "KHR",
            Currency::KMF => "KMF",
            Currency::KPW => "KPW",
            Currency::KRW => "KRW",
            Currency::KWD => "KWD",
            Currency::KYD => "KYD",
            Currency::KZT => "KZT",
            Currency::LAK => "LAK",
            Currency::LBP => "LBP",
            Currency::LKR => "LKR",
            Currency::LRD => "LRD",
            Currency::LSL => "LSL",
            Currency::LYD => "LYD",
            Currency::MAD => "MAD",
            Currency::MDL => "MDL",
            Currency::MGA => "MGA",
            Currency::MKD => "MKD",
            Currency::MMK => "MMK",
            Currency::MNT => "MNT",
            Currency::MOP => "MOP",
            Currency::MRU => "MRU",
            Currency::MUR => "MUR",
            Currency::MVR => "MVR",
            Currency::MWK => "MWK",
            Currency::MXN => "MXN",
            Currency::MYR => "MYR",
            Currency::MZN => "MZN",
            Currency::NAD => "NAD",
            Currency::NGN => "NGN",
            Currency::NIO => "NIO",
            Currency::NOK => "NOK",
            Currency::NPR => "NPR",
            Currency::NZD => "NZD",
            Currency::OMR => "OMR",
            Currency::PAB => "PAB",
            Currency::PEN => "PEN",
            Currency::PGK => "PGK",
            Currency::PHP => "PHP",
            Currency::PKR => "PKR",
            Currency::PLN => "PLN",
            Currency::PYG => "PYG",
            Currency::QAR => "QAR",
            Currency::RON => "RON",
            Currency::RSD => "RSD",
            Currency::RUB => "RUB",
            Currency::RWF => "RWF",
            Currency::SAR => "SAR",
            Currency::SBD => "SBD",
            Currency::SCR => "SCR",
            Currency::SDG => "SDG",
            Currency::SEK => "SEK",
            Currency::SGD => "SGD",
            Currency::SHP => "SHP",
            Currency::SLE => "SLE",
            Currency::SLL => "SLL",
            Currency::SOS => "SOS",
            Currency::SRD => "SRD",
            Currency::SSP => "SSP",
            Currency::STD => "STD",
            Currency::STN => "STN",
            Currency::SVC => "SVC",
            Currency::SYP => "SYP",
            Currency::SZL => "SZL",
            Currency::THB => "THB",
            Currency::TJS => "TJS",
            Currency::TMT => "TMT",
            Currency::TND => "TND",
            Currency::TOP => "TOP",
            Currency::TRY => "TRY",
            Currency::TTD => "TTD",
            Currency::TWD => "TWD",
            Currency::TZS => "TZS",
            Currency::UAH => "UAH",
            Currency::UGX => "UGX",
            Currency::USD => "USD",
            Currency::UYU => "UYU",
            Currency::UZS => "UZS",
            Currency::VES => "VES",
            Currency::VND => "VND",
            Currency::VUV => "VUV",
            Currency::WST => "WST",
            Currency::XAF => "XAF",
            Currency::XCD => "XCD",
            Currency::XOF => "XOF",
            Currency::XPF => "XPF",
            Currency::YER => "YER",
            Currency::ZAR => "ZAR",
            Currency::ZMW => "ZMW",
            Currency::ZWL => "ZWL",
        }
    }

    /// The currency that a code names, if it names one.
    pub fn from_code(code: &str) -> (res: Option<Self>)
        ensures
            res == currency_of_code(code@),
    {
        if text_equals(code, "AED") {
            Some(Currency::AED)
        } else if text_equals(code, "AFN") {
            Some(Currency::AFN)
        } else if text_equals(code, "ALL") {
            Some(Currency::ALL)
        } else if text_equals(code, "AMD") {
            Some(Currency::AMD)
        } else if text_equals(code, "ANG") {
            Some(Currency::ANG)
        } else if text_equals(code, "AOA") {
            Some(Currency::AOA)
        } else if text_equals(code, "ARS") {
            Some(Currency::ARS)
        } else if text_equals(code, "AUD") {
            Some(Currency::AUD)
        } else if text_equals(code, "AWG") {
            Some(Currency::AWG)
        } else if text_equals(code, "AZN") {
            Some(Currency::AZN)
        } else if text_equals(code, "BAM") {
            Some(Currency::BAM)
        } else if text_equals(code, "BBD") {
            Some(Currency::BBD)
        } else if text_equals(code, "BDT") {
            Some(Currency::BDT)
        } else if text_equals(code, "BGN") {
            Some(Currency::BGN)
        } else if text_equals(code, "BHD") {
            Some(Currency::BHD)
        } else if text_equals(code, "BIF") {
            Some(Currency::BIF)
        } else if text_equals(code, "BMD") {
            Some(Currency::BMD)
        } else if text_equals(code, "BND") {
            Some(Currency::BND)
        } else if text_equals(code, "BOB") {
            Some(Currency::BOB)
        } else if text_equals(code, "BRL") {
            Some(Currency::BRL)
        } else if text_equals(code, "BSD") {
            Some(Currency::BSD)
        } else if text_equals(code, "BTN") {
            Some(Currency::BTN)
        } else if text_equals(code, "BWP") {
            Some(Currency::BWP)
        } else if text_equals(code, "BYN") {
            Some(Currency::BYN)
        } else if text_equals(code, "BZD") {
            Some(Currency::BZD)
        } else if text_equals(code, "CAD") {
            Some(Currency::CAD)
        } else if text_equals(code, "CDF") {
            Some(Currency::CDF)
        } else if text_equals(code, "CHF") {
            Some(Currency::CHF)
        } else if text_equals(code, "CLF") {
            Some(Currency::CLF)
        } else if text_equals(code, "CLP") {
            Some(Currency::CLP)
        } else if text_equals(code, "CNY") {
            Some(Currency::CNY)
        } else if text_equals(code, "COP") {
            Some(Currency::COP)
        } else if text_equals(code, "CRC") {
            Some(Currency::CRC)
        } else if text_equals(code, "CUC") {
            Some(Currency::CUC)
        } else if text_equals(code, "CUP") {
            Some(Currency::CUP)
        } else if text_equals(code, "CVE") {
            Some(Currency::CVE)
        } else if text_equals(code, "CZK") {
            Some(Currency::CZK)
        } else if text_equals(code, "DJF") {
            Some(Currency::DJF)
        } else if text_equals(code, "DKK") {
            Some(Currency::DKK)
        } else if text_equals(code, "DOP") {
            Some(Currency::DOP)
        } else if text_equals(code, "DZD") {
            Some(Currency::DZD)
        } else if text_equals(code, "EGP") {
            Some(Currency::EGP)
        } else if text_equals(code, "ERN") {
            Some(Currency::ERN)
        } else if text_equals(code, "ETB") {
            Some(Currency::ETB)
        } else if text_equals(code, "EUR") {
            Some(Currency::EUR)
        } else if text_equals(code, "FJD") {
            Some(Currency::FJD)
        } else if text_equals(code, "FKP") {
            Some(Currency::FKP)
        } else if text_equals(code, "GBP") {
            Some(Currency::GBP)
        } else if text_equals(code, "GEL") {
            Some(Currency::GEL)
        } else if text_equals(code, "GHS") {
            Some(Currency::GHS)
        } else if text_equals(code, "GIP") {
            Some(Currency::GIP)
        } else if text_equals(code, "GMD") {
            Some(Currency::GMD)
        } else if text_equals(code, "GNF") {
            Some(Currency::GNF)
        } else if text_equals(code, "GTQ") {
            Some(Currency::GTQ)
        } else if text_equals(code, "GYD") {
            Some(Currency::GYD)
        } else if text_equals(code, "HKD") {
            Some(Currency::HKD)
        } else if text_equals(code, "HNL") {
            Some(Currency::HNL)
        } else if text_equals(code, "HRK") {
            Some(Currency::HRK)
        } else if text_equals(code, "HTG") {
            Some(Currency::HTG)
        } else if text_equals(code, "HUF") {
            Some(Currency::HUF)
        } else if text_equals(code, "IDR") {
            Some(Currency::IDR)
        } else if text_equals(code, "ILS") {
            Some(Currency::ILS)
        } else if text_equals(code, "INR") {
            Some(Currency::INR)
        } else if text_equals(code, "IQD") {
            Some(Currency::IQD)
        } else if text_equals(code, "IRR") {
            Some(Currency::IRR)
        } else if text_equals(code, "ISK") {
            Some(Currency::ISK)
        } else if text_equals(code, "JMD") {
            Some(Currency::JMD)
        } else if text_equals(code, "JOD") {
            Some(Currency::JOD)
        } else if text_equals(code, "JPY") {
            Some(Currency::JPY)
        } else if text_equals(code, "KES") {
            Some(Currency::KES)
        } else if text_equals(code, "KGS") {
            Some(Currency::KGS)
        } else if text_equals(code, "KHR") {
            Some(Currency::KHR)
        } else if text_equals(code, "KMF") {
            Some(Currency::KMF)
        } else if text_equals(code, "KPW") {
            Some(Currency::KPW)
        } else if text_equals(code, "KRW") {
            Some(Currency::KRW)
        } else if text_equals(code, "KWD") {
            Some(Currency::KWD)
        } else if text_equals(code, "KYD") {
            Some(Currency::KYD)
        } else if text_equals(code, "KZT") {
            Some(Currency::KZT)
        } else if text_equals(code, "LAK") {
            Some(Currency::LAK)
        } else if text_equals(code, "LBP") {
            Some(Currency::LBP)
        } else if text_equals(code, "LKR") {
            Some(Currency::LKR)
        } else if text_equals(code, "LRD") {
            Some(Currency::LRD)
        } else if text_equals(code, "LSL") {
            Some(Currency::LSL)
        } else if text_equals(code, "LYD") {
            Some(Currency::LYD)
        } else if text_equals(code, "MAD") {
            Some(Currency::MAD)
        } else if text_equals(code, "MDL") {
            Some(Currency::MDL)
        } else if text_equals(code, "MGA") {
            Some(Currency::MGA)
        } else if text_equals(code, "MKD") {
            Some(Currency::MKD)
        } else if text_equals(code, "MMK") {
            Some(Currency::MMK)
        } else if text_equals(code, "MNT") {
            Some(Currency::MNT)
        } else if text_equals(code, "MOP") {
            Some(Currency::MOP)
        } else if text_equals(code, "MRU") {
            Some(Currency::MRU)
        } else if text_equals(code, "MUR") {
            Some(Currency::MUR)
        } else if text_equals(code, "MVR") {
            Some(Currency::MVR)
        } else if text_equals(code, "MWK") {
            Some(Currency::MWK)
        } else if text_equals(code, "MXN") {
            Some(Currency::MXN)
        } else if text_equals(code, "MYR") {
            Some(Currency::MYR)
        } else if text_equals(code, "MZN") {
            Some(Currency::MZN)
        } else if text_equals(code, "NAD") {
            Some(Currency::NAD)
        } else if text_equals(code, "NGN") {
            Some(Currency::NGN)
        } else if text_equals(code, "NIO") {
            Some(Currency::NIO)
        } else if text_equals(code, "NOK") {
            Some(Currency::NOK)
        } else if text_equals(code, "NPR") {
            Some(Currency::NPR)
        } else if text_equals(code, "NZD") {
            Some(Currency::NZD)
        } else if text_equals(code, "OMR") {
            Some(Currency::OMR)
        } else if text_equals(code, "PAB") {
            Some(Currency::PAB)
        } else if text_equals(code, "PEN") {
            Some(Currency::PEN)
        } else if text_equals(code, "PGK") {
            Some(Currency::PGK)
        } else if text_equals(code, "PHP") {
            Some(Currency::PHP)
        } else if text_equals(code, "PKR") {
            Some(Currency::PKR)
        } else if text_equals(code, "PLN") {
            Some(Currency::PLN)
        } else if text_equals(code, "PYG") {
            Some(Currency::PYG)
        } else if text_equals(code, "QAR") {
            Some(Currency::QAR)
        } else if text_equals(code, "RON") {
            Some(Currency::RON)
        } else if text_equals(code, "RSD") {
            Some(Currency::RSD)
        } else if text_equals(code, "RUB") {
            Some(Currency::RUB)
        } else if text_equals(code, "RWF") {
            Some(Currency::RWF)
        } else if text_equals(code, "SAR") {
            Some(Currency::SAR)
        } else if text_equals(code, "SBD") {
            Some(Currency::SBD)
        } else if text_equals(code, "SCR") {
            Some(Currency::SCR)
        } else if text_equals(code, "SDG") {
            Some(Currency::SDG)
        } else if text_equals(code, "SEK") {
            Some(Currency::SEK)
        } else if text_equals(code, "SGD") {
            Some(Currency::SGD)
        } else if text_equals(code, "SHP") {
            Some(Currency::SHP)
        } else if text_equals(code, "SLE") {
            Some(Currency::SLE)
        } else if text_equals(code, "SLL") {
            Some(Currency::SLL)
        } else if text_equals(code, "SOS") {
            Some(Currency::SOS)
        } else if text_equals(code, "SRD") {
            Some(Currency::SRD)
        } else if text_equals(code, "SSP") {
            Some(Currency::SSP)
        } else if text_equals(code, "STD") {
            Some(Currency::STD)
        } else if text_equals(code, "STN") {
            Some(Currency::STN)
        } else if text_equals(code, "SVC") {
            Some(Currency::SVC)
        } else if text_equals(code, "SYP") {
            Some(Currency::SYP)
        } else if text_equals(code, "SZL") {
            Some(Currency::SZL)
        } else if text_equals(code, "THB") {
            Some(Currency::THB)
        } else if text_equals(code, "TJS") {
            Some(Currency::TJS)
        } else if text_equals(code, "TMT") {
            Some(Currency::TMT)
        } else if text_equals(code, "TND") {
            Some(Currency::TND)
        } else if text_equals(code, "TOP") {
            Some(Currency::TOP)
        } else if text_equals(code, "TRY") {
            Some(Currency::TRY)
        } else if text_equals(code, "TTD") {
            Some(Currency::TTD)
        } else if text_equals(code, "TWD") {
            Some(Currency::TWD)
        } else if text_equals(code, "TZS") {
            Some(Currency::TZS)
        } else if text_equals(code, "UAH") {
            Some(Currency::UAH)
        } else if text_equals(code, "UGX") {
            Some(Currency::UGX)
        } else if text_equals(code, "USD") {
            Some(Currency::USD)
        } else if text_equals(code, "UYU") {
            Some(Currency::UYU)
        } else if text_equals(code, "UZS") {
            Some(Currency::UZS)
        } else if text_equals(code, "VES") {
            Some(Currency::VES)
        } else if text_equals(code, "VND") {
            Some(Currency::VND)
        } else if text_equals(code, "VUV") {
            Some(Currency::VUV)
        } else if text_equals(code, "WST") {
            Some(Currency::WST)
        } else if text_equals(code, "XAF") {
            Some(Currency::XAF)
        } else if text_equals(code, "XCD") {
            Some(Currency::XCD)
        } else if text_equals(code, "XOF") {
            Some(Currency::XOF)
        } else if text_equals(code, "XPF") {
            Some(Currency::XPF)
        } else if text_equals(code, "YER") {
            Some(Currency::YER)
        } else if text_equals(code, "ZAR") {
            Some(Currency::ZAR)
        } else if text_equals(code, "ZMW") {
            Some(Currency::ZMW)
        } else if text_equals(code, "ZWL") {
            Some(Currency::ZWL)
        } else {
            None
        }
    }
}

/// Two currencies with the same code are the same currency.
pub proof fn lemma_currency_code_injective(a: Currency, b: Currency)
    requires
        currency_code(a) == currency_code(b),
    ensures
        a == b,
{
    reveal_strlit("AED");
    reveal_strlit("AFN");
    reveal_strlit("ALL");
    reveal_strlit("AMD");
    reveal_strlit("ANG");
    reveal_strlit("AOA");
    reveal_strlit("ARS");
    reveal_strlit("AUD");
    reveal_strlit("AWG");
    reveal_strlit("AZN");
    reveal_strlit("BAM");
    reveal_strlit("BBD");
    reveal_strlit("BDT");
    reveal_strlit("BGN");
    reveal_strlit("BHD");
    reveal_strlit("BIF");
    reveal_strlit("BMD");
    reveal_strlit("BND");
    reveal_strlit("BOB");
    reveal_strlit("BRL");
    reveal_strlit("BSD");
    reveal_strlit("BTN");
    reveal_strlit("BWP");
    reveal_strlit("BYN");
    reveal_strlit("BZD");
    reveal_strlit("CAD");
    reveal_strlit("CDF");
    reveal_strlit("CHF");
    reveal_strlit("CLF");
    reveal_strlit("CLP");
    reveal_strlit("CNY");
    reveal_strlit("COP");
    reveal_strlit("CRC");
    reveal_strlit("CUC");
    reveal_strlit("CUP");
    reveal_strlit("CVE");
    reveal_strlit("CZK");
    reveal_strlit("DJF");
    reveal_strlit("DKK");
    reveal_strlit("DOP");
    reveal_strlit("DZD");
    reveal_strlit("EGP");
    reveal_strlit("ERN");
    reveal_strlit("ETB");
    reveal_strlit("EUR");
    reveal_strlit("FJD");
    reveal_strlit("FKP");
    reveal_strlit("GBP");
    reveal_strlit("GEL");
    reveal_strlit("GHS");
    reveal_strlit("GIP");
    reveal_strlit("GMD");
    reveal_strlit("GNF");
    reveal_strlit("GTQ");
    reveal_strlit("GYD");
    reveal_strlit("HKD");
    reveal_strlit("HNL");
    reveal_strlit("HRK");
    reveal_strlit("HTG");
    reveal_strlit("HUF");
    reveal_strlit("IDR");
    reveal_strlit("ILS");
    reveal_strlit("INR");
    reveal_strlit("IQD");
    reveal_strlit("IRR");
    reveal_strlit("ISK");
    reveal_strlit("JMD");
    reveal_strlit("JOD");
    reveal_strlit("JPY");
    reveal_strlit("KES");
    reveal_strlit("KGS");
    reveal_strlit("KHR");
    reveal_strlit("KMF");
    reveal_strlit("KPW");
    reveal_strlit("KRW");
    reveal_strlit("KWD");
    reveal_strlit("KYD");
    reveal_strlit("KZT");
    reveal_strlit("LAK");
    reveal_strlit("LBP");
    reveal_strlit("LKR");
    reveal_strlit("LRD");
    reveal_strlit("LSL");
    reveal_strlit("LYD");
    reveal_strlit("MAD");
    reveal_strlit("MDL");
    reveal_strlit("MGA");
    reveal_strlit("MKD");
    reveal_strlit("MMK");
    reveal_strlit("MNT");
    reveal_strlit("MOP");
    reveal_strlit("MRU");
    reveal_strlit("MUR");
    reveal_strlit("MVR");
    reveal_strlit("MWK");
    reveal_strlit("MXN");
    reveal_strlit("MYR");
    reveal_strlit("MZN");
    reveal_strlit("NAD");
    reveal_strlit("NGN");
    reveal_strlit("NIO");
    reveal_strlit("NOK");
    reveal_strlit("NPR");
    reveal_strlit("NZD");
    reveal_strlit("OMR");
    reveal_strlit("PAB");
    reveal_strlit("PEN");
    reveal_strlit("PGK");
    reveal_strlit("PHP");
    reveal_strlit("PKR");
    reveal_strlit("PLN");
    reveal_strlit("PYG");
    reveal_strlit("QAR");
    reveal_strlit("RON");
    reveal_strlit("RSD");
    reveal_strlit("RUB");
    reveal_strlit("RWF");
    reveal_strlit("SAR");
    reveal_strlit("SBD");
    reveal_strlit("SCR");
    reveal_strlit("SDG");
    reveal_strlit("SEK");
    reveal_strlit("SGD");
    reveal_strlit("SHP");
    reveal_strlit("SLE");
    reveal_strlit("SLL");
    reveal_strlit("SOS");
    reveal_strlit("SRD");
    reveal_strlit("SSP");
    reveal_strlit("STD");
    reveal_strlit("STN");
    reveal_strlit("SVC");
    reveal_strlit("SYP");
    reveal_strlit("SZL");
    reveal_strlit("THB");
    reveal_strlit("TJS");
    reveal_strlit("TMT");
    reveal_strlit("TND");
    reveal_strlit("TOP");
    reveal_strlit("TRY");
    reveal_strlit("TTD");
    reveal_strlit("TWD");
    reveal_strlit("TZS");
    reveal_strlit("UAH");
    reveal_strlit("UGX");
    reveal_strlit("USD");
    reveal_strlit("UYU");
    reveal_strlit("UZS");
    reveal_strlit("VES");
    reveal_strlit("VND");
    reveal_strlit("VUV");
    reveal_strlit("WST");
    reveal_strlit("XAF");
    reveal_strlit("XCD");
    reveal_strlit("XOF");
    reveal_strlit("XPF");
    reveal_strlit("YER");
    reveal_strlit("ZAR");
    reveal_strlit("ZMW");
    reveal_strlit("ZWL");
    let x = currency_code(a);
    let y = currency_code(b);
    assert(x[0] == y[0] && x[1] == y[1] && x[2] == y[2]);
}

/// A currency is read back from its own code.
pub proof fn lemma_currency_code_round_trip(currency: Currency)
    ensures
        currency_of_code(currency_code(currency)) == Some(currency),
{
    let code = currency_code(currency);
    match currency_of_code(code) {
        Some(found) => {
            assert(currency_code(found) == code);
            lemma_currency_code_injective(found, currency);
        },
        None => {
            assert(false);
        },
    }
}

} // verus!
