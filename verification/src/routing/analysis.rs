//! The connector selection as an output of rules: the keys that rules over
//! connectors may test, and the values that a selection is analysed as.

use vstd::prelude::*;
use vstd::std_specs::convert::FromSpecImpl;

use crate::enums::connector_name;
use crate::euclid::analysis::{AnalysisMetadata, EuclidAnalysable, EuclidDirFilter};
use crate::euclid::dir::{ConnectorChoice, DirKeyKind, DirValue};
use crate::ids::clone_mca;
use crate::routing::connector_choice::{
    selection_connectors, ConnectorSelection, RoutableConnectorChoice,
};

verus! {

/// Whether a rule that selects connectors may test the key: the payment
/// method and its types, the card's bin, type and network, the amount and
/// currency, authentication, mandate, capture and payment type, the
/// countries, the business label and the metadata. The connector itself is
/// not among them.
pub open spec fn selection_allows(key: DirKeyKind) -> bool {
    match key {
        DirKeyKind::PaymentMethod
        | DirKeyKind::CardBin
        | DirKeyKind::CardType
        | DirKeyKind::CardNetwork
        | DirKeyKind::PayLaterType
        | DirKeyKind::WalletType
        | DirKeyKind::UpiType
        | DirKeyKind::BankRedirectType
        | DirKeyKind::BankDebitType
        | DirKeyKind::CryptoType
        | DirKeyKind::MetaData
        | DirKeyKind::PaymentAmount
        | DirKeyKind::PaymentCurrency
        | DirKeyKind::AuthenticationType
        | DirKeyKind::MandateAcceptanceType
        | DirKeyKind::MandateType
        | DirKeyKind::PaymentType
        | DirKeyKind::SetupFutureUsage
        | DirKeyKind::CaptureMethod
        | DirKeyKind::BillingCountry
        | DirKeyKind::BusinessCountry
        | DirKeyKind::BusinessLabel
        | DirKeyKind::RewardType
        | DirKeyKind::VoucherType
        | DirKeyKind::CardRedirectType
        | DirKeyKind::BankTransferType
        | DirKeyKind::RealTimePaymentType => true,
        _ => false,
    }
}

/// The keys that a rule that selects connectors may test, as they are
/// listed.
pub open spec fn selection_allowed_keys() -> Seq<DirKeyKind> {
    seq![
        DirKeyKind::PaymentMethod,
        DirKeyKind::CardBin,
        DirKeyKind::CardType,
        DirKeyKind::CardNetwork,
        DirKeyKind::PayLaterType,
        DirKeyKind::WalletType,
        DirKeyKind::UpiType,
        DirKeyKind::BankRedirectType,
        DirKeyKind::BankDebitType,
        DirKeyKind::CryptoType,
        DirKeyKind::MetaData,
        DirKeyKind::PaymentAmount,
        DirKeyKind::PaymentCurrency,
        DirKeyKind::AuthenticationType,
        DirKeyKind::MandateAcceptanceType,
        DirKeyKind::MandateType,
        DirKeyKind::PaymentType,
        DirKeyKind::SetupFutureUsage,
        DirKeyKind::CaptureMethod,
        DirKeyKind::BillingCountry,
        DirKeyKind::BusinessCountry,
        DirKeyKind::BusinessLabel,
        DirKeyKind::MetaData,
        DirKeyKind::RewardType,
        DirKeyKind::VoucherType,
        DirKeyKind::CardRedirectType,
        DirKeyKind::BankTransferType,
        DirKeyKind::RealTimePaymentType,
    ]
}

/// The connector of a choice, as a rule names it.
pub open spec fn rule_connector(choice: RoutableConnectorChoice) -> ConnectorChoice {
    ConnectorChoice { connector: choice.connector }
}

/// The value that a choice is analysed as.
pub open spec fn analysed_choice(choice: RoutableConnectorChoice) -> DirValue {
    DirValue::Connector(Box::new(rule_connector(choice)))
}

impl From<RoutableConnectorChoice> for ConnectorChoice {
    fn from(value: RoutableConnectorChoice) -> (res: Self) {
        ConnectorChoice { connector: value.connector }
    }
}

impl FromSpecImpl<RoutableConnectorChoice> for ConnectorChoice {
    open spec fn obeys_from_spec() -> bool {
        true
    }

    open spec fn from_spec(value: RoutableConnectorChoice) -> Self {
        rule_connector(value)
    }
}

impl EuclidDirFilter for ConnectorSelection {
    open spec fn allows(key: DirKeyKind) -> bool {
        selection_allows(key)
    }

    fn get_allowed_keys() -> (keys: Vec<DirKeyKind>)
        ensures
            keys@ == selection_allowed_keys(),
    {
        let mut keys: Vec<DirKeyKind> = Vec::new();
        keys.push(DirKeyKind::PaymentMethod);
        keys.push(DirKeyKind::CardBin);
        keys.push(DirKeyKind::CardType);
        keys.push(DirKeyKind::CardNetwork);
        keys.push(DirKeyKind::PayLaterType);
        keys.push(DirKeyKind::WalletType);
        keys.push(DirKeyKind::UpiType);
        keys.push(DirKeyKind::BankRedirectType);
        keys.push(DirKeyKind::BankDebitType);
        keys.push(DirKeyKind::CryptoType);
        keys.push(DirKeyKind::MetaData);
        keys.push(DirKeyKind::PaymentAmount);
        keys.push(DirKeyKind::PaymentCurrency);
        keys.push(DirKeyKind::AuthenticationType);
        keys.push(DirKeyKind::MandateAcceptanceType);
        keys.push(DirKeyKind::MandateType);
        keys.push(DirKeyKind::PaymentType);
        keys.push(DirKeyKind::SetupFutureUsage);
        keys.push(DirKeyKind::CaptureMethod);
        keys.push(DirKeyKind::BillingCountry);
        keys.push(DirKeyKind::BusinessCountry);
        keys.push(DirKeyKind::BusinessLabel);
        keys.push(DirKeyKind::MetaData);
        keys.push(DirKeyKind::RewardType);
        keys.push(DirKeyKind::VoucherType);
        keys.push(DirKeyKind::CardRedirectType);
        keys.push(DirKeyKind::BankTransferType);
        keys.push(DirKeyKind::RealTimePaymentType);
        proof {
            let s = keys@;
            assert(s =~= selection_allowed_keys());
            assert(s.len() == 28);
            assert forall|key: DirKeyKind| selection_allows(key) implies s.contains(key) by {
                assert(s[0] == DirKeyKind::PaymentMethod && s[1] == DirKeyKind::CardBin && s[2]
                    == DirKeyKind::CardType && s[3] == DirKeyKind::CardNetwork && s[4]
                    == DirKeyKind::PayLaterType && s[5] == DirKeyKind::WalletType && s[6]
                    == DirKeyKind::UpiType);
                assert(s[7] == DirKeyKind::BankRedirectType && s[8] == DirKeyKind::BankDebitType
                    && s[9] == DirKeyKind::CryptoType && s[10] == DirKeyKind::MetaData && s[11]
                    == DirKeyKind::PaymentAmount && s[12] == DirKeyKind::PaymentCurrency && s[13]
                    == DirKeyKind::AuthenticationType);
                assert(s[14] == DirKeyKind::MandateAcceptanceType && s[15]
                    == DirKeyKind::MandateType && s[16] == DirKeyKind::PaymentType && s[17]
                    == DirKeyKind::SetupFutureUsage && s[18] == DirKeyKind::CaptureMethod && s[19]
                    == DirKeyKind::BillingCountry && s[20] == DirKeyKind::BusinessCountry);
                assert(s[21] == DirKeyKind::BusinessLabel && s[23] == DirKeyKind::RewardType
                    && s[24] == DirKeyKind::VoucherType && s[25] == DirKeyKind::CardRedirectType
                    && s[26] == DirKeyKind::BankTransferType && s[27]
                    == DirKeyKind::RealTimePaymentType);
            }
            assert forall|key: DirKeyKind| s.contains(key) implies selection_allows(key) by {
                let i = choose|i: int| 0 <= i < s.len() && s[i] == key;
                assert(selection_allows(s[i]));
            }
        }
        keys
    }

    fn is_key_allowed(key: &DirKeyKind) -> (res: bool) {
        match key {
            DirKeyKind::PaymentMethod
            | DirKeyKind::CardBin
            | DirKeyKind::CardType
            | DirKeyKind::CardNetwork
            | DirKeyKind::PayLaterType
            | DirKeyKind::WalletType
            | DirKeyKind::UpiType
            | DirKeyKind::BankRedirectType
            | DirKeyKind::BankDebitType
            | DirKeyKind::CryptoType
            | DirKeyKind::MetaData
            | DirKeyKind::PaymentAmount
            | DirKeyKind::PaymentCurrency
            | DirKeyKind::AuthenticationType
            | DirKeyKind::MandateAcceptanceType
            | DirKeyKind::MandateType
            | DirKeyKind::PaymentType
            | DirKeyKind::SetupFutureUsage
            | DirKeyKind::CaptureMethod
            | DirKeyKind::BillingCountry
            | DirKeyKind::BusinessCountry
            | DirKeyKind::BusinessLabel
            | DirKeyKind::RewardType
            | DirKeyKind::VoucherType
            | DirKeyKind::CardRedirectType
            | DirKeyKind::BankTransferType
            | DirKeyKind::RealTimePaymentType => true,
            _ => false,
        }
    }
}

impl EuclidAnalysable for ConnectorSelection {
    open spec fn analysed(&self) -> Seq<DirValue> {
        Seq::new(
            selection_connectors(*self).len(),
            |i: int| analysed_choice(selection_connectors(*self)[i]),
        )
    }

    /// Each connector of the selection as a value, with the rule's name, the
    /// connector's name and the account id recorded beside it.
    fn get_dir_value_for_analysis(&self, rule_name: String) -> (res: Vec<
        (DirValue, AnalysisMetadata),
    >)
        ensures
            forall|i: int|
                0 <= i < res@.len() ==> (#[trigger] res@[i]).1.connector_name@ == connector_name(
                    selection_connectors(*self)[i].connector,
                ) && res@[i].1.mca_id == selection_connectors(*self)[i].merchant_connector_id,
    {
        let list = self.get_connector_list();
        let mut out: Vec<(DirValue, AnalysisMetadata)> = Vec::new();
        let mut i: usize = 0;
        while i < list.len()
            invariant
                list@ == selection_connectors(*self),
                i <= list.len(),
                out@.len() == i,
                forall|k: int|
                    0 <= k < i ==> {
                        &&& (#[trigger] out@[k]).0 == analysed_choice(list@[k])
                        &&& out@[k].1.rule_name@ == rule_name@
                        &&& out@[k].1.connector_name@ == connector_name(list@[k].connector)
                        &&& out@[k].1.mca_id == list@[k].merchant_connector_id
                    },
            decreases list.len() - i,
        {
            let connector_choice = &list[i];
            let metadata = AnalysisMetadata {
                rule_name: rule_name.clone(),
                connector_name: connector_choice.connector.to_string(),
                mca_id: clone_mca(&connector_choice.merchant_connector_id),
            };
            let value = DirValue::Connector(
                Box::new(ConnectorChoice { connector: connector_choice.connector }),
            );
            out.push((value, metadata));
            i += 1;
        }
        out
    }
}

} // verus!
