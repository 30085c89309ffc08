use payment_routing::enums::RoutableConnectors;
use payment_routing::euclid::analysis::{EuclidAnalysable, EuclidDirFilter};
use payment_routing::euclid::dir::{
    AnalysisErrorType, BankDebitType, BankRedirectType, BankTransferType, CardType,
    ConnectorChoice, DirKeyKind, DirValue, GiftCardType, PaymentMethod, PaymentMethodType,
    WalletType,
};
use payment_routing::euclid::transformers::IntoDirValue;
use payment_routing::ids::MerchantConnectorAccountId;
use payment_routing::routing::connector_choice::{
    ConnectorSelection, ConnectorVolumeSplit, RoutableChoiceKind, RoutableConnectorChoice,
};

fn choice(connector: RoutableConnectors, account: Option<&str>) -> RoutableConnectorChoice {
    RoutableConnectorChoice {
        choice_kind: RoutableChoiceKind::FullStruct,
        connector,
        merchant_connector_id: account.map(|a| MerchantConnectorAccountId::new(a.to_string())),
    }
}

#[test]
fn payment_method_types_map_to_their_family() {
    assert_eq!(
        (PaymentMethodType::Credit, PaymentMethod::Card).into_dir_value(),
        Ok(DirValue::CardType(CardType::Credit))
    );
    assert_eq!(
        (PaymentMethodType::Debit, PaymentMethod::Card).into_dir_value(),
        Ok(DirValue::CardType(CardType::Debit))
    );
    assert_eq!(
        (PaymentMethodType::Paypal, PaymentMethod::Wallet).into_dir_value(),
        Ok(DirValue::WalletType(WalletType::Paypal))
    );
    assert_eq!(
        (PaymentMethodType::Ideal, PaymentMethod::BankRedirect).into_dir_value(),
        Ok(DirValue::BankRedirectType(BankRedirectType::Ideal))
    );
    assert_eq!(
        (PaymentMethodType::Sepa, PaymentMethod::BankDebit).into_dir_value(),
        Ok(DirValue::BankDebitType(BankDebitType::Sepa))
    );
    assert_eq!(
        (PaymentMethodType::Pix, PaymentMethod::BankTransfer).into_dir_value(),
        Ok(DirValue::BankTransferType(BankTransferType::Pix))
    );
    assert_eq!(
        (PaymentMethodType::Givex, PaymentMethod::GiftCard).into_dir_value(),
        Ok(DirValue::GiftCardType(GiftCardType::Givex))
    );
}

#[test]
fn payment_method_is_ignored_outside_ach_and_bacs() {
    assert_eq!(
        (PaymentMethodType::Paypal, PaymentMethod::Card).into_dir_value(),
        Ok(DirValue::WalletType(WalletType::Paypal))
    );
    assert_eq!(
        (PaymentMethodType::Sepa, PaymentMethod::Wallet).into_dir_value(),
        Ok(DirValue::BankDebitType(BankDebitType::Sepa))
    );
}

#[test]
fn ach_and_bacs_follow_the_payment_method() {
    assert_eq!(
        (PaymentMethodType::Ach, PaymentMethod::BankDebit).into_dir_value(),
        Ok(DirValue::BankDebitType(BankDebitType::Ach))
    );
    assert_eq!(
        (PaymentMethodType::Ach, PaymentMethod::BankTransfer).into_dir_value(),
        Ok(DirValue::BankTransferType(BankTransferType::Ach))
    );
    assert_eq!(
        (PaymentMethodType::Bacs, PaymentMethod::BankDebit).into_dir_value(),
        Ok(DirValue::BankDebitType(BankDebitType::Bacs))
    );
    assert_eq!(
        (PaymentMethodType::Bacs, PaymentMethod::BankTransfer).into_dir_value(),
        Ok(DirValue::BankTransferType(BankTransferType::Bacs))
    );
    for method in [
        PaymentMethod::Card,
        PaymentMethod::Wallet,
        PaymentMethod::PayLater,
        PaymentMethod::GiftCard,
        PaymentMethod::Upi,
    ] {
        assert_eq!(
            (PaymentMethodType::Ach, method).into_dir_value(),
            Err(AnalysisErrorType::NotSupported)
        );
        assert_eq!(
            (PaymentMethodType::Bacs, method).into_dir_value(),
            Err(AnalysisErrorType::NotSupported)
        );
    }
}

#[test]
fn values_know_their_key() {
    assert_eq!(
        DirValue::CardType(CardType::Credit).get_key(),
        DirKeyKind::CardType
    );
    assert_eq!(
        DirValue::Connector(Box::new(ConnectorChoice {
            connector: RoutableConnectors::Stripe
        }))
        .get_key(),
        DirKeyKind::Connector
    );
}

#[test]
fn connector_rules_may_test_payment_keys_only() {
    for key in [
        DirKeyKind::PaymentMethod,
        DirKeyKind::CardBin,
        DirKeyKind::PaymentAmount,
        DirKeyKind::PaymentCurrency,
        DirKeyKind::MetaData,
        DirKeyKind::BusinessLabel,
        DirKeyKind::RealTimePaymentType,
    ] {
        assert!(ConnectorSelection::is_key_allowed(&key));
    }
    for key in [
        DirKeyKind::Connector,
        DirKeyKind::GiftCardType,
        DirKeyKind::OpenBankingType,
        DirKeyKind::MobilePaymentType,
    ] {
        assert!(!ConnectorSelection::is_key_allowed(&key));
    }
    let keys = ConnectorSelection::get_allowed_keys();
    assert_eq!(keys.len(), 28);
    assert_eq!(keys[0], DirKeyKind::PaymentMethod);
    assert_eq!(keys[27], DirKeyKind::RealTimePaymentType);
    assert!(keys.iter().all(ConnectorSelection::is_key_allowed));
    assert!(!keys.contains(&DirKeyKind::Connector));
}

#[test]
fn selection_is_analysed_connector_by_connector() {
    let selection = ConnectorSelection::VolumeSplit(vec![
        ConnectorVolumeSplit {
            connector: choice(RoutableConnectors::Stripe, Some("mca_1")),
            split: 60,
        },
        ConnectorVolumeSplit {
            connector: choice(RoutableConnectors::Adyen, None),
            split: 40,
        },
    ]);
    let analysed = selection.get_dir_value_for_analysis("rule_a".to_string());
    assert_eq!(analysed.len(), 2);
    assert_eq!(
        analysed[0].0,
        DirValue::Connector(Box::new(ConnectorChoice {
            connector: RoutableConnectors::Stripe
        }))
    );
    assert_eq!(analysed[0].1.rule_name, "rule_a");
    assert_eq!(analysed[0].1.connector_name, "stripe");
    assert_eq!(
        analysed[0].1.mca_id.as_ref().unwrap().get_string_repr(),
        "mca_1"
    );
    assert_eq!(analysed[1].1.connector_name, "adyen");
    assert_eq!(analysed[1].1.rule_name, "rule_a");
    assert!(analysed[1].1.mca_id.is_none());
    assert_eq!(
        ConnectorChoice::from(choice(RoutableConnectors::Zen, Some("x"))),
        ConnectorChoice {
            connector: RoutableConnectors::Zen
        }
    );
}
