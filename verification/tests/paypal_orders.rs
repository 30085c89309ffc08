use payment_routing::connectors::payment::{
    get_optional_full_name, Address, AddressDetails, AuthenticationType, BankDebitData,
    BankRedirectData, BankTransferData, CaptureMethod, Card, CardRedirectData, FutureUsage,
    GiftCardData, PayLaterData, PaymentMethodData, PaymentRequestData, VoucherData, WalletData,
};
use payment_routing::connectors::paypal::auth::PaypalAuthType;
use payment_routing::connectors::paypal::orders::{
    get_address_info, get_payee, get_payment_source, CardRequest, ItemDetails, OperationValue,
    OrderFlow, OrderRequestAmount, PaymentSourceItem, PaypalPaymentsRequest,
    PaypalRedirectionRequest, PaypalUpdateOrderRequest, PaypalZeroMandateRequest,
    ShippingAddress, ZeroMandateSourceItem,
};
use payment_routing::connectors::paypal::requests::{
    PaypalAuthUpdateRequest, PaypalFulfillRequest, PaypalIncrementalAuthRequest,
    PaypalPaymentsCaptureRequest, PaypalPayoutDataType, PaypalPayoutItem, PaypalRefundRequest,
    PayoutMethodData, PayoutRequestData, WalletPayout,
};
use payment_routing::connectors::paypal::types::{
    PayoutRecipientType, PayoutWalletType, PaypalOperationType, PaypalPaymentIntent,
    PaypalRouterData, ShippingPreference, StoreInVault, ThreeDsType, UsageType, UserAction,
};
use payment_routing::connectors::types::{ConnectorAuthType, ConnectorError};
use payment_routing::currency::Currency;
use payment_routing::euclid::dir::PaymentMethodType;
use payment_routing::secret::Secret;

fn secret(text: &str) -> Secret {
    Secret::new(text.to_string())
}

fn address(first: Option<&str>, last: Option<&str>, country: Option<&str>) -> Address {
    Address {
        address: Some(AddressDetails {
            city: Some("Berlin".to_string()),
            country: country.map(|c| c.to_string()),
            line1: Some(secret("Main street 1")),
            zip: Some(secret("10115")),
            first_name: first.map(secret),
            last_name: last.map(secret),
        }),
    }
}

fn card() -> Card {
    Card {
        card_number: secret("4111111111111111"),
        card_exp_month: secret("03"),
        card_exp_year: secret("30"),
        card_cvc: secret("737"),
    }
}

fn payment(method: PaymentMethodData) -> PaymentRequestData {
    PaymentRequestData {
        connector_auth_type: ConnectorAuthType::SignatureKey {
            api_key: secret("client_secret"),
            key1: secret("client_id"),
            api_secret: secret("payer_1"),
        },
        connector_request_reference_id: "ref_1".to_string(),
        currency: Currency::EUR,
        capture_method: None,
        auth_type: AuthenticationType::ThreeDs,
        setup_future_usage: Some(FutureUsage::OffSession),
        merchant_order_reference_id: Some("order_9".to_string()),
        complete_authorize_url: Some("https://shop.example/complete".to_string()),
        router_return_url: Some("https://shop.example/return".to_string()),
        payment_method_data: method,
        shipping: Some(address(Some("Ada"), Some("Lovelace"), Some("DE"))),
        billing: Some(address(Some("Ada"), Some("Lovelace"), Some("GB"))),
        recurring_mandate_payment_method_type: None,
        connector_mandate_id: None,
    }
}

fn routed<'a>(data: &'a PaymentRequestData) -> PaypalRouterData<&'a PaymentRequestData> {
    PaypalRouterData::new(
        "12.50".to_string(),
        Some("2.50".to_string()),
        Some("1.00".to_string()),
        Some("9.00".to_string()),
        data,
    )
}

fn failure(result: Result<PaypalPaymentsRequest, ConnectorError>) -> ConnectorError {
    match result {
        Ok(_) => panic!("a request was built"),
        Err(error) => error,
    }
}

#[test]
fn card_order_carries_the_card_and_asks_for_sca() {
    let data = payment(PaymentMethodData::Card(card()));
    let request = PaypalPaymentsRequest::for_authorize(&routed(&data)).ok().unwrap();
    assert_eq!(request.intent, PaypalPaymentIntent::Capture);
    assert_eq!(request.purchase_units.len(), 1);
    let unit = &request.purchase_units[0];
    assert_eq!(unit.reference_id.as_deref(), Some("ref_1"));
    assert_eq!(unit.invoice_id.as_deref(), Some("ref_1"));
    assert_eq!(unit.custom_id.as_deref(), Some("order_9"));
    assert_eq!(unit.amount.value, "12.50");
    assert_eq!(unit.amount.currency_code, Currency::EUR);
    assert_eq!(unit.amount.breakdown.item_total.value, "12.50");
    assert!(unit.amount.breakdown.tax_total.is_none());
    assert_eq!(unit.amount.breakdown.shipping.as_ref().unwrap().value, "2.50");
    assert_eq!(unit.payee.as_ref().unwrap().merchant_id.peek(), "payer_1");
    let shipping = unit.shipping.as_ref().unwrap();
    assert_eq!(shipping.address.as_ref().unwrap().country_code, "DE");
    assert_eq!(
        shipping.name.as_ref().unwrap().full_name.as_ref().unwrap().peek(),
        "Ada"
    );
    assert_eq!(unit.items.len(), 1);
    assert_eq!(unit.items[0].name, "Payment for invoice ref_1");
    assert_eq!(unit.items[0].quantity, 1);
    assert_eq!(unit.items[0].unit_amount.value, "12.50");
    assert!(unit.items[0].tax.is_none());
    match request.payment_source {
        Some(PaymentSourceItem::Card(CardRequest::CardRequestStruct(source))) => {
            assert_eq!(source.expiry.unwrap().peek(), "2030-03");
            assert_eq!(source.name.unwrap().peek(), "Ada Lovelace");
            assert_eq!(source.number.unwrap().peek(), "4111111111111111");
            assert_eq!(source.security_code.unwrap().peek(), "737");
            assert_eq!(source.billing_address.unwrap().country_code, "GB");
            let attributes = source.attributes.unwrap();
            assert_eq!(attributes.verification.unwrap().method, ThreeDsType::ScaAlways);
            let vault = attributes.vault.unwrap();
            assert_eq!(vault.store_in_vault, StoreInVault::OnSuccess);
            assert_eq!(vault.usage_type, UsageType::Merchant);
        }
        _ => panic!("a card order is paid with the card"),
    }
}

#[test]
fn manual_capture_makes_an_order_to_authorize() {
    let mut data = payment(PaymentMethodData::Card(card()));
    data.capture_method = Some(CaptureMethod::Manual);
    data.auth_type = AuthenticationType::NoThreeDs;
    data.setup_future_usage = Some(FutureUsage::OnSession);
    let request = PaypalPaymentsRequest::for_authorize(&routed(&data)).ok().unwrap();
    assert_eq!(request.intent, PaypalPaymentIntent::Authorize);
    match request.payment_source {
        Some(PaymentSourceItem::Card(CardRequest::CardRequestStruct(source))) => {
            let attributes = source.attributes.unwrap();
            assert!(attributes.verification.is_none());
            assert!(attributes.vault.is_none());
        }
        _ => panic!("a card order is paid with the card"),
    }
    for method in [CaptureMethod::Automatic, CaptureMethod::SequentialAutomatic] {
        data.capture_method = Some(method);
        let request = PaypalPaymentsRequest::for_authorize(&routed(&data)).ok().unwrap();
        assert_eq!(request.intent, PaypalPaymentIntent::Capture);
    }
}

#[test]
fn unsupported_capture_methods_are_rejected() {
    for method in [CaptureMethod::ManualMultiple, CaptureMethod::Scheduled] {
        let mut data = payment(PaymentMethodData::Card(card()));
        data.capture_method = Some(method);
        assert_eq!(
            failure(PaypalPaymentsRequest::for_authorize(&routed(&data))),
            ConnectorError::CaptureMethodNotSupported
        );
        assert_eq!(
            data.is_auto_capture(),
            Err(ConnectorError::CaptureMethodNotSupported)
        );
    }
}

#[test]
fn credentials_are_read_before_anything_else() {
    let mut data = payment(PaymentMethodData::Reward);
    data.connector_auth_type = ConnectorAuthType::NoKey;
    data.capture_method = Some(CaptureMethod::Scheduled);
    assert_eq!(
        failure(PaypalPaymentsRequest::for_authorize(&routed(&data))),
        ConnectorError::FailedToObtainAuthType
    );
}

#[test]
fn paypal_wallet_orders_redirect_the_payer() {
    let data = payment(PaymentMethodData::Wallet(WalletData::PaypalRedirect));
    let request = PaypalPaymentsRequest::for_authorize(&routed(&data)).ok().unwrap();
    match request.payment_source {
        Some(PaymentSourceItem::Paypal(PaypalRedirectionRequest::PaypalRedirectionStruct(
            redirect,
        ))) => {
            let context = redirect.experience_context;
            assert_eq!(
                context.return_url.as_deref(),
                Some("https://shop.example/complete")
            );
            assert_eq!(
                context.cancel_url.as_deref(),
                Some("https://shop.example/complete")
            );
            assert_eq!(context.user_action, Some(UserAction::PayNow));
            assert_eq!(
                context.shipping_preference,
                ShippingPreference::SetProvidedAddress
            );
            assert_eq!(
                redirect.attributes.unwrap().vault.store_in_vault,
                StoreInVault::OnSuccess
            );
        }
        _ => panic!("a wallet order is paid with the wallet"),
    }
    let mut sdk = payment(PaymentMethodData::Wallet(WalletData::PaypalSdk));
    sdk.setup_future_usage = None;
    let request = PaypalPaymentsRequest::for_authorize(&routed(&sdk)).ok().unwrap();
    match request.payment_source {
        Some(PaymentSourceItem::Paypal(PaypalRedirectionRequest::PaypalRedirectionStruct(
            redirect,
        ))) => {
            assert!(redirect.experience_context.return_url.is_none());
            assert!(redirect.experience_context.cancel_url.is_none());
            assert_eq!(
                redirect.experience_context.shipping_preference,
                ShippingPreference::GetFromFile
            );
            assert!(redirect.attributes.is_none());
        }
        _ => panic!("a wallet order is paid with the wallet"),
    }
}

#[test]
fn other_wallets_and_methods_are_not_implemented() {
    let not_implemented = ConnectorError::NotImplemented("Selected payment method through Paypal");
    let methods = vec![
        PaymentMethodData::Wallet(WalletData::ApplePay),
        PaymentMethodData::Wallet(WalletData::GooglePay),
        PaymentMethodData::CardRedirect(CardRedirectData::Knet),
        PaymentMethodData::PayLater(PayLaterData::KlarnaRedirect),
        PaymentMethodData::BankDebit(BankDebitData::SepaBankDebit),
        PaymentMethodData::BankTransfer(BankTransferData::Pix),
        PaymentMethodData::Voucher(VoucherData::Boleto),
        PaymentMethodData::GiftCard(GiftCardData::Givex),
        PaymentMethodData::BankRedirect(BankRedirectData::Blik),
        PaymentMethodData::BankRedirect(BankRedirectData::Trustly),
        PaymentMethodData::Reward,
        PaymentMethodData::Crypto,
        PaymentMethodData::Upi,
        PaymentMethodData::NetworkToken,
    ];
    for method in methods {
        let data = payment(method);
        assert_eq!(
            failure(PaypalPaymentsRequest::for_authorize(&routed(&data))),
            not_implemented
        );
    }
    assert_eq!(
        failure(PaypalPaymentsRequest::try_from(&VoucherData::Oxxo)),
        not_implemented
    );
    assert_eq!(
        failure(PaypalPaymentsRequest::try_from(&GiftCardData::PaySafeCard)),
        not_implemented
    );
}

#[test]
fn bank_redirects_need_automatic_capture_name_and_country() {
    let data = payment(PaymentMethodData::BankRedirect(BankRedirectData::Ideal));
    let request = PaypalPaymentsRequest::for_authorize(&routed(&data)).ok().unwrap();
    assert_eq!(request.intent, PaypalPaymentIntent::Capture);
    match request.payment_source {
        Some(PaymentSourceItem::IDeal(redirect)) => {
            assert_eq!(redirect.name.peek(), "Ada Lovelace");
            assert_eq!(redirect.country_code, "GB");
            assert_eq!(
                redirect.experience_context.shipping_preference,
                ShippingPreference::SetProvidedAddress
            );
            assert_eq!(
                redirect.experience_context.return_url.as_deref(),
                Some("https://shop.example/complete")
            );
        }
        _ => panic!("an iDEAL order is paid by iDEAL"),
    }
    let mut manual = payment(PaymentMethodData::BankRedirect(BankRedirectData::Eps));
    manual.capture_method = Some(CaptureMethod::Manual);
    assert_eq!(
        failure(PaypalPaymentsRequest::for_authorize(&routed(&manual))),
        ConnectorError::FlowNotSupported {
            flow: "Manual capture method for Bank Redirect",
            connector: "Paypal"
        }
    );
    let mut nameless = payment(PaymentMethodData::BankRedirect(BankRedirectData::Sofort));
    nameless.billing = Some(address(None, Some("Lovelace"), Some("GB")));
    assert_eq!(
        failure(PaypalPaymentsRequest::for_authorize(&routed(&nameless))),
        ConnectorError::MissingRequiredField {
            field_name: "billing_first_name"
        }
    );
    let mut stateless = payment(PaymentMethodData::BankRedirect(BankRedirectData::Giropay));
    stateless.billing = Some(address(Some("Ada"), None, None));
    assert_eq!(
        failure(PaypalPaymentsRequest::for_authorize(&routed(&stateless))),
        ConnectorError::MissingRequiredField {
            field_name: "payment_method_data.billing.address.country"
        }
    );
}

#[test]
fn bank_redirect_sources_follow_the_bank() {
    let mut data = payment(PaymentMethodData::Reward);
    data.shipping = None;
    for (bank, expected) in [
        (BankRedirectData::Eps, "eps"),
        (BankRedirectData::Giropay, "giropay"),
        (BankRedirectData::Ideal, "ideal"),
        (BankRedirectData::Sofort, "sofort"),
    ] {
        let (name, request) = match get_payment_source(&data, &bank).ok().unwrap() {
            PaymentSourceItem::Eps(request) => ("eps", request),
            PaymentSourceItem::Giropay(request) => ("giropay", request),
            PaymentSourceItem::IDeal(request) => ("ideal", request),
            PaymentSourceItem::Sofort(request) => ("sofort", request),
            _ => panic!("a bank redirect is paid by the bank"),
        };
        assert_eq!(name, expected);
        assert_eq!(
            request.experience_context.shipping_preference,
            ShippingPreference::GetFromFile
        );
    }
    assert!(matches!(
        get_payment_source(&data, &BankRedirectData::Przelewy24),
        Err(ConnectorError::NotImplemented(
            "Selected payment method through Paypal"
        ))
    ));
}

#[test]
fn mandate_payments_use_the_vault() {
    let mut data = payment(PaymentMethodData::MandatePayment);
    assert_eq!(
        failure(PaypalPaymentsRequest::for_authorize(&routed(&data))),
        ConnectorError::MissingRequiredField {
            field_name: "recurring_mandate_payment_data"
        }
    );
    data.recurring_mandate_payment_method_type = Some(None);
    assert_eq!(
        failure(PaypalPaymentsRequest::for_authorize(&routed(&data))),
        ConnectorError::MissingRequiredField {
            field_name: "payment_method_type"
        }
    );
    data.recurring_mandate_payment_method_type = Some(Some(PaymentMethodType::Credit));
    assert_eq!(
        failure(PaypalPaymentsRequest::for_authorize(&routed(&data))),
        ConnectorError::MissingRequiredField {
            field_name: "connector_mandate_id"
        }
    );
    data.connector_mandate_id = Some("vault_1".to_string());
    let request = PaypalPaymentsRequest::for_authorize(&routed(&data)).ok().unwrap();
    assert!(matches!(
        request.payment_source,
        Some(PaymentSourceItem::Card(CardRequest::CardVaultStruct(ref vault)))
            if vault.vault_id.peek() == "vault_1"
    ));
    data.recurring_mandate_payment_method_type = Some(Some(PaymentMethodType::Paypal));
    let request = PaypalPaymentsRequest::for_authorize(&routed(&data)).ok().unwrap();
    assert!(matches!(
        request.payment_source,
        Some(PaymentSourceItem::Paypal(PaypalRedirectionRequest::PaypalVaultStruct(ref vault)))
            if vault.vault_id.peek() == "vault_1"
    ));
    data.recurring_mandate_payment_method_type = Some(Some(PaymentMethodType::Klarna));
    assert_eq!(
        failure(PaypalPaymentsRequest::for_authorize(&routed(&data))),
        ConnectorError::NotImplemented("Selected payment method through paypal")
    );
}

#[test]
fn amounts_follow_the_flow() {
    let data = payment(PaymentMethodData::Reward);
    let item = routed(&data);
    let authorize = OrderRequestAmount::for_flow(&item, Currency::EUR, OrderFlow::Authorize)
        .unwrap();
    assert_eq!(authorize.breakdown.item_total.value, "12.50");
    assert!(authorize.breakdown.tax_total.is_none());
    let tokens = OrderRequestAmount::for_flow(&item, Currency::EUR, OrderFlow::PostSessionTokens)
        .unwrap();
    assert_eq!(tokens.value, "12.50");
    assert_eq!(tokens.breakdown.item_total.value, "9.00");
    assert!(tokens.breakdown.tax_total.is_none());
    let update = OrderRequestAmount::for_flow(&item, Currency::EUR, OrderFlow::SdkSessionUpdate)
        .unwrap();
    assert_eq!(update.breakdown.item_total.value, "9.00");
    assert_eq!(update.breakdown.tax_total.unwrap().value, "1.00");
    assert_eq!(update.breakdown.shipping.unwrap().value, "2.50");
    let bare = PaypalRouterData::new("5.00".to_string(), None, None, None, &data);
    let authorize = OrderRequestAmount::for_flow(&bare, Currency::USD, OrderFlow::Authorize)
        .unwrap();
    assert_eq!(authorize.breakdown.shipping.unwrap().value, "0");
    assert_eq!(authorize.breakdown.item_total.currency_code, Currency::USD);
    assert_eq!(
        OrderRequestAmount::for_flow(&bare, Currency::USD, OrderFlow::PostSessionTokens)
            .unwrap_err(),
        ConnectorError::MissingRequiredField {
            field_name: "order_amount"
        }
    );
    let no_tax = PaypalRouterData::new(
        "5.00".to_string(),
        None,
        None,
        Some("4.00".to_string()),
        &data,
    );
    assert_eq!(
        OrderRequestAmount::for_flow(&no_tax, Currency::USD, OrderFlow::SdkSessionUpdate)
            .unwrap_err(),
        ConnectorError::MissingRequiredField {
            field_name: "order_tax_amount"
        }
    );
    assert_eq!(
        ItemDetails::for_flow(&no_tax, "r", Currency::USD, OrderFlow::SdkSessionUpdate)
            .unwrap_err(),
        ConnectorError::MissingRequiredField {
            field_name: "order_tax_amount"
        }
    );
    let item = ItemDetails::for_flow(&no_tax, "r7", Currency::USD, OrderFlow::PostSessionTokens)
        .unwrap();
    assert_eq!(item.name, "Payment for invoice r7");
    assert_eq!(item.unit_amount.value, "4.00");
}

#[test]
fn post_session_tokens_order_is_paid_with_the_wallet() {
    let mut data = payment(PaymentMethodData::Reward);
    data.capture_method = Some(CaptureMethod::Manual);
    let request = PaypalPaymentsRequest::for_post_session_tokens(&routed(&data))
        .ok()
        .unwrap();
    assert_eq!(request.intent, PaypalPaymentIntent::Authorize);
    assert_eq!(
        request.purchase_units[0].amount.breakdown.item_total.value,
        "9.00"
    );
    match request.payment_source {
        Some(PaymentSourceItem::Paypal(PaypalRedirectionRequest::PaypalRedirectionStruct(
            redirect,
        ))) => {
            assert_eq!(
                redirect.experience_context.return_url.as_deref(),
                Some("https://shop.example/return")
            );
            assert_eq!(
                redirect.experience_context.shipping_preference,
                ShippingPreference::GetFromFile
            );
        }
        _ => panic!("the order is paid with the wallet"),
    }
    data.capture_method = Some(CaptureMethod::Scheduled);
    data.connector_auth_type = ConnectorAuthType::NoKey;
    assert_eq!(
        failure(PaypalPaymentsRequest::for_post_session_tokens(&routed(&data))),
        ConnectorError::CaptureMethodNotSupported
    );
    data.capture_method = None;
    assert_eq!(
        failure(PaypalPaymentsRequest::for_post_session_tokens(&routed(&data))),
        ConnectorError::FailedToObtainAuthType
    );
}

#[test]
fn order_update_replaces_amount_and_items() {
    let data = payment(PaymentMethodData::Reward);
    let operations = PaypalUpdateOrderRequest::for_sdk_session_update(&routed(&data))
        .unwrap()
        .get_inner_value();
    assert_eq!(operations.len(), 2);
    assert_eq!(operations[0].op, PaypalOperationType::Replace);
    assert_eq!(
        operations[0].path,
        "/purchase_units/@reference_id=='ref_1'/amount"
    );
    match &operations[0].value {
        OperationValue::Amount(amount) => {
            assert_eq!(amount.breakdown.tax_total.as_ref().unwrap().value, "1.00")
        }
        OperationValue::Items(_) => panic!("the first operation replaces the amount"),
    }
    assert_eq!(
        operations[1].path,
        "/purchase_units/@reference_id=='ref_1'/items"
    );
    match &operations[1].value {
        OperationValue::Items(items) => {
            assert_eq!(items.len(), 1);
            assert_eq!(items[0].tax.as_ref().unwrap().value, "1.00");
        }
        OperationValue::Amount(_) => panic!("the second operation replaces the items"),
    }
}

#[test]
fn zero_mandate_takes_cards_only() {
    let data = payment(PaymentMethodData::Card(card()));
    match PaypalZeroMandateRequest::for_setup_mandate(&data).ok().unwrap().payment_source {
        ZeroMandateSourceItem::Card(mandate) => {
            assert_eq!(mandate.expiry.unwrap().peek(), "2030-03");
            assert_eq!(mandate.name.unwrap().peek(), "Ada Lovelace");
            assert_eq!(mandate.number.unwrap().peek(), "4111111111111111");
            assert_eq!(mandate.billing_address.unwrap().country_code, "GB");
        }
        ZeroMandateSourceItem::Paypal(_) => panic!("a card mandate is set up on the card"),
    }
    let wallet = payment(PaymentMethodData::Wallet(WalletData::PaypalRedirect));
    assert!(matches!(
        PaypalZeroMandateRequest::for_setup_mandate(&wallet),
        Err(ConnectorError::NotImplemented(
            "Selected payment method through Paypal"
        ))
    ));
}

#[test]
fn addresses_and_names_are_taken_from_what_is_known() {
    assert!(get_address_info(None).is_none());
    assert!(get_address_info(Some(&Address { address: None })).is_none());
    assert!(get_address_info(Some(&address(Some("A"), None, None))).is_none());
    let known = get_address_info(Some(&address(None, None, Some("FR")))).unwrap();
    assert_eq!(known.country_code, "FR");
    assert_eq!(known.address_line_1.unwrap().peek(), "Main street 1");
    assert_eq!(known.postal_code.unwrap().peek(), "10115");
    assert_eq!(known.admin_area_2.as_deref(), Some("Berlin"));
    assert_eq!(
        get_optional_full_name(Some(&address(Some("Ada"), None, None)))
            .unwrap()
            .peek(),
        "Ada"
    );
    assert!(get_optional_full_name(Some(&address(None, Some("L"), None))).is_none());
    assert!(get_optional_full_name(None).is_none());
    let mut data = payment(PaymentMethodData::Reward);
    data.shipping = None;
    let shipping = ShippingAddress::for_payment(&data);
    assert!(shipping.address.is_none());
    assert!(shipping.name.unwrap().full_name.is_none());
}

#[test]
fn card_expiry_is_written_with_a_four_digit_year() {
    assert_eq!(card().get_expiry_date_as_yyyymm("-").peek(), "2030-03");
    let mut long = card();
    long.card_exp_year = secret("2031");
    assert_eq!(long.get_expiry_date_as_yyyymm("/").peek(), "2031/03");
}

#[test]
fn payee_is_the_partner_merchant() {
    let partner = PaypalAuthType::try_from(&ConnectorAuthType::SignatureKey {
        api_key: secret("s"),
        key1: secret("id"),
        api_secret: secret("payer"),
    })
    .ok()
    .unwrap();
    assert_eq!(get_payee(&partner).unwrap().merchant_id.peek(), "payer");
    let standard = PaypalAuthType::try_from(&ConnectorAuthType::BodyKey {
        api_key: secret("s"),
        key1: secret("id"),
    })
    .ok()
    .unwrap();
    assert!(get_payee(&standard).is_none());
    assert!(get_payee(&PaypalAuthType::TemporaryAuth).is_none());
}

#[test]
fn follow_up_requests_carry_the_amount() {
    let item = PaypalRouterData::new("7.25".to_string(), None, None, None, ());
    let capture = PaypalPaymentsCaptureRequest::for_capture(&item, Currency::GBP);
    assert_eq!(capture.amount.value, "7.25");
    assert_eq!(capture.amount.currency_code, Currency::GBP);
    assert!(capture.final_capture);
    let refund = PaypalRefundRequest::for_refund(&item, Currency::GBP);
    assert_eq!(refund.amount.value, "7.25");
    let increment = PaypalIncrementalAuthRequest::for_increment(&item, Currency::JPY);
    assert_eq!(increment.amount.currency_code, Currency::JPY);
    let refresh = PaypalAuthUpdateRequest::for_refresh(&Some(secret("id")), &secret("app"))
        .ok()
        .unwrap();
    assert_eq!(refresh.grant_type, "client_credentials");
    assert_eq!(refresh.client_id.peek(), "id");
    assert_eq!(refresh.client_secret.peek(), "app");
    assert!(matches!(
        PaypalAuthUpdateRequest::for_refresh(&None, &secret("app")),
        Err(ConnectorError::MissingRequiredField {
            field_name: "request.id"
        })
    ));
}

#[test]
fn payout_receiver_is_chosen_by_what_is_known() {
    let payout = |method| PayoutRequestData {
        connector_request_reference_id: "payout_1".to_string(),
        destination_currency: Currency::USD,
        description: Some("thanks".to_string()),
        payout_method_data: method,
    };
    let build = |data: &PayoutRequestData| {
        PaypalPayoutItem::for_payout(&PaypalRouterData::new(
            "3.00".to_string(),
            None,
            None,
            None,
            data,
        ))
    };
    let all = payout(Some(PayoutMethodData::Wallet(WalletPayout::Paypal {
        email: Some("a@b.example".to_string()),
        telephone_number: Some(secret("+1")),
        paypal_id: Some(secret("pp")),
    })));
    let item = build(&all).ok().unwrap();
    assert_eq!(item.amount.value, "3.00");
    assert_eq!(item.amount.currency, Currency::USD);
    assert_eq!(item.note.as_deref(), Some("thanks"));
    assert_eq!(item.notification_language, "en-US");
    assert_eq!(item.payout_method_data.recipient_type, PayoutRecipientType::Email);
    assert_eq!(item.payout_method_data.recipient_wallet, PayoutWalletType::Paypal);
    assert!(matches!(
        item.payout_method_data.receiver,
        PaypalPayoutDataType::EmailType(ref email) if email == "a@b.example"
    ));
    let phone = payout(Some(PayoutMethodData::Wallet(WalletPayout::Paypal {
        email: None,
        telephone_number: Some(secret("+1")),
        paypal_id: Some(secret("pp")),
    })));
    let item = build(&phone).ok().unwrap();
    assert_eq!(item.payout_method_data.recipient_type, PayoutRecipientType::Phone);
    let id = payout(Some(PayoutMethodData::Wallet(WalletPayout::Paypal {
        email: None,
        telephone_number: None,
        paypal_id: Some(secret("pp")),
    })));
    let item = build(&id).ok().unwrap();
    assert_eq!(
        item.payout_method_data.recipient_type,
        PayoutRecipientType::PaypalId
    );
    assert!(matches!(
        item.payout_method_data.receiver,
        PaypalPayoutDataType::OtherType(ref id) if id.peek() == "pp"
    ));
    let venmo = payout(Some(PayoutMethodData::Wallet(WalletPayout::Venmo {
        telephone_number: Some(secret("+2")),
    })));
    let item = build(&venmo).ok().unwrap();
    assert_eq!(item.payout_method_data.recipient_wallet, PayoutWalletType::Venmo);
    assert_eq!(item.payout_method_data.recipient_type, PayoutRecipientType::Phone);
    let errors = vec![
        (
            payout(None),
            ConnectorError::MissingRequiredField {
                field_name: "payout_method_data",
            },
        ),
        (
            payout(Some(PayoutMethodData::Card)),
            ConnectorError::NotSupported {
                message: "PayoutMethodType is not supported",
                connector: "Paypal",
            },
        ),
        (
            payout(Some(PayoutMethodData::Wallet(WalletPayout::Paypal {
                email: None,
                telephone_number: None,
                paypal_id: None,
            }))),
            ConnectorError::MissingRequiredField {
                field_name: "receiver_data",
            },
        ),
        (
            payout(Some(PayoutMethodData::Wallet(WalletPayout::Venmo {
                telephone_number: None,
            }))),
            ConnectorError::MissingRequiredField {
                field_name: "telephone_number",
            },
        ),
    ];
    for (data, expected) in errors {
        assert!(matches!(build(&data), Err(error) if error == expected));
    }
    let request = PaypalFulfillRequest::for_payout(&PaypalRouterData::new(
        "3.00".to_string(),
        None,
        None,
        None,
        &venmo,
    ))
    .ok()
    .unwrap();
    assert_eq!(request.sender_batch_header.sender_batch_id, "payout_1");
    assert_eq!(request.items.len(), 1);
}
