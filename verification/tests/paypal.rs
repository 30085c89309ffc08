use payment_routing::connectors::paypal::auth::{
    PartnerFlowCredentials, PaypalAuthType, PaypalConnectorCredentials, StandardFlowCredentials,
};
use payment_routing::connectors::paypal::redirect::{
    get_redirect_url, paypal_threeds_link, threeds_form_of_parts,
};
use payment_routing::connectors::paypal::status::{
    extract_incremental_authorization_id, get_id_based_on_intent, get_order_status,
    get_payout_status,
};
use payment_routing::connectors::paypal::types::{
    DisputeLifeCycleStage, ErrorDetails, OrderAmount, OrderErrorDetails, OutcomeCode,
    PaymentsCollection, PaymentsCollectionItem, PaypalCardWebhooks, PaypalFulfillStatus,
    PaypalIncrementalStatus, PaypalLinks, PaypalOrderStatus, PaypalOrdersResponse,
    PaypalPaymentIntent, PaypalPaymentStatus, PaypalPaymentsSyncResponse,
    PaypalRedirectsWebhooks, PaypalRefundWebhooks, PaypalRelatedIds, PaypalRouterData,
    PaypalSellerPayableBreakdown, PaypalSourceVerificationStatus, PaypalSupplementaryData,
    PaypalWebhookEventType, PurchaseUnitItem, RefundStatus, RefundSyncResponse,
};
use payment_routing::connectors::paypal::verification::{
    get_headers, source_verification_request, HeaderLookup, PaypalSourceVerificationRequest, VerifyWebhookSourceRequestData, WebhookSourceHeaders,
};
use payment_routing::connectors::paypal::webhooks::get_payapl_webhooks_event;
use payment_routing::connectors::types::{
    AttemptStatus, AuthorizationStatus, ConnectorAuthType, ConnectorError, DisputeStage,
    ErrorCodeAndMessage, IncomingWebhookEvent, Method, PayoutStatus, VerifyWebhookStatus,
};
use payment_routing::secret::Secret;

fn secret(text: &str) -> Secret {
    Secret::new(text.to_string())
}

fn amount() -> OrderAmount {
    OrderAmount {
        currency_code: payment_routing::currency::Currency::USD,
        value: "10.00".to_string(),
    }
}

fn item(id: &str) -> PaymentsCollectionItem {
    PaymentsCollectionItem {
        amount: amount(),
        expiration_time: None,
        id: id.to_string(),
        final_capture: None,
        status: PaypalPaymentStatus::Completed,
    }
}

fn unit(
    authorizations: Option<Vec<PaymentsCollectionItem>>,
    captures: Option<Vec<PaymentsCollectionItem>>,
) -> PurchaseUnitItem {
    PurchaseUnitItem {
        reference_id: None,
        invoice_id: None,
        payments: PaymentsCollection {
            authorizations,
            captures,
        },
    }
}

fn link(rel: &str, href: Option<&str>) -> PaypalLinks {
    PaypalLinks {
        href: href.map(|h| h.to_string()),
        rel: rel.to_string(),
    }
}

fn all_events() -> Vec<PaypalWebhookEventType> {
    vec![
        PaypalWebhookEventType::PaymentAuthorizationCreated,
        PaypalWebhookEventType::PaymentAuthorizationVoided,
        PaypalWebhookEventType::PaymentCaptureDeclined,
        PaypalWebhookEventType::PaymentCaptureCompleted,
        PaypalWebhookEventType::PaymentCapturePending,
        PaypalWebhookEventType::PaymentCaptureRefunded,
        PaypalWebhookEventType::CheckoutOrderApproved,
        PaypalWebhookEventType::CheckoutOrderCompleted,
        PaypalWebhookEventType::CheckoutOrderProcessed,
        PaypalWebhookEventType::CustomerDisputeCreated,
        PaypalWebhookEventType::CustomerDisputeResolved,
        PaypalWebhookEventType::CustomerDisputedUpdated,
        PaypalWebhookEventType::RiskDisputeCreated,
        PaypalWebhookEventType::Unknown,
    ]
}

fn headers() -> WebhookSourceHeaders {
    WebhookSourceHeaders {
        transmission_id: HeaderLookup::Text("id-1".to_string()),
        transmission_time: HeaderLookup::Text("2024-01-01T00:00:00Z".to_string()),
        cert_url: HeaderLookup::Text("https://cert.example".to_string()),
        transmission_sig: HeaderLookup::Text("sig".to_string()),
        auth_algo: HeaderLookup::Text("SHA256withRSA".to_string()),
    }
}

#[test]
fn completed_order_is_authorized_or_charged_by_intent() {
    assert_eq!(
        get_order_status(PaypalOrderStatus::Completed, PaypalPaymentIntent::Authorize),
        AttemptStatus::Authorized
    );
    assert_eq!(
        get_order_status(PaypalOrderStatus::Completed, PaypalPaymentIntent::Capture),
        AttemptStatus::Charged
    );
    assert_eq!(
        get_order_status(PaypalOrderStatus::Completed, PaypalPaymentIntent::Authenticate),
        AttemptStatus::Charged
    );
}

#[test]
fn other_order_states_ignore_the_intent() {
    let cases = [
        (PaypalOrderStatus::Voided, AttemptStatus::Voided),
        (PaypalOrderStatus::Created, AttemptStatus::Pending),
        (PaypalOrderStatus::Saved, AttemptStatus::Pending),
        (PaypalOrderStatus::Pending, AttemptStatus::Pending),
        (
            PaypalOrderStatus::Approved,
            AttemptStatus::AuthenticationSuccessful,
        ),
        (
            PaypalOrderStatus::PayerActionRequired,
            AttemptStatus::AuthenticationPending,
        ),
    ];
    for (status, expected) in cases {
        for intent in [
            PaypalPaymentIntent::Capture,
            PaypalPaymentIntent::Authorize,
            PaypalPaymentIntent::Authenticate,
        ] {
            assert_eq!(get_order_status(status, intent), expected);
        }
    }
}

#[test]
fn payment_states_map_to_attempt_states() {
    let cases = [
        (PaypalPaymentStatus::Created, AttemptStatus::Authorized),
        (PaypalPaymentStatus::Completed, AttemptStatus::Charged),
        (PaypalPaymentStatus::Captured, AttemptStatus::Charged),
        (PaypalPaymentStatus::Refunded, AttemptStatus::Charged),
        (PaypalPaymentStatus::Declined, AttemptStatus::Failure),
        (PaypalPaymentStatus::Failed, AttemptStatus::CaptureFailed),
        (PaypalPaymentStatus::Pending, AttemptStatus::Pending),
        (PaypalPaymentStatus::Denied, AttemptStatus::Failure),
        (PaypalPaymentStatus::Expired, AttemptStatus::Failure),
        (
            PaypalPaymentStatus::PartiallyCaptured,
            AttemptStatus::PartialCharged,
        ),
        (PaypalPaymentStatus::Voided, AttemptStatus::Voided),
    ];
    for (status, expected) in cases {
        assert_eq!(AttemptStatus::from(status), expected);
    }
}

#[test]
fn other_states_map_to_the_platform() {
    assert_eq!(
        AuthorizationStatus::from(PaypalIncrementalStatus::CREATED),
        AuthorizationStatus::Success
    );
    assert_eq!(
        AuthorizationStatus::from(PaypalIncrementalStatus::PARTIALLYCAPTURED),
        AuthorizationStatus::Success
    );
    assert_eq!(
        AuthorizationStatus::from(PaypalIncrementalStatus::PENDING),
        AuthorizationStatus::Processing
    );
    assert_eq!(
        AuthorizationStatus::from(PaypalIncrementalStatus::VOIDED),
        AuthorizationStatus::Failure
    );
    assert_eq!(
        get_payout_status(PaypalFulfillStatus::Success),
        PayoutStatus::Success
    );
    assert_eq!(
        get_payout_status(PaypalFulfillStatus::Denied),
        PayoutStatus::Failed
    );
    assert_eq!(
        get_payout_status(PaypalFulfillStatus::Cancelled),
        PayoutStatus::Cancelled
    );
    assert_eq!(
        get_payout_status(PaypalFulfillStatus::Processing),
        PayoutStatus::Pending
    );
    assert_eq!(
        payment_routing::connectors::types::RefundStatus::from(RefundStatus::Completed),
        payment_routing::connectors::types::RefundStatus::Success
    );
    assert_eq!(
        payment_routing::connectors::types::RefundStatus::from(RefundStatus::Cancelled),
        payment_routing::connectors::types::RefundStatus::Failure
    );
    assert_eq!(
        payment_routing::connectors::types::RefundStatus::from(RefundStatus::Pending),
        payment_routing::connectors::types::RefundStatus::Pending
    );
    assert_eq!(
        DisputeStage::from(DisputeLifeCycleStage::Inquiry),
        DisputeStage::PreDispute
    );
    assert_eq!(
        DisputeStage::from(DisputeLifeCycleStage::Chargeback),
        DisputeStage::Dispute
    );
    assert_eq!(
        DisputeStage::from(DisputeLifeCycleStage::Arbitration),
        DisputeStage::PreArbitration
    );
    assert_eq!(
        VerifyWebhookStatus::from(PaypalSourceVerificationStatus::Success),
        VerifyWebhookStatus::SourceVerified
    );
    assert_eq!(
        VerifyWebhookStatus::from(PaypalSourceVerificationStatus::Failure),
        VerifyWebhookStatus::SourceNotVerified
    );
}

#[test]
fn transaction_id_follows_the_intent() {
    let purchase = unit(Some(vec![item("auth_1"), item("auth_2")]), Some(vec![item("cap_1")]));
    assert_eq!(
        get_id_based_on_intent(&PaypalPaymentIntent::Capture, &purchase),
        Ok("cap_1".to_string())
    );
    assert_eq!(
        get_id_based_on_intent(&PaypalPaymentIntent::Authorize, &purchase),
        Ok("auth_1".to_string())
    );
    assert_eq!(
        get_id_based_on_intent(&PaypalPaymentIntent::Authenticate, &purchase),
        Err(ConnectorError::MissingConnectorTransactionID)
    );
    assert_eq!(
        get_id_based_on_intent(&PaypalPaymentIntent::Capture, &unit(None, None)),
        Err(ConnectorError::MissingConnectorTransactionID)
    );
    assert_eq!(
        get_id_based_on_intent(&PaypalPaymentIntent::Authorize, &unit(Some(Vec::new()), None)),
        Err(ConnectorError::MissingConnectorTransactionID)
    );
}

#[test]
fn incremental_authorization_id_is_the_first_authorization() {
    let order = |units| PaypalOrdersResponse {
        id: "order".to_string(),
        intent: PaypalPaymentIntent::Authorize,
        status: PaypalOrderStatus::Completed,
        purchase_units: units,
        payment_source: None,
    };
    assert_eq!(extract_incremental_authorization_id(&order(Vec::new())), None);
    assert_eq!(
        extract_incremental_authorization_id(&order(vec![
            unit(None, Some(vec![item("cap")])),
            unit(Some(Vec::new()), None),
            unit(Some(vec![item("auth_a"), item("auth_b")]), None),
            unit(Some(vec![item("auth_c")]), None),
        ])),
        Some("auth_a".to_string())
    );
    assert_eq!(
        extract_incremental_authorization_id(&order(vec![unit(None, None)])),
        None
    );
}

#[test]
fn webhook_events_are_classified() {
    let cases = [
        (
            PaypalWebhookEventType::PaymentCaptureCompleted,
            IncomingWebhookEvent::PaymentIntentSuccess,
        ),
        (
            PaypalWebhookEventType::CheckoutOrderCompleted,
            IncomingWebhookEvent::PaymentIntentSuccess,
        ),
        (
            PaypalWebhookEventType::PaymentCapturePending,
            IncomingWebhookEvent::PaymentIntentProcessing,
        ),
        (
            PaypalWebhookEventType::CheckoutOrderProcessed,
            IncomingWebhookEvent::PaymentIntentProcessing,
        ),
        (
            PaypalWebhookEventType::PaymentCaptureDeclined,
            IncomingWebhookEvent::PaymentIntentFailure,
        ),
        (
            PaypalWebhookEventType::PaymentCaptureRefunded,
            IncomingWebhookEvent::RefundSuccess,
        ),
        (
            PaypalWebhookEventType::CustomerDisputeCreated,
            IncomingWebhookEvent::DisputeOpened,
        ),
        (
            PaypalWebhookEventType::RiskDisputeCreated,
            IncomingWebhookEvent::DisputeAccepted,
        ),
        (
            PaypalWebhookEventType::PaymentAuthorizationCreated,
            IncomingWebhookEvent::EventNotSupported,
        ),
        (
            PaypalWebhookEventType::PaymentAuthorizationVoided,
            IncomingWebhookEvent::EventNotSupported,
        ),
        (
            PaypalWebhookEventType::CheckoutOrderApproved,
            IncomingWebhookEvent::EventNotSupported,
        ),
        (
            PaypalWebhookEventType::CustomerDisputedUpdated,
            IncomingWebhookEvent::EventNotSupported,
        ),
        (
            PaypalWebhookEventType::Unknown,
            IncomingWebhookEvent::EventNotSupported,
        ),
    ];
    for (event, expected) in cases {
        assert_eq!(get_payapl_webhooks_event(event, None), expected);
        assert_eq!(
            get_payapl_webhooks_event(event, Some(OutcomeCode::ResolvedBuyerFavour)),
            expected
        );
    }
}

#[test]
fn resolved_dispute_is_classified_by_its_outcome() {
    let event = PaypalWebhookEventType::CustomerDisputeResolved;
    assert_eq!(
        get_payapl_webhooks_event(event, None),
        IncomingWebhookEvent::EventNotSupported
    );
    let cases = [
        (OutcomeCode::ResolvedBuyerFavour, IncomingWebhookEvent::DisputeLost),
        (OutcomeCode::ResolvedSellerFavour, IncomingWebhookEvent::DisputeWon),
        (OutcomeCode::CanceledByBuyer, IncomingWebhookEvent::DisputeCancelled),
        (OutcomeCode::ACCEPTED, IncomingWebhookEvent::DisputeAccepted),
        (OutcomeCode::DENIED, IncomingWebhookEvent::DisputeCancelled),
        (OutcomeCode::NONE, IncomingWebhookEvent::DisputeCancelled),
        (
            OutcomeCode::ResolvedWithPayout,
            IncomingWebhookEvent::EventNotSupported,
        ),
    ];
    for (outcome, expected) in cases {
        assert_eq!(get_payapl_webhooks_event(event, Some(outcome)), expected);
        assert_eq!(IncomingWebhookEvent::from(outcome), expected);
    }
}

#[test]
fn events_give_payment_order_and_refund_states() {
    let payment = |event| PaypalPaymentStatus::try_from(event);
    assert_eq!(payment(PaypalWebhookEventType::PaymentCaptureCompleted), Ok(PaypalPaymentStatus::Completed));
    assert_eq!(payment(PaypalWebhookEventType::CheckoutOrderCompleted), Ok(PaypalPaymentStatus::Completed));
    assert_eq!(payment(PaypalWebhookEventType::PaymentAuthorizationVoided), Ok(PaypalPaymentStatus::Voided));
    assert_eq!(payment(PaypalWebhookEventType::PaymentCaptureDeclined), Ok(PaypalPaymentStatus::Declined));
    assert_eq!(payment(PaypalWebhookEventType::CheckoutOrderApproved), Ok(PaypalPaymentStatus::Pending));
    assert_eq!(payment(PaypalWebhookEventType::PaymentAuthorizationCreated), Ok(PaypalPaymentStatus::Created));
    assert_eq!(payment(PaypalWebhookEventType::PaymentCaptureRefunded), Ok(PaypalPaymentStatus::Refunded));
    let order = |event| PaypalOrderStatus::try_from(event);
    assert_eq!(order(PaypalWebhookEventType::CheckoutOrderCompleted), Ok(PaypalOrderStatus::Completed));
    assert_eq!(order(PaypalWebhookEventType::PaymentAuthorizationVoided), Ok(PaypalOrderStatus::Voided));
    assert_eq!(order(PaypalWebhookEventType::PaymentCapturePending), Ok(PaypalOrderStatus::Pending));
    assert_eq!(order(PaypalWebhookEventType::PaymentAuthorizationCreated), Ok(PaypalOrderStatus::Created));
    assert_eq!(
        order(PaypalWebhookEventType::CheckoutOrderApproved),
        Err(ConnectorError::WebhookEventTypeNotFound)
    );
    assert_eq!(
        order(PaypalWebhookEventType::PaymentCaptureRefunded),
        Err(ConnectorError::WebhookEventTypeNotFound)
    );
    for event in all_events() {
        let refund = RefundStatus::try_from(event);
        if event == PaypalWebhookEventType::PaymentCaptureRefunded {
            assert_eq!(refund, Ok(RefundStatus::Completed));
        } else {
            assert_eq!(refund, Err(ConnectorError::WebhookEventTypeNotFound));
        }
    }
    for event in [
        PaypalWebhookEventType::CustomerDisputeCreated,
        PaypalWebhookEventType::CustomerDisputeResolved,
        PaypalWebhookEventType::CustomerDisputedUpdated,
        PaypalWebhookEventType::RiskDisputeCreated,
        PaypalWebhookEventType::Unknown,
    ] {
        assert_eq!(payment(event), Err(ConnectorError::WebhookEventTypeNotFound));
        assert_eq!(order(event), Err(ConnectorError::WebhookEventTypeNotFound));
    }
}

#[test]
fn webhook_bodies_become_sync_responses() {
    let card = PaypalCardWebhooks {
        supplementary_data: PaypalSupplementaryData {
            related_ids: PaypalRelatedIds {
                order_id: "order_7".to_string(),
            },
        },
        amount: amount(),
        invoice_id: Some("inv".to_string()),
    };
    let payment = PaypalPaymentsSyncResponse::try_from((
        card.clone(),
        PaypalWebhookEventType::PaymentCaptureCompleted,
    ))
    .unwrap();
    assert_eq!(payment.id, "order_7");
    assert_eq!(payment.status, PaypalPaymentStatus::Completed);
    assert_eq!(payment.invoice_id.as_deref(), Some("inv"));
    assert_eq!(payment.supplementary_data.related_ids.order_id, "order_7");
    assert_eq!(
        PaypalPaymentsSyncResponse::try_from((card, PaypalWebhookEventType::Unknown)).unwrap_err(),
        ConnectorError::WebhookEventTypeNotFound
    );
    let redirect = PaypalRedirectsWebhooks {
        purchase_units: vec![unit(None, None)],
        links: Vec::new(),
        id: "order_8".to_string(),
        intent: PaypalPaymentIntent::Capture,
    };
    let order = PaypalOrdersResponse::try_from((
        redirect,
        PaypalWebhookEventType::CheckoutOrderCompleted,
    ))
    .unwrap();
    assert_eq!(order.id, "order_8");
    assert_eq!(order.status, PaypalOrderStatus::Completed);
    assert_eq!(order.intent, PaypalPaymentIntent::Capture);
    assert_eq!(order.purchase_units.len(), 1);
    assert!(order.payment_source.is_none());
    let refund = PaypalRefundWebhooks {
        id: "refund_1".to_string(),
        amount: amount(),
        seller_payable_breakdown: PaypalSellerPayableBreakdown {
            total_refunded_amount: amount(),
        },
    };
    let synced = RefundSyncResponse::try_from((
        refund.clone(),
        PaypalWebhookEventType::PaymentCaptureRefunded,
    ))
    .unwrap();
    assert_eq!(synced.id, "refund_1");
    assert_eq!(synced.status, RefundStatus::Completed);
    assert_eq!(
        RefundSyncResponse::try_from((refund, PaypalWebhookEventType::PaymentCaptureCompleted))
            .unwrap_err(),
        ConnectorError::WebhookEventTypeNotFound
    );
}

#[test]
fn error_details_become_code_and_message() {
    let error = ErrorCodeAndMessage::from(OrderErrorDetails {
        issue: "CARD_EXPIRED".to_string(),
        description: "The card is expired".to_string(),
        value: None,
        field: None,
    });
    assert_eq!(error.error_code, "CARD_EXPIRED");
    assert_eq!(error.error_message, "CARD_EXPIRED");
    let error = ErrorCodeAndMessage::from(ErrorDetails {
        issue: "DENIED".to_string(),
        description: None,
    });
    assert_eq!(error.error_code, "DENIED");
    assert_eq!(error.error_message, "DENIED");
}

#[test]
fn credentials_are_read_from_the_configured_keys() {
    let body_key = ConnectorAuthType::BodyKey {
        api_key: secret("the_secret"),
        key1: secret("the_id"),
    };
    match PaypalAuthType::try_from(&body_key) {
        Ok(PaypalAuthType::AuthWithDetails(credentials)) => {
            assert_eq!(credentials.get_client_id().peek(), "the_id");
            assert_eq!(credentials.get_client_secret().peek(), "the_secret");
            assert!(credentials.get_payer_id().is_none());
        }
        _ => panic!("a body key is a direct integration"),
    }
    let signature_key = ConnectorAuthType::SignatureKey {
        api_key: secret("the_secret"),
        key1: secret("the_id"),
        api_secret: secret("the_payer"),
    };
    match PaypalAuthType::try_from(&signature_key) {
        Ok(PaypalAuthType::AuthWithDetails(credentials)) => {
            assert_eq!(credentials.get_client_id().peek(), "the_id");
            assert_eq!(credentials.get_client_secret().peek(), "the_secret");
            assert_eq!(credentials.get_payer_id().unwrap().peek(), "the_payer");
        }
        _ => panic!("a signature key is a partner integration"),
    }
    assert!(matches!(
        PaypalAuthType::try_from(&ConnectorAuthType::TemporaryAuth),
        Ok(PaypalAuthType::TemporaryAuth)
    ));
    for other in [
        ConnectorAuthType::HeaderKey {
            api_key: secret("k"),
        },
        ConnectorAuthType::NoKey,
    ] {
        assert!(matches!(
            PaypalAuthType::try_from(&other),
            Err(ConnectorError::FailedToObtainAuthType)
        ));
    }
}

#[test]
fn placeholder_has_no_credentials() {
    assert!(matches!(
        PaypalAuthType::TemporaryAuth.get_credentials(),
        Err(ConnectorError::InvalidConnectorConfig {
            config: "TemporaryAuth found in connector_account_details"
        })
    ));
    let configured = PaypalAuthType::AuthWithDetails(PaypalConnectorCredentials::StandardIntegration(
        StandardFlowCredentials {
            client_id: secret("id"),
            client_secret: secret("s"),
        },
    ));
    assert_eq!(
        configured.get_credentials().unwrap().get_client_id().peek(),
        "id"
    );
}

#[test]
fn authorization_value_is_basic_base64() {
    let standard = PaypalConnectorCredentials::StandardIntegration(StandardFlowCredentials {
        client_id: secret("client_id_1"),
        client_secret: secret("s3cret"),
    });
    assert_eq!(
        standard.generate_authorization_value(),
        "Basic Y2xpZW50X2lkXzE6czNjcmV0"
    );
    let partner = PaypalConnectorCredentials::PartnerIntegration(PartnerFlowCredentials {
        client_id: secret("client_id_1"),
        client_secret: secret("s3cret"),
        payer_id: secret("payer"),
    });
    assert_eq!(
        partner.generate_authorization_value(),
        "Basic Y2xpZW50X2lkXzE6czNjcmV0"
    );
}

#[test]
fn redirect_url_is_the_last_payer_action_link() {
    assert_eq!(get_redirect_url(Vec::new()), Ok(None));
    assert_eq!(
        get_redirect_url(vec![
            link("self", Some("https://a.example")),
            link("payer-action", Some("https://b.example")),
            link("approve", Some("https://c.example")),
        ]),
        Ok(Some("https://b.example".to_string()))
    );
    assert_eq!(
        get_redirect_url(vec![
            link("payer-action", Some("https://b.example")),
            link("payer-action", Some("https://d.example")),
        ]),
        Ok(Some("https://d.example".to_string()))
    );
    assert_eq!(
        get_redirect_url(vec![
            link("payer-action", Some("https://b.example")),
            link("payer-action", None),
        ]),
        Ok(None)
    );
    assert_eq!(
        get_redirect_url(vec![link("self", Some("https://a.example"))]),
        Ok(None)
    );
}

#[test]
fn threeds_link_moves_the_query_into_the_form() {
    let form = paypal_threeds_link((
        Some("https://www.paypal.com/checkoutnow?token=ABC&flow=3ds".to_string()),
        Some("https://shop.example/complete".to_string()),
    ))
    .unwrap();
    assert_eq!(form.endpoint, "https://www.paypal.com/checkoutnow");
    assert_eq!(form.method, Method::Get);
    let mut fields = form.form_fields.clone();
    fields.sort();
    assert_eq!(
        fields,
        vec![
            ("flow".to_string(), "3ds".to_string()),
            (
                "redirect_uri".to_string(),
                "https://shop.example/complete".to_string()
            ),
            ("token".to_string(), "ABC".to_string()),
        ]
    );
}

#[test]
fn threeds_link_keeps_one_value_for_each_field() {
    let form = paypal_threeds_link((
        Some("https://pay.example/x?a=1&redirect_uri=old&a=2&b=%20c".to_string()),
        Some("new".to_string()),
    ))
    .unwrap();
    assert_eq!(form.endpoint, "https://pay.example/x");
    let mut fields = form.form_fields.clone();
    fields.sort();
    assert_eq!(
        fields,
        vec![
            ("a".to_string(), "2".to_string()),
            ("b".to_string(), " c".to_string()),
            ("redirect_uri".to_string(), "new".to_string()),
        ]
    );
}

#[test]
fn threeds_link_needs_both_addresses() {
    assert_eq!(
        paypal_threeds_link((None, Some("https://shop.example".to_string()))).unwrap_err(),
        ConnectorError::ResponseDeserializationFailed
    );
    assert_eq!(
        paypal_threeds_link((None, None)).unwrap_err(),
        ConnectorError::ResponseDeserializationFailed
    );
    assert_eq!(
        paypal_threeds_link((Some("https://pay.example".to_string()), None)).unwrap_err(),
        ConnectorError::MissingRequiredField {
            field_name: "complete_authorize_url"
        }
    );
    assert_eq!(
        paypal_threeds_link((Some("not a url".to_string()), Some("back".to_string())))
            .unwrap_err(),
        ConnectorError::ResponseDeserializationFailed
    );
}

#[test]
fn threeds_form_is_built_from_parts() {
    let form = threeds_form_of_parts(
        vec![
            ("k".to_string(), "1".to_string()),
            ("k".to_string(), "2".to_string()),
        ],
        "https://pay.example/".to_string(),
        "back".to_string(),
    );
    assert_eq!(form.endpoint, "https://pay.example/");
    assert_eq!(
        form.form_fields,
        vec![
            ("k".to_string(), "2".to_string()),
            ("redirect_uri".to_string(), "back".to_string()),
        ]
    );
}

#[test]
fn header_values_fail_by_name() {
    assert_eq!(
        get_headers(&HeaderLookup::Text("v".to_string()), "paypal-cert-url"),
        Ok("v".to_string())
    );
    assert_eq!(
        get_headers(&HeaderLookup::Missing, "paypal-cert-url"),
        Err(ConnectorError::MissingRequiredField {
            field_name: "paypal-cert-url"
        })
    );
    assert_eq!(
        get_headers(&HeaderLookup::Unreadable, "paypal-auth-algo"),
        Err(ConnectorError::InvalidDataFormat {
            field_name: "paypal-auth-algo"
        })
    );
}

#[test]
fn verification_request_is_built_from_a_readable_webhook() {
    let request = PaypalSourceVerificationRequest::try_from(&VerifyWebhookSourceRequestData {
        webhook_headers: headers(),
        webhook_body: br#"{"event_type":"PAYMENT.CAPTURE.COMPLETED","n":1}"#.to_vec(),
        merchant_secret: b"webhook_id_1".to_vec(),
    })
    .unwrap();
    assert_eq!(request.transmission_id, "id-1");
    assert_eq!(request.transmission_time, "2024-01-01T00:00:00Z");
    assert_eq!(request.cert_url, "https://cert.example");
    assert_eq!(request.transmission_sig, "sig");
    assert_eq!(request.auth_algo, "SHA256withRSA");
    assert_eq!(request.webhook_id, "webhook_id_1");
    assert_eq!(
        request.webhook_event["event_type"],
        serde_json::Value::String("PAYMENT.CAPTURE.COMPLETED".to_string())
    );
    assert_eq!(request.webhook_event["n"], serde_json::Value::from(1));
}

#[test]
fn verification_request_reports_the_first_failure() {
    let data = |webhook_headers, body: &[u8], secret: &[u8]| VerifyWebhookSourceRequestData {
        webhook_headers,
        webhook_body: body.to_vec(),
        merchant_secret: secret.to_vec(),
    };
    let mut no_id = headers();
    no_id.transmission_id = HeaderLookup::Missing;
    assert_eq!(
        PaypalSourceVerificationRequest::try_from(&data(no_id, b"not json", b"id")).unwrap_err(),
        ConnectorError::WebhookBodyDecodingFailed
    );
    let mut no_id = headers();
    no_id.transmission_id = HeaderLookup::Unreadable;
    no_id.cert_url = HeaderLookup::Missing;
    assert_eq!(
        PaypalSourceVerificationRequest::try_from(&data(no_id, b"{}", b"id")).unwrap_err(),
        ConnectorError::WebhookSourceVerificationFailed
    );
    let mut no_time = headers();
    no_time.transmission_time = HeaderLookup::Missing;
    no_time.auth_algo = HeaderLookup::Unreadable;
    assert_eq!(
        PaypalSourceVerificationRequest::try_from(&data(no_time, b"{}", b"id")).unwrap_err(),
        ConnectorError::MissingRequiredField {
            field_name: "paypal-transmission-time"
        }
    );
    let mut bad_algo = headers();
    bad_algo.auth_algo = HeaderLookup::Unreadable;
    assert_eq!(
        PaypalSourceVerificationRequest::try_from(&data(bad_algo, b"{}", &[0xff, 0xfe]))
            .unwrap_err(),
        ConnectorError::InvalidDataFormat {
            field_name: "paypal-auth-algo"
        }
    );
    let mut no_sig = headers();
    no_sig.transmission_sig = HeaderLookup::Missing;
    assert_eq!(
        PaypalSourceVerificationRequest::try_from(&data(no_sig, b"{}", b"id")).unwrap_err(),
        ConnectorError::MissingRequiredField {
            field_name: "paypal-transmission-sig"
        }
    );
    assert_eq!(
        PaypalSourceVerificationRequest::try_from(&data(headers(), b"{}", &[0xff, 0xfe]))
            .unwrap_err(),
        ConnectorError::WebhookVerificationSecretNotFound
    );
    assert_eq!(
        source_verification_request(&headers(), None, Some("id".to_string())).unwrap_err(),
        ConnectorError::WebhookBodyDecodingFailed
    );
}

#[test]
fn router_data_keeps_its_amounts() {
    let data = PaypalRouterData::new(
        "10.00".to_string(),
        Some("1.00".to_string()),
        None,
        Some("9.00".to_string()),
        7u8,
    );
    assert_eq!(data.amount, "10.00");
    assert_eq!(data.shipping_cost.as_deref(), Some("1.00"));
    assert!(data.order_tax_amount.is_none());
    assert_eq!(data.order_amount.as_deref(), Some("9.00"));
    assert_eq!(data.router_data, 7);
}
