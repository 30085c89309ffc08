use payment_routing::connectors::paypal::orders::{
    PaypalSetupMandatesResponse, ZeroMandateSourceItem,
};
use payment_routing::connectors::paypal::responses::{
    access_token_response, cancel_response, capture_response, fulfill_response,
    incremental_authorization_response, orders_response, payments_sync_response,
    post_session_tokens_response, redirect_authorize_response, redirect_sync_response,
    refund_response, refund_sync_response, setup_mandate_response, sync_response,
    threeds_response, threeds_sync_response, StoredMeta,
};
use payment_routing::connectors::paypal::types::{
    AttributeResponse, CardDetails, CardVaultResponse, CardsData, Customer, CustomerId,
    NextActionCall, PaypalMandateStruct, UsageType,
    OrderAmount, PaymentSourceItemResponse, PaymentsCollection, PaymentsCollectionItem,
    PaypalAuthUpdateResponse, PaypalBatchResponse, PaypalCancelStatus, PaypalCaptureResponse,
    PaypalFulfillResponse, PaypalFulfillStatus, PaypalIncrementalAuthResponse,
    PaypalIncrementalAuthStatusDetails, PaypalIncrementalStatus, PaypalLinks, PaypalMeta,
    PaypalNetworkTransactionReference, PaypalOrderStatus, PaypalOrdersResponse,
    PaypalPaymentIntent, PaypalPaymentStatus, PaypalPaymentsCancelResponse,
    PaypalPaymentsSyncResponse, PaypalRedirectResponse, PaypalRelatedIds, PaypalStatusPendingReason,
    PaypalSupplementaryData, PaypalSyncResponse, PaypalThreeDsResponse,
    PaypalThreeDsSyncResponse,
    PaypalVaultResponse, PurchaseUnitItem, RedirectPurchaseUnitItem, RefundResponse, RefundStatus,
    RefundSyncResponse,
};
use payment_routing::connectors::types::{
    AttemptStatus, AuthorizationStatus, ConnectorError, Method, PaymentExperience, PayoutStatus,
    ResponseId,
};
use payment_routing::currency::Currency;
use payment_routing::secret::Secret;

fn amount() -> OrderAmount {
    OrderAmount {
        currency_code: Currency::USD,
        value: "10.00".to_string(),
    }
}

fn item(id: &str, status: PaypalPaymentStatus) -> PaymentsCollectionItem {
    PaymentsCollectionItem {
        amount: amount(),
        expiration_time: None,
        id: id.to_string(),
        final_capture: None,
        status,
    }
}

fn order(
    intent: PaypalPaymentIntent,
    authorizations: Option<Vec<PaymentsCollectionItem>>,
    captures: Option<Vec<PaymentsCollectionItem>>,
) -> PaypalOrdersResponse {
    PaypalOrdersResponse {
        id: "order_1".to_string(),
        intent,
        status: PaypalOrderStatus::Completed,
        purchase_units: vec![PurchaseUnitItem {
            reference_id: None,
            invoice_id: Some("inv_1".to_string()),
            payments: PaymentsCollection {
                authorizations,
                captures,
            },
        }],
        payment_source: None,
    }
}

fn redirect(links: Vec<PaypalLinks>) -> PaypalRedirectResponse {
    PaypalRedirectResponse {
        id: "order_2".to_string(),
        intent: PaypalPaymentIntent::Capture,
        status: PaypalOrderStatus::PayerActionRequired,
        purchase_units: vec![RedirectPurchaseUnitItem {
            invoice_id: "inv_2".to_string(),
        }],
        links,
        payment_source: None,
    }
}

fn payer_action(url: &str) -> Vec<PaypalLinks> {
    vec![
        PaypalLinks {
            href: Some("https://api.example/self".to_string()),
            rel: "self".to_string(),
        },
        PaypalLinks {
            href: Some(url.to_string()),
            rel: "payer-action".to_string(),
        },
    ]
}

fn mandate(id: &str) -> PaypalSetupMandatesResponse {
    PaypalSetupMandatesResponse {
        id: id.to_string(),
        customer: Customer {
            id: "customer_1".to_string(),
        },
        payment_source: ZeroMandateSourceItem::Paypal(PaypalMandateStruct {
            experience_context: None,
            usage_type: UsageType::Merchant,
        }),
        links: Vec::new(),
    }
}

fn id_of(resource: &ResponseId) -> Option<&str> {
    match resource {
        ResponseId::ConnectorTransactionId(id) => Some(id.as_str()),
        ResponseId::NoResponseId => None,
    }
}

fn stored(authorize_id: Option<&str>) -> PaypalMeta {
    PaypalMeta {
        authorize_id: authorize_id.map(|id| id.to_string()),
        capture_id: None,
        incremental_authorization_id: None,
        psync_flow: PaypalPaymentIntent::Authorize,
        next_action: None,
        order_id: None,
    }
}

#[test]
fn captured_order_stores_the_capture() {
    let response = order(
        PaypalPaymentIntent::Capture,
        None,
        Some(vec![item("cap_1", PaypalPaymentStatus::Completed)]),
    );
    let outcome = orders_response(&response, Some(true)).ok().unwrap();
    assert_eq!(outcome.status, AttemptStatus::Charged);
    assert_eq!(id_of(&outcome.response.resource_id), Some("order_1"));
    assert!(outcome.response.redirection_data.is_none());
    let meta = outcome.response.connector_metadata.unwrap();
    assert_eq!(meta.capture_id.as_deref(), Some("cap_1"));
    assert!(meta.authorize_id.is_none());
    assert!(meta.incremental_authorization_id.is_none());
    assert_eq!(meta.psync_flow, PaypalPaymentIntent::Capture);
    assert_eq!(
        outcome.response.connector_response_reference_id.as_deref(),
        Some("inv_1")
    );
    assert_eq!(outcome.response.incremental_authorization_allowed, Some(true));
    assert!(outcome
        .response
        .mandate_reference
        .unwrap()
        .connector_mandate_id
        .is_none());
}

#[test]
fn authorized_order_stores_the_authorization() {
    let mut response = order(
        PaypalPaymentIntent::Authorize,
        Some(vec![item("auth_1", PaypalPaymentStatus::Created)]),
        None,
    );
    response.purchase_units[0].invoice_id = None;
    response.payment_source = Some(PaymentSourceItemResponse::Card(CardVaultResponse {
        attributes: Some(AttributeResponse {
            vault: PaypalVaultResponse {
                id: "vault_9".to_string(),
                status: "VAULTED".to_string(),
                customer: CustomerId {
                    id: "c".to_string(),
                },
            },
        }),
    }));
    let outcome = orders_response(&response, None).ok().unwrap();
    assert_eq!(outcome.status, AttemptStatus::Authorized);
    let meta = outcome.response.connector_metadata.unwrap();
    assert_eq!(meta.authorize_id.as_deref(), Some("auth_1"));
    assert_eq!(meta.incremental_authorization_id.as_deref(), Some("auth_1"));
    assert!(meta.capture_id.is_none());
    assert_eq!(
        outcome.response.connector_response_reference_id.as_deref(),
        Some("order_1")
    );
    assert_eq!(
        outcome
            .response
            .mandate_reference
            .unwrap()
            .connector_mandate_id
            .as_deref(),
        Some("vault_9")
    );
}

#[test]
fn order_state_is_told_by_captures_before_authorizations() {
    let response = order(
        PaypalPaymentIntent::Authorize,
        Some(vec![item("auth_1", PaypalPaymentStatus::Created)]),
        Some(vec![item("cap_1", PaypalPaymentStatus::Declined)]),
    );
    let outcome = orders_response(&response, None).ok().unwrap();
    assert_eq!(outcome.status, AttemptStatus::Failure);
    assert_eq!(
        outcome
            .response
            .connector_metadata
            .unwrap()
            .authorize_id
            .as_deref(),
        Some("auth_1")
    );
}

#[test]
fn unreadable_orders_are_rejected() {
    let mut empty = order(PaypalPaymentIntent::Capture, None, None);
    empty.purchase_units.clear();
    assert!(matches!(
        orders_response(&empty, None),
        Err(ConnectorError::MissingConnectorTransactionID)
    ));
    assert!(matches!(
        orders_response(&order(PaypalPaymentIntent::Capture, None, None), None),
        Err(ConnectorError::MissingConnectorTransactionID)
    ));
    assert!(matches!(
        orders_response(
            &order(
                PaypalPaymentIntent::Authenticate,
                Some(vec![item("a", PaypalPaymentStatus::Created)]),
                None
            ),
            None
        ),
        Err(ConnectorError::MissingConnectorTransactionID)
    ));
    assert!(matches!(
        orders_response(
            &order(
                PaypalPaymentIntent::Authorize,
                Some(vec![item("a", PaypalPaymentStatus::Created)]),
                Some(Vec::new())
            ),
            None
        ),
        Err(ConnectorError::ResponseDeserializationFailed)
    ));
}

#[test]
fn redirect_order_sends_the_payer_on() {
    let response = redirect(payer_action("https://www.paypal.com/checkoutnow?token=T1"));
    let outcome = redirect_authorize_response(&response).ok().unwrap();
    assert_eq!(outcome.status, AttemptStatus::AuthenticationPending);
    assert_eq!(id_of(&outcome.response.resource_id), Some("order_2"));
    let form = outcome.response.redirection_data.unwrap();
    assert_eq!(form.endpoint, "https://www.paypal.com/checkoutnow");
    assert_eq!(form.method, Method::Get);
    assert_eq!(form.form_fields, vec![("token".to_string(), "T1".to_string())]);
    let meta = outcome.response.connector_metadata.unwrap();
    assert!(meta.next_action.is_none());
    assert_eq!(meta.psync_flow, PaypalPaymentIntent::Capture);
    assert_eq!(
        outcome.response.connector_response_reference_id.as_deref(),
        Some("inv_2")
    );
    let mut unitless = redirect(payer_action("https://www.paypal.com/x"));
    unitless.purchase_units.clear();
    let outcome = redirect_authorize_response(&unitless).ok().unwrap();
    assert_eq!(
        outcome.response.connector_response_reference_id.as_deref(),
        Some("order_2")
    );
}

#[test]
fn redirect_order_without_a_link_cannot_be_read() {
    assert!(matches!(
        redirect_authorize_response(&redirect(Vec::new())),
        Err(ConnectorError::ResponseDeserializationFailed)
    ));
    assert!(matches!(
        redirect_sync_response(&redirect(payer_action("not a url")), None),
        Err(ConnectorError::ResponseDeserializationFailed)
    ));
}

#[test]
fn synced_redirect_order_completes_the_authorization_for_the_sdk() {
    let response = redirect(payer_action("https://www.paypal.com/checkoutnow"));
    let sdk = redirect_sync_response(&response, Some(PaymentExperience::InvokeSdkClient))
        .ok()
        .unwrap();
    assert_eq!(
        sdk.response.connector_metadata.unwrap().next_action,
        Some(NextActionCall::CompleteAuthorize)
    );
    for experience in [None, Some(PaymentExperience::RedirectToUrl)] {
        let other = redirect_sync_response(&response, experience).ok().unwrap();
        assert!(other.response.connector_metadata.unwrap().next_action.is_none());
    }
}

#[test]
fn post_session_tokens_order_is_to_be_confirmed() {
    let outcome = post_session_tokens_response(&redirect(Vec::new()));
    assert_eq!(outcome.status, AttemptStatus::AuthenticationPending);
    assert!(id_of(&outcome.response.resource_id).is_none());
    let meta = outcome.response.connector_metadata.unwrap();
    assert_eq!(meta.next_action, Some(NextActionCall::Confirm));
    assert_eq!(meta.order_id.as_deref(), Some("order_2"));
    assert!(outcome.response.redirection_data.is_none());
}

#[test]
fn threeds_order_sends_the_payer_to_authenticate() {
    let response = PaypalThreeDsResponse {
        id: "order_3".to_string(),
        status: PaypalOrderStatus::PayerActionRequired,
        links: payer_action("https://www.paypal.com/3ds?flow=x"),
    };
    let outcome = threeds_response(&response, &Some("https://shop.example/back".to_string()))
        .ok()
        .unwrap();
    assert_eq!(outcome.status, AttemptStatus::AuthenticationPending);
    let form = outcome.response.redirection_data.unwrap();
    assert_eq!(form.endpoint, "https://www.paypal.com/3ds");
    let mut fields = form.form_fields.clone();
    fields.sort();
    assert_eq!(
        fields,
        vec![
            ("flow".to_string(), "x".to_string()),
            (
                "redirect_uri".to_string(),
                "https://shop.example/back".to_string()
            ),
        ]
    );
    assert_eq!(
        outcome.response.connector_metadata.unwrap().psync_flow,
        PaypalPaymentIntent::Authenticate
    );
    assert!(matches!(
        threeds_response(&response, &None),
        Err(ConnectorError::MissingRequiredField {
            field_name: "complete_authorize_url"
        })
    ));
    let synced = threeds_sync_response(PaypalThreeDsSyncResponse {
        id: "order_3".to_string(),
        status: PaypalOrderStatus::Created,
        payment_source: CardsData {
            card: CardDetails {
                last_digits: "1111".to_string(),
            },
        },
    });
    assert_eq!(synced.status, AttemptStatus::AuthenticationPending);
    assert_eq!(id_of(&synced.response.resource_id), Some("order_3"));
    assert!(synced.response.connector_metadata.is_none());
}

#[test]
fn synced_payment_is_referred_to_by_its_order() {
    let sync = |invoice: Option<&str>| PaypalPaymentsSyncResponse {
        id: "pay_1".to_string(),
        status: PaypalPaymentStatus::PartiallyCaptured,
        amount: amount(),
        invoice_id: invoice.map(|i| i.to_string()),
        supplementary_data: PaypalSupplementaryData {
            related_ids: PaypalRelatedIds {
                order_id: "order_5".to_string(),
            },
        },
    };
    let outcome = payments_sync_response(sync(Some("inv_5")));
    assert_eq!(outcome.status, AttemptStatus::PartialCharged);
    assert_eq!(id_of(&outcome.response.resource_id), Some("order_5"));
    assert_eq!(
        outcome.response.connector_response_reference_id.as_deref(),
        Some("inv_5")
    );
    let outcome = payments_sync_response(sync(None));
    assert_eq!(
        outcome.response.connector_response_reference_id.as_deref(),
        Some("order_5")
    );
}

#[test]
fn mandate_setup_is_charged_on_201_only() {
    let (status, response) = setup_mandate_response(mandate("token_1"), 201);
    assert_eq!(status, AttemptStatus::Charged);
    assert_eq!(id_of(&response.resource_id), Some("token_1"));
    assert_eq!(
        response.mandate_reference.unwrap().connector_mandate_id.as_deref(),
        Some("token_1")
    );
    assert_eq!(
        response.connector_response_reference_id.as_deref(),
        Some("token_1")
    );
    for code in [200, 202, 400, 500] {
        assert_eq!(
            setup_mandate_response(mandate("t"), code).0,
            AttemptStatus::Failure
        );
    }
}

#[test]
fn capture_reports_the_amount_only_when_funds_were_taken() {
    let capture = |status| PaypalCaptureResponse {
        id: "cap_7".to_string(),
        status,
        amount: None,
        invoice_id: None,
        final_capture: true,
        payment_source: None,
    };
    let taken = capture_response(
        capture(PaypalPaymentStatus::Completed),
        StoredMeta::Found(stored(Some("auth_7"))),
        "txn_7".to_string(),
        650,
    )
    .ok()
    .unwrap();
    assert_eq!(taken.status, AttemptStatus::Charged);
    assert_eq!(taken.amount_captured, Some(650));
    assert_eq!(id_of(&taken.response.resource_id), Some("txn_7"));
    let meta = taken.response.connector_metadata.unwrap();
    assert_eq!(meta.authorize_id.as_deref(), Some("auth_7"));
    assert_eq!(meta.capture_id.as_deref(), Some("cap_7"));
    assert_eq!(meta.psync_flow, PaypalPaymentIntent::Capture);
    assert_eq!(
        taken.response.connector_response_reference_id.as_deref(),
        Some("cap_7")
    );
    for status in [
        PaypalPaymentStatus::Pending,
        PaypalPaymentStatus::Declined,
        PaypalPaymentStatus::Failed,
        PaypalPaymentStatus::Created,
        PaypalPaymentStatus::Voided,
    ] {
        let outcome = capture_response(
            capture(status),
            StoredMeta::Found(stored(None)),
            "txn".to_string(),
            650,
        )
        .ok()
        .unwrap();
        assert_eq!(outcome.amount_captured, Some(0));
    }
    let partial = capture_response(
        capture(PaypalPaymentStatus::PartiallyCaptured),
        StoredMeta::Found(stored(None)),
        "txn".to_string(),
        650,
    )
    .ok()
    .unwrap();
    assert_eq!(partial.amount_captured, Some(650));
    assert!(matches!(
        capture_response(
            capture(PaypalPaymentStatus::Completed),
            StoredMeta::Missing,
            "txn".to_string(),
            1
        ),
        Err(ConnectorError::MissingRequiredField {
            field_name: "connector_meta"
        })
    ));
    assert!(matches!(
        capture_response(
            capture(PaypalPaymentStatus::Completed),
            StoredMeta::Invalid,
            "txn".to_string(),
            1
        ),
        Err(ConnectorError::ResponseDeserializationFailed)
    ));
}

#[test]
fn other_responses_map_to_the_platform() {
    let cancelled = cancel_response(PaypalPaymentsCancelResponse {
        id: "void_1".to_string(),
        status: PaypalCancelStatus::Voided,
        amount: None,
        invoice_id: Some("inv_v".to_string()),
    });
    assert_eq!(cancelled.status, AttemptStatus::Voided);
    assert_eq!(id_of(&cancelled.response.resource_id), Some("void_1"));
    assert_eq!(
        cancelled.response.connector_response_reference_id.as_deref(),
        Some("inv_v")
    );
    let refunded = refund_response(RefundResponse {
        id: "ref_1".to_string(),
        status: RefundStatus::Completed,
        amount: None,
    });
    assert_eq!(refunded.connector_refund_id, "ref_1");
    assert_eq!(
        refunded.refund_status,
        payment_routing::connectors::types::RefundStatus::Success
    );
    let synced = refund_sync_response(RefundSyncResponse {
        id: "ref_2".to_string(),
        status: RefundStatus::Failed,
    });
    assert_eq!(
        synced.refund_status,
        payment_routing::connectors::types::RefundStatus::Failure
    );
    let payout = fulfill_response(PaypalFulfillResponse {
        batch_header: PaypalBatchResponse {
            payout_batch_id: "batch_1".to_string(),
            batch_status: PaypalFulfillStatus::Processing,
        },
    });
    assert_eq!(payout.status, Some(PayoutStatus::Pending));
    assert_eq!(payout.connector_payout_id.as_deref(), Some("batch_1"));
    let token = access_token_response(PaypalAuthUpdateResponse {
        access_token: Secret::new("tok".to_string()),
        token_type: "Bearer".to_string(),
        expires_in: 3600,
    });
    assert_eq!(token.token.peek(), "tok");
    assert_eq!(token.expires, 3600);
    let increment = incremental_authorization_response(PaypalIncrementalAuthResponse {
        status: PaypalIncrementalStatus::PENDING,
        status_details: PaypalIncrementalAuthStatusDetails {
            reason: PaypalStatusPendingReason::PENDINGREVIEW,
        },
        id: "incr_1".to_string(),
        invoice_id: "inv".to_string(),
        custom_id: "custom".to_string(),
        links: Vec::new(),
        amount: amount(),
        network_transaction_reference: PaypalNetworkTransactionReference {
            id: "net".to_string(),
        },
        expiration_time: "t1".to_string(),
        create_time: "t2".to_string(),
        update_time: "t3".to_string(),
        supplementary_data: PaypalSupplementaryData {
            related_ids: PaypalRelatedIds {
                order_id: "o".to_string(),
            },
        },
    });
    assert_eq!(increment.status, AuthorizationStatus::Processing);
    assert_eq!(increment.connector_authorization_id.as_deref(), Some("incr_1"));
    assert!(increment.error_code.is_none());
    assert!(increment.error_message.is_none());
}

#[test]
fn sync_is_read_by_the_form_of_its_response() {
    let synced_order = sync_response(
        PaypalSyncResponse::PaypalOrdersSyncResponse(order(
            PaypalPaymentIntent::Capture,
            None,
            Some(vec![item("cap_1", PaypalPaymentStatus::Pending)]),
        )),
        None,
        Some(false),
    )
    .ok()
    .unwrap();
    assert_eq!(synced_order.status, AttemptStatus::Pending);
    assert_eq!(
        synced_order.response.incremental_authorization_allowed,
        Some(false)
    );
    let synced_redirect = sync_response(
        PaypalSyncResponse::PaypalRedirectSyncResponse(redirect(payer_action(
            "https://www.paypal.com/checkoutnow?token=T",
        ))),
        Some(PaymentExperience::InvokeSdkClient),
        None,
    )
    .ok()
    .unwrap();
    assert_eq!(
        synced_redirect.response.connector_metadata.unwrap().next_action,
        Some(NextActionCall::CompleteAuthorize)
    );
    let synced_payment = sync_response(
        PaypalSyncResponse::PaypalPaymentsSyncResponse(PaypalPaymentsSyncResponse {
            id: "pay".to_string(),
            status: PaypalPaymentStatus::Voided,
            amount: amount(),
            invoice_id: None,
            supplementary_data: PaypalSupplementaryData {
                related_ids: PaypalRelatedIds {
                    order_id: "order_6".to_string(),
                },
            },
        }),
        None,
        None,
    )
    .ok()
    .unwrap();
    assert_eq!(synced_payment.status, AttemptStatus::Voided);
    assert_eq!(id_of(&synced_payment.response.resource_id), Some("order_6"));
    let synced_threeds = sync_response(
        PaypalSyncResponse::PaypalThreeDsSyncResponse(PaypalThreeDsSyncResponse {
            id: "order_7".to_string(),
            status: PaypalOrderStatus::Created,
            payment_source: CardsData {
                card: CardDetails {
                    last_digits: "4242".to_string(),
                },
            },
        }),
        None,
        None,
    )
    .ok()
    .unwrap();
    assert_eq!(synced_threeds.status, AttemptStatus::AuthenticationPending);
    assert!(matches!(
        sync_response(
            PaypalSyncResponse::PaypalRedirectSyncResponse(redirect(Vec::new())),
            None,
            None
        ),
        Err(ConnectorError::ResponseDeserializationFailed)
    ));
}
