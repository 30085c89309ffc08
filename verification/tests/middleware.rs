use payment_routing::connector_auth::{
    auth_type_of_config, AuthTable, BodyKey, ConfigValue, ConnectorAuthenticationMap,
    ConnectorConfig, HeaderKey, MultiAuthKey, SignatureKey,
};
use payment_routing::connectors::types::ConnectorAuthType;
use payment_routing::currency::Currency;
use payment_routing::json::JsonValue;
use payment_routing::middleware::{
    default_response_headers, AddAcceptLanguageHeaderMiddleware,
    Http400RequestDetailsLoggerMiddleware, LanguageAction, LogLevel, LogSpanInitializerMiddleware,
    RequestBody, RequestIdMiddleware, RequestResponseMetricsMiddleware,
};
use payment_routing::secret::Secret;

fn text(value: &str) -> Option<ConfigValue> {
    Some(ConfigValue::Text(value.to_string()))
}

fn table(
    api_key: Option<ConfigValue>,
    key1: Option<ConfigValue>,
    api_secret: Option<ConfigValue>,
    key2: Option<ConfigValue>,
) -> ConnectorConfig {
    ConnectorConfig::Table(AuthTable {
        auth_key_map: None,
        api_key,
        key1,
        api_secret,
        key2,
    })
}

#[test]
fn language_follows_the_query_then_the_header() {
    type M = AddAcceptLanguageHeaderMiddleware<()>;
    assert!(matches!(
        M::decide(Some("fr".to_string()), true),
        LanguageAction::Use(ref locale) if locale == "fr"
    ));
    assert!(matches!(
        M::decide(Some("de".to_string()), false),
        LanguageAction::Use(ref locale) if locale == "de"
    ));
    assert!(matches!(M::decide(None, true), LanguageAction::Keep));
    assert!(matches!(M::decide(None, false), LanguageAction::SetDefault));
}

#[test]
fn only_bad_requests_are_logged() {
    type M = Http400RequestDetailsLoggerMiddleware<()>;
    assert!(M::should_log(400));
    for status in [200, 399, 401, 404, 500] {
        assert!(!M::should_log(status));
        assert!(M::details_line(status, "req", &RequestBody::Empty).is_none());
    }
}

#[test]
fn bad_request_line_summarises_the_body() {
    type M = Http400RequestDetailsLoggerMiddleware<()>;
    let line = M::details_line(400, "req-1", &RequestBody::Empty).unwrap();
    assert_eq!(line.level, LogLevel::Info);
    assert_eq!(line.text, "request_id: req-1, request_details: Empty Body");
    let body = RequestBody::Json(JsonValue::Object(vec![
        ("amount".to_string(), JsonValue::Number("6540".to_string())),
        (
            "email".to_string(),
            JsonValue::String("a@b.example".to_string()),
        ),
    ]));
    let line = M::details_line(400, "req-2", &body).unwrap();
    assert_eq!(line.level, LogLevel::Info);
    assert_eq!(
        line.text,
        "request_id: req-2, request_details: [amount]: 4, [email]: 11"
    );
    let line = M::details_line(
        400,
        "req-3",
        &RequestBody::Invalid("expected value at line 1 column 1".to_string()),
    )
    .unwrap();
    assert_eq!(line.level, LogLevel::Warn);
    assert_eq!(
        line.text,
        "error while parsing the request in json value: expected value at line 1 column 1"
    );
}

#[test]
fn request_id_is_added_under_its_header() {
    let header = RequestIdMiddleware::<()>::response_header("abc-123".to_string());
    assert_eq!(header.name, "x-request-id");
    assert_eq!(header.value, "abc-123");
}

#[test]
fn tenant_is_taken_from_a_readable_header() {
    type M = LogSpanInitializerMiddleware<()>;
    assert_eq!(
        M::tenant_id(Some(Some("tenant_a".to_string()))),
        Some("tenant_a".to_string())
    );
    assert_eq!(M::tenant_id(Some(None)), None);
    assert_eq!(M::tenant_id(None), None);
}

#[test]
fn unmatched_requests_are_counted_as_unknown() {
    type M = RequestResponseMetricsMiddleware<()>;
    assert_eq!(M::request_path(Some("/payments/{id}".to_string())), "/payments/{id}");
    assert_eq!(M::request_path(None), "UNKNOWN");
}

#[test]
fn default_headers_are_security_and_via() {
    let headers = default_response_headers();
    assert_eq!(headers.len(), 2);
    assert_eq!(headers[0].name, "strict-transport-security");
    assert_eq!(
        headers[0].value,
        format!("max-age={}", 60 * 60 * 24 * 365)
    );
    assert_eq!(headers[1].name, "via");
    assert_eq!(headers[1].value, "HyperSwitch");
}

#[test]
fn middleware_wraps_its_service() {
    assert_eq!(RequestIdMiddleware::new(5u8).service, 5);
    assert_eq!(LogSpanInitializerMiddleware::new(6u8).service, 6);
    assert_eq!(Http400RequestDetailsLoggerMiddleware::new(7u8).service, 7);
    assert_eq!(AddAcceptLanguageHeaderMiddleware::new(8u8).service, 8);
    assert_eq!(RequestResponseMetricsMiddleware::new(9u8).service, 9);
}

#[test]
fn keys_decide_the_kind_of_credentials() {
    match auth_type_of_config(&table(text("k"), None, None, None)) {
        ConnectorAuthType::HeaderKey { api_key } => assert_eq!(api_key.peek(), "k"),
        _ => panic!("one key is a header key"),
    }
    match auth_type_of_config(&table(text("k"), text("k1"), None, None)) {
        ConnectorAuthType::BodyKey { api_key, key1 } => {
            assert_eq!(api_key.peek(), "k");
            assert_eq!(key1.peek(), "k1");
        }
        _ => panic!("two keys are a body key"),
    }
    match auth_type_of_config(&table(text("k"), text("k1"), text("s"), None)) {
        ConnectorAuthType::SignatureKey {
            api_key,
            key1,
            api_secret,
        } => {
            assert_eq!(api_key.peek(), "k");
            assert_eq!(key1.peek(), "k1");
            assert_eq!(api_secret.peek(), "s");
        }
        _ => panic!("three keys are a signature key"),
    }
    match auth_type_of_config(&table(text("k"), text("k1"), text("s"), text("k2"))) {
        ConnectorAuthType::MultiAuthKey {
            api_key,
            key1,
            api_secret,
            key2,
        } => {
            assert_eq!(api_key.peek(), "k");
            assert_eq!(key1.peek(), "k1");
            assert_eq!(api_secret.peek(), "s");
            assert_eq!(key2.peek(), "k2");
        }
        _ => panic!("four keys are a multi key"),
    }
}

#[test]
fn keys_out_of_order_are_no_key() {
    let cases = vec![
        table(None, None, None, None),
        table(None, text("k1"), None, None),
        table(text("k"), None, text("s"), None),
        table(text("k"), None, None, text("k2")),
        table(text("k"), text("k1"), None, text("k2")),
        ConnectorConfig::Other,
    ];
    for config in cases {
        assert!(matches!(
            auth_type_of_config(&config),
            ConnectorAuthType::NoKey
        ));
    }
}

#[test]
fn keys_that_are_no_strings_are_empty() {
    match auth_type_of_config(&table(Some(ConfigValue::Other), text("k1"), None, None)) {
        ConnectorAuthType::BodyKey { api_key, key1 } => {
            assert_eq!(api_key.peek(), "");
            assert_eq!(key1.peek(), "k1");
        }
        _ => panic!("two keys are a body key"),
    }
}

#[test]
fn keys_by_currency_keep_known_currencies_only() {
    let config = ConnectorConfig::Table(AuthTable {
        auth_key_map: Some(ConfigValue::Table(vec![
            ("USD".to_string(), "\"usd_key\"".to_string()),
            ("XXX_NOT".to_string(), "\"ignored\"".to_string()),
            ("EUR".to_string(), "\"eur_key\"".to_string()),
        ])),
        api_key: text("ignored"),
        key1: None,
        api_secret: None,
        key2: None,
    });
    match auth_type_of_config(&config) {
        ConnectorAuthType::CurrencyAuthKey { auth_key_map } => {
            let keys: Vec<(Currency, String)> = auth_key_map
                .iter()
                .map(|(currency, key)| (*currency, key.peek().to_string()))
                .collect();
            assert_eq!(
                keys,
                vec![
                    (Currency::USD, "\"usd_key\"".to_string()),
                    (Currency::EUR, "\"eur_key\"".to_string()),
                ]
            );
        }
        _ => panic!("keys by currency are a currency key"),
    }
    let not_a_table = ConnectorConfig::Table(AuthTable {
        auth_key_map: text("oops"),
        api_key: text("k"),
        key1: None,
        api_secret: None,
        key2: None,
    });
    assert!(matches!(
        auth_type_of_config(&not_a_table),
        ConnectorAuthType::NoKey
    ));
}

#[test]
fn credentials_map_keeps_names_and_order() {
    let map = ConnectorAuthenticationMap::from_configs(&vec![
        ("stripe".to_string(), table(text("sk"), None, None, None)),
        ("paypal".to_string(), table(text("s"), text("id"), None, None)),
        ("broken".to_string(), ConnectorConfig::Other),
    ]);
    let inner = map.inner();
    assert_eq!(inner.len(), 3);
    assert_eq!(inner[0].0, "stripe");
    assert!(matches!(inner[0].1, ConnectorAuthType::HeaderKey { .. }));
    assert_eq!(inner[1].0, "paypal");
    assert!(matches!(inner[1].1, ConnectorAuthType::BodyKey { .. }));
    assert_eq!(inner[2].0, "broken");
    assert!(matches!(inner[2].1, ConnectorAuthType::NoKey));
}

#[test]
fn key_structs_become_credentials() {
    let secret = |s: &str| Secret::new(s.to_string());
    assert!(matches!(
        ConnectorAuthType::from(HeaderKey { api_key: secret("a") }),
        ConnectorAuthType::HeaderKey { ref api_key } if api_key.peek() == "a"
    ));
    assert!(matches!(
        ConnectorAuthType::from(BodyKey { api_key: secret("a"), key1: secret("b") }),
        ConnectorAuthType::BodyKey { ref api_key, ref key1 }
            if api_key.peek() == "a" && key1.peek() == "b"
    ));
    assert!(matches!(
        ConnectorAuthType::from(SignatureKey {
            api_key: secret("a"),
            key1: secret("b"),
            api_secret: secret("c"),
        }),
        ConnectorAuthType::SignatureKey { ref api_secret, .. } if api_secret.peek() == "c"
    ));
    assert!(matches!(
        ConnectorAuthType::from(MultiAuthKey {
            api_key: secret("a"),
            key1: secret("b"),
            api_secret: secret("c"),
            key2: secret("d"),
        }),
        ConnectorAuthType::MultiAuthKey { ref key2, .. } if key2.peek() == "d"
    ));
}
