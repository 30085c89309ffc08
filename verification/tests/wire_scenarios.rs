use payment_routing::enums::RoutableConnectors;
use payment_routing::errors::ParsingError;
use payment_routing::ids::MerchantConnectorAccountId;
use payment_routing::routing::algorithm::{
    RoutingAlgorithmSerde, StaticRoutingAlgorithm, StraightThroughAlgorithm,
    StraightThroughAlgorithmInner, StraightThroughAlgorithmSerde,
};
use payment_routing::routing::connector_choice::{
    ConnectorVolumeSplit, RoutableChoiceKind, RoutableChoiceSerde, RoutableConnectorChoice,
};
use serde_json::Value;

fn read_choice(value: &Value) -> Option<RoutableConnectorChoice> {
    let shape = match value {
        Value::String(name) => {
            RoutableChoiceSerde::OnlyConnector(Box::new(RoutableConnectors::from_name(name)?))
        }
        Value::Object(fields) => RoutableChoiceSerde::FullStruct {
            connector: RoutableConnectors::from_name(fields.get("connector")?.as_str()?)?,
            merchant_connector_id: match fields.get("merchant_connector_id") {
                None | Some(Value::Null) => None,
                Some(Value::String(id)) => Some(MerchantConnectorAccountId::new(id.clone())),
                Some(_) => return None,
            },
        },
        _ => return None,
    };
    Some(RoutableConnectorChoice::from(shape))
}

fn write_choice(choice: RoutableConnectorChoice) -> Value {
    match RoutableChoiceSerde::from(choice) {
        RoutableChoiceSerde::OnlyConnector(connector) => Value::String(connector.to_string()),
        RoutableChoiceSerde::FullStruct {
            connector,
            merchant_connector_id,
        } => {
            let mut fields = serde_json::Map::new();
            fields.insert("connector".to_string(), Value::String(connector.to_string()));
            fields.insert(
                "merchant_connector_id".to_string(),
                match merchant_connector_id {
                    Some(id) => Value::String(id.get_string_repr().to_string()),
                    None => Value::Null,
                },
            );
            Value::Object(fields)
        }
    }
}

fn read_choices(value: &Value) -> Option<Vec<RoutableConnectorChoice>> {
    value.as_array()?.iter().map(read_choice).collect()
}

fn read_splits(value: &Value) -> Option<Vec<ConnectorVolumeSplit>> {
    value
        .as_array()?
        .iter()
        .map(|entry| {
            Some(ConnectorVolumeSplit {
                connector: read_choice(entry.get("connector")?)?,
                split: u8::try_from(entry.get("split")?.as_u64()?).ok()?,
            })
        })
        .collect()
}

fn read_inner(value: &Value) -> Option<StraightThroughAlgorithmInner> {
    let data = value.get("data")?;
    match value.get("type")?.as_str()? {
        "single" => Some(StraightThroughAlgorithmInner::Single(Box::new(read_choice(
            data,
        )?))),
        "priority" => Some(StraightThroughAlgorithmInner::Priority(read_choices(data)?)),
        "volume_split" => Some(StraightThroughAlgorithmInner::VolumeSplit(read_splits(
            data,
        )?)),
        _ => None,
    }
}

fn read_static(text: &str) -> Result<StaticRoutingAlgorithm, ParsingError> {
    let value: Value = serde_json::from_str(text).unwrap();
    let shape = match read_inner(&value).unwrap() {
        StraightThroughAlgorithmInner::Single(choice) => RoutingAlgorithmSerde::Single(choice),
        StraightThroughAlgorithmInner::Priority(list) => RoutingAlgorithmSerde::Priority(list),
        StraightThroughAlgorithmInner::VolumeSplit(list) => {
            RoutingAlgorithmSerde::VolumeSplit(list)
        }
    };
    StaticRoutingAlgorithm::try_from(shape)
}

fn read_straight_through(text: &str) -> Result<StraightThroughAlgorithm, ParsingError> {
    let value: Value = serde_json::from_str(text).unwrap();
    let shape = match read_inner(&value) {
        Some(inner) => StraightThroughAlgorithmSerde::Direct(inner),
        None => StraightThroughAlgorithmSerde::Nested {
            algorithm: read_inner(value.get("algorithm").unwrap()).unwrap(),
        },
    };
    StraightThroughAlgorithm::try_from(shape)
}

fn envelope_of(algorithm: StraightThroughAlgorithm) -> &'static str {
    match StraightThroughAlgorithmSerde::from(algorithm) {
        StraightThroughAlgorithmSerde::Direct(_) => "direct",
        StraightThroughAlgorithmSerde::Nested { .. } => "nested",
    }
}

#[test]
fn bare_connector_json_round_trips_as_a_string() {
    let written: Value = serde_json::from_str("\"stripe\"").unwrap();
    let choice = read_choice(&written).unwrap();
    assert_eq!(choice.choice_kind, RoutableChoiceKind::OnlyConnector);
    assert_eq!(write_choice(choice), written);
}

#[test]
fn struct_connector_json_round_trips_as_a_struct() {
    for text in [
        r#"{"connector":"stripe","merchant_connector_id":null}"#,
        r#"{"connector":"adyen","merchant_connector_id":"mca_123"}"#,
    ] {
        let written: Value = serde_json::from_str(text).unwrap();
        let choice = read_choice(&written).unwrap();
        assert_eq!(choice.choice_kind, RoutableChoiceKind::FullStruct);
        assert_eq!(write_choice(choice), written);
    }
}

#[test]
fn mixed_shapes_in_one_list_are_read_entry_by_entry() {
    let written: Value = serde_json::from_str(
        r#"["stripe", {"connector":"adyen","merchant_connector_id":"mca_1"}, "zen"]"#,
    )
    .unwrap();
    let list = read_choices(&written).unwrap();
    assert_eq!(list.len(), 3);
    assert_eq!(list[0].choice_kind, RoutableChoiceKind::OnlyConnector);
    assert_eq!(list[1].choice_kind, RoutableChoiceKind::FullStruct);
    assert_eq!(list[2].to_string(), "zen");
    let broken: Value = serde_json::from_str(r#"["stripe", "no_such_connector"]"#).unwrap();
    assert!(read_choices(&broken).is_none());
}

#[test]
fn empty_priority_json_fails_to_parse() {
    assert_eq!(
        read_static(r#"{"type":"priority","data":[]}"#).unwrap_err(),
        ParsingError::StructParseFailure("Connectors list can't be empty for Priority Algorithm")
    );
}

#[test]
fn empty_volume_split_json_fails_to_parse() {
    assert_eq!(
        read_static(r#"{"type":"volume_split","data":[]}"#).unwrap_err(),
        ParsingError::StructParseFailure(
            "Connectors list can't be empty for Volume split Algorithm"
        )
    );
}

#[test]
fn single_stripe_json_parses() {
    match read_static(r#"{"type":"single","data":"stripe"}"#).unwrap() {
        StaticRoutingAlgorithm::Single(choice) => {
            assert_eq!(choice.connector, RoutableConnectors::Stripe);
            assert_eq!(choice.choice_kind, RoutableChoiceKind::OnlyConnector);
        }
        other => panic!("unexpected algorithm: {:?}", other),
    }
}

#[test]
fn volume_split_json_parses_with_its_weights() {
    match read_static(
        r#"{"type":"volume_split","data":[{"connector":"stripe","split":60},{"connector":{"connector":"adyen","merchant_connector_id":null},"split":40}]}"#,
    )
    .unwrap()
    {
        StaticRoutingAlgorithm::VolumeSplit(list) => {
            assert_eq!(list.len(), 2);
            assert_eq!(list[0].split, 60);
            assert_eq!(list[1].split, 40);
            assert_eq!(list[1].connector.choice_kind, RoutableChoiceKind::FullStruct);
        }
        other => panic!("unexpected algorithm: {:?}", other),
    }
}

#[test]
fn direct_and_wrapped_json_read_to_the_same_algorithm() {
    let direct = read_straight_through(
        r#"{"type":"single","data":{"connector":"stripe","merchant_connector_id":"mca_1"}}"#,
    )
    .unwrap();
    let wrapped = read_straight_through(
        r#"{"algorithm":{"type":"single","data":{"connector":"stripe","merchant_connector_id":"mca_1"}}}"#,
    )
    .unwrap();
    assert!(direct == wrapped);
    assert_eq!(envelope_of(direct), "nested");
    assert_eq!(envelope_of(wrapped), "nested");
}

#[test]
fn wrapped_empty_list_json_fails_to_parse() {
    assert_eq!(
        read_straight_through(r#"{"algorithm":{"type":"priority","data":[]}}"#).unwrap_err(),
        ParsingError::StructParseFailure("Connectors list can't be empty for Priority Algorithm")
    );
    assert_eq!(
        read_straight_through(r#"{"type":"volume_split","data":[]}"#).unwrap_err(),
        ParsingError::StructParseFailure(
            "Connectors list can't be empty for Volume split Algorithm"
        )
    );
}

#[test]
fn every_connector_is_read_back_from_its_name() {
    for connector in [
        RoutableConnectors::Adyenplatform,
        RoutableConnectors::Adyen,
        RoutableConnectors::Paypal,
        RoutableConnectors::Payu,
        RoutableConnectors::Payme,
        RoutableConnectors::Payone,
        RoutableConnectors::Stripe,
        RoutableConnectors::Zen,
        RoutableConnectors::Zsl,
    ] {
        assert_eq!(RoutableConnectors::from_name(connector.as_str()), Some(connector));
    }
    assert_eq!(RoutableConnectors::from_name("Stripe"), None);
    assert_eq!(RoutableConnectors::from_name("stripe "), None);
    assert_eq!(RoutableConnectors::from_name(""), None);
}
