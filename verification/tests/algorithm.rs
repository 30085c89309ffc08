use payment_routing::enums::RoutableConnectors;
use payment_routing::errors::ParsingError;
use payment_routing::ids::{MerchantConnectorAccountId, RoutingId};
use payment_routing::routing::algorithm::{
    RoutingAlgorithmKind, RoutingAlgorithmRef, RoutingAlgorithmSerde, StaticRoutingAlgorithm,
    StraightThroughAlgorithm, StraightThroughAlgorithmInner, StraightThroughAlgorithmSerde,
};
use payment_routing::routing::connector_choice::{
    ConnectorVolumeSplit, RoutableChoiceKind, RoutableConnectorChoice,
};
use payment_routing::routing::program::{Program, ThreeDSDecision, ThreeDSDecisionRule};

fn stripe() -> RoutableConnectorChoice {
    RoutableConnectorChoice {
        choice_kind: RoutableChoiceKind::OnlyConnector,
        connector: RoutableConnectors::Stripe,
        merchant_connector_id: None,
    }
}

fn adyen_account() -> RoutableConnectorChoice {
    RoutableConnectorChoice {
        choice_kind: RoutableChoiceKind::FullStruct,
        connector: RoutableConnectors::Adyen,
        merchant_connector_id: Some(MerchantConnectorAccountId::new("mca_1".to_string())),
    }
}

fn three_ds_program() -> Program<ThreeDSDecisionRule> {
    Program {
        default_selection: ThreeDSDecisionRule {
            decision: ThreeDSDecision::NoThreeDs,
        },
        rules: Vec::new(),
        metadata: std::collections::HashMap::new(),
    }
}

#[test]
fn empty_priority_list_is_rejected() {
    let result = StaticRoutingAlgorithm::try_from(RoutingAlgorithmSerde::Priority(Vec::new()));
    assert_eq!(
        result.unwrap_err(),
        ParsingError::StructParseFailure("Connectors list can't be empty for Priority Algorithm")
    );
}

#[test]
fn empty_volume_split_is_rejected() {
    let result = StaticRoutingAlgorithm::try_from(RoutingAlgorithmSerde::VolumeSplit(Vec::new()));
    let error = result.unwrap_err();
    assert_eq!(
        error.reason(),
        "Connectors list can't be empty for Volume split Algorithm"
    );
}

#[test]
fn single_connector_is_accepted() {
    let result =
        StaticRoutingAlgorithm::try_from(RoutingAlgorithmSerde::Single(Box::new(stripe())));
    match result {
        Ok(StaticRoutingAlgorithm::Single(choice)) => {
            assert_eq!(choice.connector, RoutableConnectors::Stripe);
            assert_eq!(choice.choice_kind, RoutableChoiceKind::OnlyConnector);
        }
        other => panic!("unexpected result: {:?}", other),
    }
}

#[test]
fn non_empty_lists_pass_through_unchanged() {
    let priority = StaticRoutingAlgorithm::try_from(RoutingAlgorithmSerde::Priority(vec![
        stripe(),
        adyen_account(),
    ]))
    .unwrap();
    match priority {
        StaticRoutingAlgorithm::Priority(list) => {
            assert_eq!(list.len(), 2);
            assert!(list[0] == stripe());
            assert!(list[1] == adyen_account());
        }
        other => panic!("unexpected algorithm: {:?}", other),
    }
    let split = StaticRoutingAlgorithm::try_from(RoutingAlgorithmSerde::VolumeSplit(vec![
        ConnectorVolumeSplit {
            connector: stripe(),
            split: 100,
        },
    ]))
    .unwrap();
    match split {
        StaticRoutingAlgorithm::VolumeSplit(list) => {
            assert_eq!(list.len(), 1);
            assert_eq!(list[0].split, 100);
        }
        other => panic!("unexpected algorithm: {:?}", other),
    }
}

#[test]
fn kind_follows_the_variant() {
    assert_eq!(
        StaticRoutingAlgorithm::Single(Box::new(stripe())).get_kind(),
        RoutingAlgorithmKind::Single
    );
    assert_eq!(
        StaticRoutingAlgorithm::Priority(vec![stripe()]).get_kind(),
        RoutingAlgorithmKind::Priority
    );
    assert_eq!(
        StaticRoutingAlgorithm::VolumeSplit(vec![ConnectorVolumeSplit {
            connector: stripe(),
            split: 1
        }])
        .get_kind(),
        RoutingAlgorithmKind::VolumeSplit
    );
    assert_eq!(
        StaticRoutingAlgorithm::ThreeDsDecisionRule(three_ds_program()).get_kind(),
        RoutingAlgorithmKind::ThreeDsDecisionRule
    );
}

#[test]
fn only_three_ds_rules_skip_connector_validation() {
    assert!(!StaticRoutingAlgorithm::ThreeDsDecisionRule(three_ds_program())
        .should_validate_connectors_in_routing_config());
    assert!(StaticRoutingAlgorithm::Single(Box::new(stripe()))
        .should_validate_connectors_in_routing_config());
    assert!(StaticRoutingAlgorithm::Priority(vec![stripe()])
        .should_validate_connectors_in_routing_config());
    assert!(StaticRoutingAlgorithm::VolumeSplit(vec![ConnectorVolumeSplit {
        connector: stripe(),
        split: 1
    }])
    .should_validate_connectors_in_routing_config());
}

#[test]
fn kind_names_are_snake_case() {
    assert_eq!(RoutingAlgorithmKind::Single.to_string(), "single");
    assert_eq!(RoutingAlgorithmKind::VolumeSplit.to_string(), "volume_split");
    assert_eq!(
        RoutingAlgorithmKind::ThreeDsDecisionRule.to_string(),
        "three_ds_decision_rule"
    );
    assert_eq!(RoutingAlgorithmKind::Dynamic.to_string(), "dynamic");
}

#[test]
fn both_envelopes_read_to_the_same_value() {
    let direct = StraightThroughAlgorithm::try_from(StraightThroughAlgorithmSerde::Direct(
        StraightThroughAlgorithmInner::Single(Box::new(adyen_account())),
    ))
    .unwrap();
    let nested = StraightThroughAlgorithm::try_from(StraightThroughAlgorithmSerde::Nested {
        algorithm: StraightThroughAlgorithmInner::Single(Box::new(adyen_account())),
    })
    .unwrap();
    assert!(direct == nested);
    let other = StraightThroughAlgorithm::Single(Box::new(stripe()));
    assert!(direct != other);
}

#[test]
fn straight_through_is_always_written_nested() {
    let algorithms = vec![
        StraightThroughAlgorithm::Single(Box::new(stripe())),
        StraightThroughAlgorithm::Priority(vec![stripe(), adyen_account()]),
        StraightThroughAlgorithm::VolumeSplit(vec![ConnectorVolumeSplit {
            connector: stripe(),
            split: 40,
        }]),
    ];
    for algorithm in algorithms {
        match StraightThroughAlgorithmSerde::from(algorithm) {
            StraightThroughAlgorithmSerde::Nested { .. } => {}
            StraightThroughAlgorithmSerde::Direct(_) => panic!("written without its envelope"),
        }
    }
}

#[test]
fn straight_through_round_trips() {
    let written = StraightThroughAlgorithmSerde::from(StraightThroughAlgorithm::Priority(vec![
        stripe(),
        adyen_account(),
    ]));
    let read = StraightThroughAlgorithm::try_from(written).unwrap();
    assert!(read == StraightThroughAlgorithm::Priority(vec![stripe(), adyen_account()]));
}

#[test]
fn empty_straight_through_lists_are_rejected_in_both_envelopes() {
    let direct = StraightThroughAlgorithm::try_from(StraightThroughAlgorithmSerde::Direct(
        StraightThroughAlgorithmInner::Priority(Vec::new()),
    ));
    assert_eq!(
        direct.unwrap_err(),
        ParsingError::StructParseFailure("Connectors list can't be empty for Priority Algorithm")
    );
    let nested = StraightThroughAlgorithm::try_from(StraightThroughAlgorithmSerde::Nested {
        algorithm: StraightThroughAlgorithmInner::VolumeSplit(Vec::new()),
    });
    assert_eq!(
        nested.unwrap_err(),
        ParsingError::StructParseFailure(
            "Connectors list can't be empty for Volume split Algorithm"
        )
    );
}

#[test]
fn straight_through_becomes_a_static_algorithm_of_its_kind() {
    let algorithm = StaticRoutingAlgorithm::from(StraightThroughAlgorithm::Priority(vec![stripe()]));
    assert_eq!(algorithm.get_kind(), RoutingAlgorithmKind::Priority);
    let algorithm = StaticRoutingAlgorithm::from(StraightThroughAlgorithm::Single(Box::new(stripe())));
    assert_eq!(algorithm.get_kind(), RoutingAlgorithmKind::Single);
}

#[test]
fn setters_change_one_id_and_the_timestamp() {
    let mut reference = RoutingAlgorithmRef::default();
    assert!(reference.algorithm_id.is_none());
    assert_eq!(reference.timestamp, 0);
    reference.update_algorithm_id_at(RoutingId::new("routing_1".to_string()), 1_700_000_000);
    assert_eq!(
        reference.algorithm_id.as_ref().unwrap().get_string_repr(),
        "routing_1"
    );
    assert_eq!(reference.timestamp, 1_700_000_000);
    assert!(reference.config_algo_id.is_none());
    reference.update_conditional_config_id_at("config_1".to_string(), 1_700_000_100);
    assert_eq!(reference.config_algo_id.as_deref(), Some("config_1"));
    assert_eq!(reference.timestamp, 1_700_000_100);
    reference.update_surcharge_config_id_at("surcharge_1".to_string(), 1_700_000_200);
    assert_eq!(
        reference.surcharge_config_algo_id.as_deref(),
        Some("surcharge_1")
    );
    assert_eq!(reference.timestamp, 1_700_000_200);
    assert_eq!(
        reference.algorithm_id.as_ref().unwrap().get_string_repr(),
        "routing_1"
    );
}

#[test]
fn setters_stamp_the_current_time() {
    let mut reference = RoutingAlgorithmRef::default();
    reference.update_algorithm_id(RoutingId::new("routing_1".to_string()));
    assert!(reference.timestamp > 1_600_000_000);
    let first = reference.timestamp;
    reference.update_conditional_config_id("config".to_string());
    assert!(reference.timestamp >= first);
    reference.update_surcharge_config_id("surcharge".to_string());
    assert_eq!(reference.config_algo_id.as_deref(), Some("config"));
    assert_eq!(reference.surcharge_config_algo_id.as_deref(), Some("surcharge"));
}

#[test]
fn stored_reference_is_read_or_absent_or_an_error() {
    assert!(RoutingAlgorithmRef::parse_routing_algorithm(None)
        .unwrap()
        .is_none());
    let read = RoutingAlgorithmRef::parse_routing_algorithm(Some(Ok(RoutingAlgorithmRef {
        algorithm_id: None,
        timestamp: 7,
        config_algo_id: None,
        surcharge_config_algo_id: None,
    })))
    .unwrap()
    .unwrap();
    assert_eq!(read.timestamp, 7);
    let failed = RoutingAlgorithmRef::parse_routing_algorithm(Some(Err(
        ParsingError::StructParseFailure("RoutingAlgorithmRef"),
    )));
    assert_eq!(
        failed.unwrap_err(),
        ParsingError::StructParseFailure("RoutingAlgorithmRef")
    );
}
