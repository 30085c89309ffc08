use payment_routing::enums::RoutableConnectors;
use payment_routing::ids::{MerchantConnectorAccountId, MerchantId, ProfileId, RoutingId};
use payment_routing::routing::api::{RuleMigrationQuery, RuleMigrationResponse};
use payment_routing::routing::connector_choice::{DeRoutableConnectorChoice, RoutableChoiceKind};
use payment_routing::routing::evaluate::deserialize_connector_choices;
use payment_routing::routing::events::{RoutingApproach, RoutingResultSource};
use payment_routing::routing::value::{ComparisonType, NumberComparison};

fn query(limit: Option<u32>) -> RuleMigrationQuery {
    RuleMigrationQuery {
        profile_id: ProfileId::new("profile".to_string()),
        merchant_id: MerchantId::new("merchant".to_string()),
        limit,
        offset: None,
    }
}

#[test]
fn known_tags_map_to_their_approach() {
    assert_eq!(
        RoutingApproach::from_decision_engine_approach("SR_SELECTION_V3_ROUTING"),
        RoutingApproach::Exploitation
    );
    assert_eq!(
        RoutingApproach::from_decision_engine_approach("SR_V3_HEDGING"),
        RoutingApproach::Exploration
    );
}

#[test]
fn unknown_tags_degrade_to_default() {
    for tag in [
        "anything_else",
        "",
        "sr_v3_hedging",
        "SR_V3_HEDGING ",
        "SR_SELECTION_V3_ROUTING_X",
        "Elimination",
    ] {
        assert_eq!(
            RoutingApproach::from_decision_engine_approach(tag),
            RoutingApproach::Default
        );
    }
}

#[test]
fn approach_names_are_the_variant_names() {
    assert_eq!(RoutingApproach::Exploitation.to_string(), "Exploitation");
    assert_eq!(RoutingApproach::Exploration.to_string(), "Exploration");
    assert_eq!(RoutingApproach::Elimination.to_string(), "Elimination");
    assert_eq!(RoutingApproach::ContractBased.to_string(), "ContractBased");
    assert_eq!(RoutingApproach::Default.to_string(), "Default");
}

#[test]
fn result_source_round_trips_through_its_name() {
    for source in [
        RoutingResultSource::DecisionEngine,
        RoutingResultSource::HyperswitchRouting,
    ] {
        assert_eq!(
            RoutingResultSource::from_name(&source.to_string()),
            Some(source)
        );
    }
    assert_eq!(
        RoutingResultSource::DecisionEngine.to_string(),
        "decision_engine"
    );
    assert_eq!(
        RoutingResultSource::HyperswitchRouting.to_string(),
        "hyperswitch_routing"
    );
    assert_eq!(RoutingResultSource::from_name("DecisionEngine"), None);
    assert_eq!(RoutingResultSource::from_name(""), None);
}

#[test]
fn migration_limit_defaults_to_fifty_and_is_capped_at_a_thousand() {
    assert_eq!(query(None).validated_limit(), 50);
    assert_eq!(query(Some(0)).validated_limit(), 0);
    assert_eq!(query(Some(999)).validated_limit(), 999);
    assert_eq!(query(Some(1000)).validated_limit(), 1000);
    assert_eq!(query(Some(1001)).validated_limit(), 1000);
    assert_eq!(query(Some(u32::MAX)).validated_limit(), 1000);
}

#[test]
fn migration_response_keeps_what_it_is_given() {
    let response = RuleMigrationResponse::new(
        ProfileId::new("profile".to_string()),
        RoutingId::new("routing".to_string()),
        "engine_id".to_string(),
        true,
    );
    assert_eq!(response.profile_id.get_string_repr(), "profile");
    assert_eq!(response.euclid_algorithm_id.get_string_repr(), "routing");
    assert_eq!(response.decision_engine_algorithm_id, "engine_id");
    assert!(response.is_active_rule);
}

#[test]
fn evaluator_choices_become_structs_in_order() {
    let choices = deserialize_connector_choices(vec![
        DeRoutableConnectorChoice {
            gateway_name: RoutableConnectors::Stripe,
            gateway_id: None,
        },
        DeRoutableConnectorChoice {
            gateway_name: RoutableConnectors::Adyen,
            gateway_id: Some(MerchantConnectorAccountId::new("mca_5".to_string())),
        },
    ]);
    assert_eq!(choices.len(), 2);
    assert_eq!(choices[0].choice_kind, RoutableChoiceKind::FullStruct);
    assert_eq!(choices[0].to_string(), "stripe");
    assert_eq!(choices[1].choice_kind, RoutableChoiceKind::FullStruct);
    assert_eq!(choices[1].to_string(), "adyen:mca_5");
    assert!(deserialize_connector_choices(Vec::new()).is_empty());
}

#[test]
fn one_sided_comparisons_bound_a_range() {
    let above = NumberComparison {
        comparison_type: ComparisonType::GreaterThan,
        number: 500,
    };
    let below = NumberComparison {
        comparison_type: ComparisonType::LessThan,
        number: 1000,
    };
    for (amount, inside) in [(500, false), (501, true), (999, true), (1000, false)] {
        assert_eq!(above.holds_for(amount) && below.holds_for(amount), inside);
    }
    let cases = [
        (ComparisonType::Equal, 5, true),
        (ComparisonType::NotEqual, 5, false),
        (ComparisonType::LessThanEqual, 5, true),
        (ComparisonType::GreaterThanEqual, 5, true),
        (ComparisonType::LessThanEqual, 6, false),
        (ComparisonType::GreaterThanEqual, 4, false),
    ];
    for (comparison_type, amount, expected) in cases {
        let comparison = NumberComparison {
            comparison_type,
            number: 5,
        };
        assert_eq!(comparison.holds_for(amount), expected);
    }
}
