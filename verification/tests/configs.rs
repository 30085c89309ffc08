use payment_routing::ids::MerchantConnectorAccountId;
use payment_routing::numeric::FloatBits;
use payment_routing::routing::contract::{
    upsert_label_into, ContractBasedRoutingConfig, ContractBasedRoutingConfigBody,
    ContractBasedTimeScale, LabelInformation,
};
use payment_routing::routing::decision_engine::{
    DecisionEngineEliminationData, DecisionEngineSRSubLevelInputConfig,
    DecisionEngineSuccessRateData,
};
use payment_routing::routing::elimination::{
    DynamicRoutingConfigParams, EliminationAnalyserConfig, EliminationRoutingConfig,
};
use payment_routing::routing::success_based::{
    CurrentBlockThreshold, SuccessBasedRoutingConfig, SuccessBasedRoutingConfigBody,
    SuccessRateSpecificityLevel,
};

fn as_float(bits: FloatBits) -> f64 {
    f64::from_bits(bits.to_bits())
}

fn bits(value: f64) -> FloatBits {
    FloatBits::from_bits(value.to_bits())
}

fn label(name: &str, account: &str, count: u64, time: u64) -> LabelInformation {
    LabelInformation {
        label: name.to_string(),
        target_count: count,
        target_time: time,
        mca_id: MerchantConnectorAccountId::new(account.to_string()),
    }
}

fn summary(labels: &Option<Vec<LabelInformation>>) -> Option<Vec<(String, String, u64, u64)>> {
    labels.as_ref().map(|list| {
        list.iter()
            .map(|l| {
                (
                    l.label.clone(),
                    l.mca_id.get_string_repr().to_string(),
                    l.target_count,
                    l.target_time,
                )
            })
            .collect()
    })
}

fn empty_body() -> SuccessBasedRoutingConfigBody {
    SuccessBasedRoutingConfigBody {
        min_aggregates_size: None,
        default_success_rate: None,
        max_aggregates_size: None,
        current_block_threshold: None,
        specificity_level: SuccessRateSpecificityLevel::Merchant,
        exploration_percent: None,
        shuffle_on_tie_during_exploitation: None,
    }
}

#[test]
fn local_success_default_has_the_documented_values() {
    let config = SuccessBasedRoutingConfig::default();
    assert_eq!(
        config.params,
        Some(vec![DynamicRoutingConfigParams::PaymentMethod])
    );
    assert!(config.decision_engine_configs.is_none());
    let body = config.config.unwrap();
    assert_eq!(body.min_aggregates_size, Some(5));
    assert_eq!(body.max_aggregates_size, Some(8));
    assert_eq!(as_float(body.default_success_rate.unwrap()), 100.0);
    assert_eq!(as_float(body.exploration_percent.unwrap()), 20.0);
    assert_eq!(body.shuffle_on_tie_during_exploitation, Some(false));
    assert_eq!(body.specificity_level, SuccessRateSpecificityLevel::Merchant);
    assert_eq!(
        body.current_block_threshold,
        Some(CurrentBlockThreshold {
            duration_in_mins: None,
            max_total_count: Some(5)
        })
    );
}

#[test]
fn open_router_success_default_has_the_documented_values() {
    let config = SuccessBasedRoutingConfig::open_router_config_default();
    assert!(config.params.is_none());
    assert!(config.config.is_none());
    let data = config.decision_engine_configs.unwrap();
    assert_eq!(as_float(data.default_latency_threshold.unwrap()), 90.0);
    assert_eq!(data.default_bucket_size, Some(200));
    assert_eq!(as_float(data.default_hedging_percent.unwrap()), 5.0);
    assert!(data.default_lower_reset_factor.is_none());
    assert!(data.default_upper_reset_factor.is_none());
    assert!(data.default_gateway_extra_score.is_none());
    let entries = data.sub_level_input_config.unwrap();
    assert_eq!(entries.len(), 1);
    assert_eq!(entries[0].payment_method_type.as_deref(), Some("CARD"));
    assert!(entries[0].payment_method.is_none());
    assert!(entries[0].latency_threshold.is_none());
    assert_eq!(entries[0].bucket_size, Some(200));
    assert_eq!(as_float(entries[0].hedging_percent.unwrap()), 5.0);
    assert!(entries[0].gateway_extra_score.is_none());
}

#[test]
fn elimination_defaults_have_the_documented_values() {
    let local = EliminationRoutingConfig::default();
    assert_eq!(
        local.params,
        Some(vec![DynamicRoutingConfigParams::PaymentMethod])
    );
    assert_eq!(
        local.elimination_analyser_config,
        Some(EliminationAnalyserConfig {
            bucket_size: Some(5),
            bucket_leak_interval_in_secs: Some(60)
        })
    );
    assert!(local.decision_engine_configs.is_none());
    let engine = EliminationRoutingConfig::open_router_config_default();
    assert!(engine.params.is_none());
    assert!(engine.elimination_analyser_config.is_none());
    assert_eq!(as_float(engine.decision_engine_configs.unwrap().threshold), 0.35);
}

#[test]
fn contract_default_has_the_documented_values() {
    let config = ContractBasedRoutingConfig::default();
    assert!(config.label_info.is_none());
    let body = config.config.unwrap();
    assert_eq!(body.time_scale, Some(ContractBasedTimeScale::Day));
    let constants: Vec<f64> = body.constants.unwrap().into_iter().map(as_float).collect();
    assert_eq!(constants, vec![0.7, 0.35]);
}

#[test]
fn missing_decision_engine_config_names_the_field() {
    let error = SuccessBasedRoutingConfig::default()
        .get_decision_engine_configs()
        .unwrap_err();
    assert_eq!(error.missing_field(), "decision_engine_configs");
    let error = EliminationRoutingConfig::default()
        .get_decision_engine_configs()
        .unwrap_err();
    assert_eq!(error.missing_field(), "decision_engine_configs");
}

#[test]
fn present_decision_engine_config_is_returned() {
    let config = SuccessBasedRoutingConfig::open_router_config_default();
    let data = config.get_decision_engine_configs().unwrap();
    assert_eq!(data.default_bucket_size, Some(200));
    let config = EliminationRoutingConfig::open_router_config_default();
    let data = config.get_decision_engine_configs().unwrap();
    assert_eq!(as_float(data.threshold), 0.35);
}

#[test]
fn analyser_update_is_field_wise() {
    let mut config = EliminationAnalyserConfig {
        bucket_size: Some(5),
        bucket_leak_interval_in_secs: Some(60),
    };
    config.update(EliminationAnalyserConfig {
        bucket_size: None,
        bucket_leak_interval_in_secs: Some(90),
    });
    assert_eq!(config.bucket_size, Some(5));
    assert_eq!(config.bucket_leak_interval_in_secs, Some(90));
    config.update(EliminationAnalyserConfig {
        bucket_size: None,
        bucket_leak_interval_in_secs: None,
    });
    assert_eq!(config.bucket_size, Some(5));
    assert_eq!(config.bucket_leak_interval_in_secs, Some(90));
}

#[test]
fn elimination_update_merges_nested_settings_only_where_present() {
    let mut config = EliminationRoutingConfig::default();
    config.update(EliminationRoutingConfig {
        params: Some(vec![
            DynamicRoutingConfigParams::Currency,
            DynamicRoutingConfigParams::Country,
        ]),
        elimination_analyser_config: Some(EliminationAnalyserConfig {
            bucket_size: Some(9),
            bucket_leak_interval_in_secs: None,
        }),
        decision_engine_configs: Some(DecisionEngineEliminationData {
            threshold: bits(0.5),
        }),
    });
    assert_eq!(
        config.params,
        Some(vec![
            DynamicRoutingConfigParams::Currency,
            DynamicRoutingConfigParams::Country
        ])
    );
    assert_eq!(
        config.elimination_analyser_config,
        Some(EliminationAnalyserConfig {
            bucket_size: Some(9),
            bucket_leak_interval_in_secs: Some(60)
        })
    );
    assert!(config.decision_engine_configs.is_none());

    let mut engine = EliminationRoutingConfig::open_router_config_default();
    engine.update(EliminationRoutingConfig {
        params: None,
        elimination_analyser_config: Some(EliminationAnalyserConfig {
            bucket_size: Some(9),
            bucket_leak_interval_in_secs: None,
        }),
        decision_engine_configs: Some(DecisionEngineEliminationData {
            threshold: bits(0.5),
        }),
    });
    assert!(engine.params.is_none());
    assert!(engine.elimination_analyser_config.is_none());
    assert_eq!(as_float(engine.decision_engine_configs.unwrap().threshold), 0.5);
}

#[test]
fn block_threshold_update_ignores_the_duration() {
    let mut threshold = CurrentBlockThreshold {
        duration_in_mins: Some(10),
        max_total_count: Some(5),
    };
    threshold.update(CurrentBlockThreshold {
        duration_in_mins: Some(99),
        max_total_count: Some(7),
    });
    assert_eq!(threshold.duration_in_mins, Some(10));
    assert_eq!(threshold.max_total_count, Some(7));
    threshold.update(CurrentBlockThreshold {
        duration_in_mins: None,
        max_total_count: None,
    });
    assert_eq!(threshold.duration_in_mins, Some(10));
    assert_eq!(threshold.max_total_count, Some(7));
}

#[test]
fn success_body_update_is_field_wise_and_always_takes_the_level() {
    let mut body = SuccessBasedRoutingConfig::default().config.unwrap();
    let mut patch = empty_body();
    patch.max_aggregates_size = Some(12);
    patch.exploration_percent = Some(bits(33.0));
    patch.specificity_level = SuccessRateSpecificityLevel::Global;
    patch.current_block_threshold = Some(CurrentBlockThreshold {
        duration_in_mins: Some(30),
        max_total_count: None,
    });
    body.update(patch);
    assert_eq!(body.min_aggregates_size, Some(5));
    assert_eq!(body.max_aggregates_size, Some(12));
    assert_eq!(as_float(body.default_success_rate.unwrap()), 100.0);
    assert_eq!(as_float(body.exploration_percent.unwrap()), 33.0);
    assert_eq!(body.shuffle_on_tie_during_exploitation, Some(false));
    assert_eq!(body.specificity_level, SuccessRateSpecificityLevel::Global);
    assert_eq!(
        body.current_block_threshold,
        Some(CurrentBlockThreshold {
            duration_in_mins: None,
            max_total_count: Some(5)
        })
    );
    body.update(empty_body());
    assert_eq!(body.specificity_level, SuccessRateSpecificityLevel::Merchant);
    assert_eq!(body.max_aggregates_size, Some(12));
}

#[test]
fn success_body_without_threshold_takes_none_from_a_patch() {
    let mut body = empty_body();
    let mut patch = empty_body();
    patch.current_block_threshold = Some(CurrentBlockThreshold {
        duration_in_mins: Some(1),
        max_total_count: Some(2),
    });
    patch.min_aggregates_size = Some(3);
    body.update(patch);
    assert!(body.current_block_threshold.is_none());
    assert_eq!(body.min_aggregates_size, Some(3));
}

#[test]
fn success_config_update_cascades() {
    let mut config = SuccessBasedRoutingConfig::default();
    let mut patch_body = empty_body();
    patch_body.min_aggregates_size = Some(2);
    config.update(SuccessBasedRoutingConfig {
        params: None,
        config: Some(patch_body),
        decision_engine_configs: Some(DecisionEngineSuccessRateData {
            default_latency_threshold: Some(bits(10.0)),
            default_bucket_size: None,
            default_hedging_percent: None,
            default_lower_reset_factor: None,
            default_upper_reset_factor: None,
            default_gateway_extra_score: None,
            sub_level_input_config: None,
        }),
    });
    assert_eq!(
        config.params,
        Some(vec![DynamicRoutingConfigParams::PaymentMethod])
    );
    assert_eq!(config.config.unwrap().min_aggregates_size, Some(2));
    assert!(config.decision_engine_configs.is_none());
}

#[test]
fn decision_engine_data_update_is_field_wise() {
    let mut data = SuccessBasedRoutingConfig::open_router_config_default()
        .decision_engine_configs
        .unwrap();
    data.update(DecisionEngineSuccessRateData {
        default_latency_threshold: None,
        default_bucket_size: Some(50),
        default_hedging_percent: None,
        default_lower_reset_factor: Some(bits(0.1)),
        default_upper_reset_factor: None,
        default_gateway_extra_score: None,
        sub_level_input_config: Some(vec![DecisionEngineSRSubLevelInputConfig {
            payment_method_type: None,
            payment_method: Some("UPI".to_string()),
            latency_threshold: None,
            bucket_size: None,
            hedging_percent: None,
            lower_reset_factor: None,
            upper_reset_factor: None,
            gateway_extra_score: None,
        }]),
    });
    assert_eq!(as_float(data.default_latency_threshold.unwrap()), 90.0);
    assert_eq!(data.default_bucket_size, Some(50));
    assert_eq!(as_float(data.default_hedging_percent.unwrap()), 5.0);
    assert_eq!(as_float(data.default_lower_reset_factor.unwrap()), 0.1);
    let entries = data.sub_level_input_config.unwrap();
    assert_eq!(entries.len(), 1);
    assert_eq!(entries[0].payment_method.as_deref(), Some("UPI"));
    let mut elimination = DecisionEngineEliminationData {
        threshold: bits(0.35),
    };
    elimination.update(DecisionEngineEliminationData {
        threshold: bits(0.9),
    });
    assert_eq!(as_float(elimination.threshold), 0.9);
}

#[test]
fn label_for_a_known_account_updates_its_targets_only() {
    let mut config = ContractBasedRoutingConfig {
        config: None,
        label_info: Some(vec![
            label("first", "mca_1", 10, 100),
            label("second", "mca_2", 20, 200),
        ]),
    };
    config.update(ContractBasedRoutingConfig {
        config: None,
        label_info: Some(vec![label("renamed", "mca_2", 21, 201)]),
    });
    assert_eq!(
        summary(&config.label_info),
        Some(vec![
            ("first".to_string(), "mca_1".to_string(), 10, 100),
            ("second".to_string(), "mca_2".to_string(), 21, 201),
        ])
    );
}

#[test]
fn label_for_a_new_account_is_appended() {
    let mut config = ContractBasedRoutingConfig {
        config: None,
        label_info: Some(vec![label("first", "mca_1", 10, 100)]),
    };
    config.update(ContractBasedRoutingConfig {
        config: None,
        label_info: Some(vec![label("third", "mca_3", 30, 300)]),
    });
    assert_eq!(
        summary(&config.label_info),
        Some(vec![
            ("first".to_string(), "mca_1".to_string(), 10, 100),
            ("third".to_string(), "mca_3".to_string(), 30, 300),
        ])
    );
}

#[test]
fn labels_are_merged_in_order_and_create_a_missing_list() {
    let mut config = ContractBasedRoutingConfig {
        config: None,
        label_info: None,
    };
    config.update(ContractBasedRoutingConfig {
        config: None,
        label_info: Some(Vec::new()),
    });
    assert!(config.label_info.is_none());
    config.update(ContractBasedRoutingConfig {
        config: None,
        label_info: Some(vec![
            label("a", "mca_1", 1, 1),
            label("b", "mca_2", 2, 2),
            label("c", "mca_1", 3, 3),
        ]),
    });
    assert_eq!(
        summary(&config.label_info),
        Some(vec![
            ("a".to_string(), "mca_1".to_string(), 3, 3),
            ("b".to_string(), "mca_2".to_string(), 2, 2),
        ])
    );
    config.update(ContractBasedRoutingConfig {
        config: None,
        label_info: None,
    });
    assert_eq!(summary(&config.label_info).unwrap().len(), 2);
}

#[test]
fn every_label_of_an_account_is_updated() {
    let mut labels = vec![
        label("a", "mca_1", 1, 1),
        label("b", "mca_2", 2, 2),
        label("c", "mca_1", 3, 3),
    ];
    upsert_label_into(&mut labels, &label("x", "mca_1", 9, 8));
    assert_eq!(
        summary(&Some(labels)),
        Some(vec![
            ("a".to_string(), "mca_1".to_string(), 9, 8),
            ("b".to_string(), "mca_2".to_string(), 2, 2),
            ("c".to_string(), "mca_1".to_string(), 9, 8),
        ])
    );
}

#[test]
fn merging_the_same_labels_twice_is_merging_once() {
    let patch = || ContractBasedRoutingConfig {
        config: None,
        label_info: Some(vec![label("n", "mca_9", 5, 6), label("m", "mca_1", 7, 8)]),
    };
    let base = || ContractBasedRoutingConfig {
        config: None,
        label_info: Some(vec![label("first", "mca_1", 10, 100)]),
    };
    let mut once = base();
    once.update(patch());
    let mut twice = base();
    twice.update(patch());
    twice.update(patch());
    assert_eq!(summary(&once.label_info), summary(&twice.label_info));
    assert_eq!(summary(&once.label_info).unwrap().len(), 2);
}

#[test]
fn contract_settings_update_replaces_whole_values() {
    let mut config = ContractBasedRoutingConfig::default();
    config.update(ContractBasedRoutingConfig {
        config: Some(ContractBasedRoutingConfigBody {
            constants: None,
            time_scale: Some(ContractBasedTimeScale::Month),
        }),
        label_info: None,
    });
    let body = config.config.as_ref().unwrap();
    assert_eq!(body.time_scale, Some(ContractBasedTimeScale::Month));
    assert_eq!(body.constants.as_ref().unwrap().len(), 2);
    let mut absent = ContractBasedRoutingConfig {
        config: None,
        label_info: None,
    };
    absent.update(ContractBasedRoutingConfig::default());
    assert!(absent.config.is_none());
    let mut body = ContractBasedRoutingConfigBody {
        constants: None,
        time_scale: None,
    };
    body.update(ContractBasedRoutingConfigBody {
        constants: Some(vec![bits(1.5)]),
        time_scale: None,
    });
    assert_eq!(as_float(body.constants.unwrap()[0]), 1.5);
    assert!(body.time_scale.is_none());
}

#[test]
fn label_targets_are_set_one_by_one() {
    let mut target = label("a", "mca_1", 1, 2);
    let source = label("b", "mca_2", 30, 40);
    target.update_target_time(&source);
    assert_eq!((target.target_count, target.target_time), (1, 40));
    target.update_target_count(&source);
    assert_eq!((target.target_count, target.target_time), (30, 40));
    assert_eq!(target.label, "a");
    assert_eq!(target.mca_id.get_string_repr(), "mca_1");
}
