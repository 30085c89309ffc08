//! Configuration of success-rate based routing.

use vstd::prelude::*;

use crate::errors::ValidationError;
use crate::numeric::FloatBits;
use crate::routing::decision_engine::{
    merged_success_rate_data, DecisionEngineSRSubLevelInputConfig, DecisionEngineSuccessRateData,
};
use crate::routing::elimination::DynamicRoutingConfigParams;
use crate::routing::merge::pick;

verus! {

/// Bit pattern of 90.0, the decision engine's default latency threshold.
pub const DEFAULT_LATENCY_THRESHOLD: u64 = 0x4056_8000_0000_0000;

/// The decision engine's default bucket size.
pub const DEFAULT_BUCKET_SIZE: i32 = 200;

/// Bit pattern of 5.0, the decision engine's default hedging percentage.
pub const DEFAULT_HEDGING_PERCENT: u64 = 0x4014_0000_0000_0000;

/// Bit pattern of 100.0, the success rate assumed before any observation.
pub const DEFAULT_SUCCESS_RATE: u64 = 0x4059_0000_0000_0000;

/// Bit pattern of 20.0, the share of traffic used for exploration.
pub const DEFAULT_EXPLORATION_PERCENT: u64 = 0x4034_0000_0000_0000;

/// The level at which success rates are aggregated.
#[derive(Debug, Clone, Copy, PartialEq, Eq, Structural)]
pub enum SuccessRateSpecificityLevel {
    Merchant,
    Global,
}

/// When a connector is blocked for the current window.
#[derive(Debug, Clone, Copy, PartialEq, Eq, Structural)]
pub struct CurrentBlockThreshold {
    pub duration_in_mins: Option<u64>,
    pub max_total_count: Option<u64>,
}

/// The settings of in-process success-rate based routing.
#[derive(Debug, Clone, Copy, PartialEq, Eq, Structural)]
pub struct SuccessBasedRoutingConfigBody {
    pub min_aggregates_size: Option<u32>,
    pub default_success_rate: Option<FloatBits>,
    pub max_aggregates_size: Option<u32>,
    pub current_block_threshold: Option<CurrentBlockThreshold>,
    pub specificity_level: SuccessRateSpecificityLevel,
    pub exploration_percent: Option<FloatBits>,
    pub shuffle_on_tie_during_exploitation: Option<bool>,
}

/// Configuration of success-rate based routing.
#[derive(Debug)]
pub struct SuccessBasedRoutingConfig {
    pub params: Option<Vec<DynamicRoutingConfigParams>>,
    pub config: Option<SuccessBasedRoutingConfigBody>,
    pub decision_engine_configs: Option<DecisionEngineSuccessRateData>,
}

/// The merge of a patch into a block threshold: only the count is taken from
/// the patch; the duration is never changed by a merge.
pub open spec fn merged_block_threshold(
    base: CurrentBlockThreshold,
    patch: CurrentBlockThreshold,
) -> CurrentBlockThreshold {
    CurrentBlockThreshold {
        duration_in_mins: base.duration_in_mins,
        max_total_count: pick(base.max_total_count, patch.max_total_count),
    }
}

/// The merge of a patch into the in-process settings. Optional fields are
/// taken from the patch where it holds them; the specificity level is always
/// the patch's; the block threshold is merged where both sides hold one and
/// stays absent where the base lacks it.
pub open spec fn merged_success_body(
    base: SuccessBasedRoutingConfigBody,
    patch: SuccessBasedRoutingConfigBody,
) -> SuccessBasedRoutingConfigBody {
    SuccessBasedRoutingConfigBody {
        min_aggregates_size: pick(base.min_aggregates_size, patch.min_aggregates_size),
        default_success_rate: pick(base.default_success_rate, patch.default_success_rate),
        max_aggregates_size: pick(base.max_aggregates_size, patch.max_aggregates_size),
        current_block_threshold: match (
            base.current_block_threshold,
            patch.current_block_threshold,
        ) {
            (Some(b), Some(p)) => Some(merged_block_threshold(b, p)),
            _ => base.current_block_threshold,
        },
        specificity_level: patch.specificity_level,
        exploration_percent: pick(base.exploration_percent, patch.exploration_percent),
        shuffle_on_tie_during_exploitation: pick(
            base.shuffle_on_tie_during_exploitation,
            patch.shuffle_on_tie_during_exploitation,
        ),
    }
}

/// The merge of a patch into a success-rate configuration.
pub open spec fn merged_success_config(
    base: SuccessBasedRoutingConfig,
    patch: SuccessBasedRoutingConfig,
) -> SuccessBasedRoutingConfig {
    SuccessBasedRoutingConfig {
        params: pick(base.params, patch.params),
        config: match (base.config, patch.config) {
            (Some(b), Some(p)) => Some(merged_success_body(b, p)),
            _ => base.config,
        },
        decision_engine_configs: match (
            base.decision_engine_configs,
            patch.decision_engine_configs,
        ) {
            (Some(b), Some(p)) => Some(merged_success_rate_data(b, p)),
            _ => base.decision_engine_configs,
        },
    }
}

/// The in-process settings used by default: five observations at least and
/// eight at most, a success rate of 100 to start from, a block after five
/// payments, a fifth of the traffic for exploration, no shuffling on a tie,
/// aggregated per merchant.
pub open spec fn local_success_body_default() -> SuccessBasedRoutingConfigBody {
    SuccessBasedRoutingConfigBody {
        min_aggregates_size: Some(5),
        default_success_rate: Some(FloatBits { bits: DEFAULT_SUCCESS_RATE }),
        max_aggregates_size: Some(8),
        current_block_threshold: Some(
            CurrentBlockThreshold { duration_in_mins: None, max_total_count: Some(5) },
        ),
        specificity_level: SuccessRateSpecificityLevel::Merchant,
        exploration_percent: Some(FloatBits { bits: DEFAULT_EXPLORATION_PERCENT }),
        shuffle_on_tie_during_exploitation: Some(false),
    }
}

/// The configuration used when success-rate based routing runs in process.
pub open spec fn is_local_success_default(config: SuccessBasedRoutingConfig) -> bool {
    &&& config.params matches Some(params) && params@
        == seq![DynamicRoutingConfigParams::PaymentMethod]
    &&& config.config == Some(local_success_body_default())
    &&& config.decision_engine_configs is None
}

/// The one settings entry that the decision-engine default is seeded with:
/// cards, with the default bucket size and hedging percentage.
pub open spec fn is_card_sub_level_default(entry: DecisionEngineSRSubLevelInputConfig) -> bool {
    &&& entry.payment_method_type matches Some(name) && name@ == "CARD"@
    &&& entry.payment_method is None
    &&& entry.latency_threshold is None
    &&& entry.bucket_size == Some(DEFAULT_BUCKET_SIZE)
    &&& entry.hedging_percent == Some(FloatBits { bits: DEFAULT_HEDGING_PERCENT })
    &&& entry.lower_reset_factor is None
    &&& entry.upper_reset_factor is None
    &&& entry.gateway_extra_score is None
}

/// The configuration used when success-rate based routing is delegated to
/// the decision engine.
pub open spec fn is_open_router_success_default(config: SuccessBasedRoutingConfig) -> bool {
    &&& config.params is None
    &&& config.config is None
    &&& config.decision_engine_configs matches Some(data)
    &&& data.default_latency_threshold == Some(FloatBits { bits: DEFAULT_LATENCY_THRESHOLD })
    &&& data.default_bucket_size == Some(DEFAULT_BUCKET_SIZE)
    &&& data.default_hedging_percent == Some(FloatBits { bits: DEFAULT_HEDGING_PERCENT })
    &&& data.default_lower_reset_factor is None
    &&& data.default_upper_reset_factor is None
    &&& data.default_gateway_extra_score is None
    &&& data.sub_level_input_config matches Some(entries)
    &&& entries@.len() == 1
    &&& is_card_sub_level_default(entries@[0])
}

impl Default for SuccessRateSpecificityLevel {
    fn default() -> (res: Self)
        ensures
            res == SuccessRateSpecificityLevel::Merchant,
    {
        SuccessRateSpecificityLevel::Merchant
    }
}

impl Default for SuccessBasedRoutingConfig {
    fn default() -> (res: Self)
        ensures
            is_local_success_default(res),
    {
        let mut params: Vec<DynamicRoutingConfigParams> = Vec::new();
        params.push(DynamicRoutingConfigParams::PaymentMethod);
        SuccessBasedRoutingConfig {
            params: Some(params),
            config: Some(
                SuccessBasedRoutingConfigBody {
                    min_aggregates_size: Some(5),
                    default_success_rate: Some(FloatBits::from_bits(DEFAULT_SUCCESS_RATE)),
                    max_aggregates_size: Some(8),
                    current_block_threshold: Some(
                        CurrentBlockThreshold { duration_in_mins: None, max_total_count: Some(5) },
                    ),
                    specificity_level: SuccessRateSpecificityLevel::default(),
                    exploration_percent: Some(FloatBits::from_bits(DEFAULT_EXPLORATION_PERCENT)),
                    shuffle_on_tie_during_exploitation: Some(false),
                },
            ),
            decision_engine_configs: None,
        }
    }
}

impl CurrentBlockThreshold {
    /// Merges a patch into this threshold: only the count is taken.
    pub fn update(&mut self, new: Self)
        ensures
            *final(self) == merged_block_threshold(*old(self), new),
    {
        if let Some(max_total_count) = new.max_total_count {
            self.max_total_count = Some(max_total_count)
        }
    }
}

impl SuccessBasedRoutingConfigBody {
    /// Merges a patch into these settings.
    pub fn update(&mut self, new: Self)
        ensures
            *final(self) == merged_success_body(*old(self), new),
    {
        if let Some(min_aggregates_size) = new.min_aggregates_size {
            self.min_aggregates_size = Some(min_aggregates_size)
        }
        if let Some(default_success_rate) = new.default_success_rate {
            self.default_success_rate = Some(default_success_rate)
        }
        if let Some(max_aggregates_size) = new.max_aggregates_size {
            self.max_aggregates_size = Some(max_aggregates_size)
        }
        if let Some(current_block_threshold) = new.current_block_threshold {
            match &mut self.current_block_threshold {
                Some(threshold) => threshold.update(current_block_threshold),
                None => {},
            }
        }
        self.specificity_level = new.specificity_level;
        if let Some(exploration_percent) = new.exploration_percent {
            self.exploration_percent = Some(exploration_percent);
        }
        if let Some(shuffle_on_tie_during_exploitation) = new.shuffle_on_tie_during_exploitation {
            self.shuffle_on_tie_during_exploitation = Some(shuffle_on_tie_during_exploitation);
        }
    }
}

impl SuccessBasedRoutingConfig {
    /// Merges a patch into this configuration.
    pub fn update(&mut self, new: Self)
        ensures
            *final(self) == merged_success_config(*old(self), new),
    {
        if let Some(params) = new.params {
            self.params = Some(params)
        }
        if let Some(new_config) = new.config {
            match &mut self.config {
                Some(config) => config.update(new_config),
                None => {},
            }
        }
        if let Some(new_config) = new.decision_engine_configs {
            match &mut self.decision_engine_configs {
                Some(config) => config.update(new_config),
                None => {},
            }
        }
    }

    /// The configuration for the decision engine: its defaults, and one
    /// settings entry for cards.
    pub fn open_router_config_default() -> (res: Self)
        ensures
            is_open_router_success_default(res),
    {
        let mut entries: Vec<DecisionEngineSRSubLevelInputConfig> = Vec::new();
        entries.push(
            DecisionEngineSRSubLevelInputConfig {
                payment_method_type: Some(String::from_str("CARD")),
                payment_method: None,
                latency_threshold: None,
                bucket_size: Some(DEFAULT_BUCKET_SIZE),
                hedging_percent: Some(FloatBits::from_bits(DEFAULT_HEDGING_PERCENT)),
                lower_reset_factor: None,
                upper_reset_factor: None,
                gateway_extra_score: None,
            },
        );
        SuccessBasedRoutingConfig {
            params: None,
            config: None,
            decision_engine_configs: Some(
                DecisionEngineSuccessRateData {
                    default_latency_threshold: Some(
                        FloatBits::from_bits(DEFAULT_LATENCY_THRESHOLD),
                    ),
                    default_bucket_size: Some(DEFAULT_BUCKET_SIZE),
                    default_hedging_percent: Some(FloatBits::from_bits(DEFAULT_HEDGING_PERCENT)),
                    default_lower_reset_factor: None,
                    default_upper_reset_factor: None,
                    default_gateway_extra_score: None,
                    sub_level_input_config: Some(entries),
                },
            ),
        }
    }

    /// The decision-engine settings, or an error that names the field where
    /// they were never set.
    pub fn get_decision_engine_configs(&self) -> (res: Result<
        &DecisionEngineSuccessRateData,
        ValidationError,
    >)
        ensures
            match res {
                Ok(data) => self.decision_engine_configs == Some(*data),
                Err(ValidationError::MissingRequiredField { field_name }) => {
                    &&& self.decision_engine_configs is None
                    &&& field_name@ == "decision_engine_configs"@
                },
            },
    {
        match &self.decision_engine_configs {
            Some(data) => Ok(data),
            None => Err(
                ValidationError::MissingRequiredField {
                    field_name: String::from_str("decision_engine_configs"),
                },
            ),
        }
    }
}

/// Merging the same patch into a success-rate configuration a second time
/// changes nothing.
pub proof fn lemma_success_merge_idempotent(
    base: SuccessBasedRoutingConfig,
    patch: SuccessBasedRoutingConfig,
)
    ensures
        merged_success_config(merged_success_config(base, patch), patch) == merged_success_config(
            base,
            patch,
        ),
{
}

/// A merge of block thresholds never touches the duration, whatever the
/// patch holds.
pub proof fn lemma_block_threshold_merge_keeps_duration(
    base: CurrentBlockThreshold,
    patch: CurrentBlockThreshold,
)
    ensures
        merged_block_threshold(base, patch).duration_in_mins == base.duration_in_mins,
        patch.max_total_count is None ==> merged_block_threshold(base, patch) == base,
{
}

} // verus!
