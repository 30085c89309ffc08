//! Configuration in the shape that the external decision engine understands.

use vstd::prelude::*;

use crate::numeric::FloatBits;
use crate::routing::merge::pick;

verus! {

/// Elimination settings of the decision engine.
#[derive(Debug, Clone, Copy, PartialEq, Eq, Structural)]
pub struct DecisionEngineEliminationData {
    pub threshold: FloatBits,
}

/// An extra score given to one gateway.
#[derive(Debug)]
pub struct DecisionEngineGatewayWiseExtraScore {
    pub gateway_name: String,
    pub gateway_sigma_factor: FloatBits,
}

/// Success-rate settings for one payment method or payment method type.
#[derive(Debug)]
pub struct DecisionEngineSRSubLevelInputConfig {
    pub payment_method_type: Option<String>,
    pub payment_method: Option<String>,
    pub latency_threshold: Option<FloatBits>,
    pub bucket_size: Option<i32>,
    pub hedging_percent: Option<FloatBits>,
    pub lower_reset_factor: Option<FloatBits>,
    pub upper_reset_factor: Option<FloatBits>,
    pub gateway_extra_score: Option<Vec<DecisionEngineGatewayWiseExtraScore>>,
}

/// Success-rate settings of the decision engine.
#[derive(Debug)]
pub struct DecisionEngineSuccessRateData {
    pub default_latency_threshold: Option<FloatBits>,
    pub default_bucket_size: Option<i32>,
    pub default_hedging_percent: Option<FloatBits>,
    pub default_lower_reset_factor: Option<FloatBits>,
    pub default_upper_reset_factor: Option<FloatBits>,
    pub default_gateway_extra_score: Option<Vec<DecisionEngineGatewayWiseExtraScore>>,
    pub sub_level_input_config: Option<Vec<DecisionEngineSRSubLevelInputConfig>>,
}

/// The merge of a patch into elimination settings: the threshold is the
/// patch's.
pub open spec fn merged_elimination_data(
    base: DecisionEngineEliminationData,
    patch: DecisionEngineEliminationData,
) -> DecisionEngineEliminationData {
    DecisionEngineEliminationData { threshold: patch.threshold }
}

/// The merge of a patch into success-rate settings, field by field.
pub open spec fn merged_success_rate_data(
    base: DecisionEngineSuccessRateData,
    patch: DecisionEngineSuccessRateData,
) -> DecisionEngineSuccessRateData {
    DecisionEngineSuccessRateData {
        default_latency_threshold: pick(
            base.default_latency_threshold,
            patch.default_latency_threshold,
        ),
        default_bucket_size: pick(base.default_bucket_size, patch.default_bucket_size),
        default_hedging_percent: pick(base.default_hedging_percent, patch.default_hedging_percent),
        default_lower_reset_factor: pick(
            base.default_lower_reset_factor,
            patch.default_lower_reset_factor,
        ),
        default_upper_reset_factor: pick(
            base.default_upper_reset_factor,
            patch.default_upper_reset_factor,
        ),
        default_gateway_extra_score: pick(
            base.default_gateway_extra_score,
            patch.default_gateway_extra_score,
        ),
        sub_level_input_config: pick(base.sub_level_input_config, patch.sub_level_input_config),
    }
}

impl DecisionEngineEliminationData {
    /// Merges a patch into these settings.
    pub fn update(&mut self, new_config: Self)
        ensures
            *final(self) == merged_elimination_data(*old(self), new_config),
    {
        self.threshold = new_config.threshold;
    }
}

impl DecisionEngineSuccessRateData {
    /// Merges a patch into these settings, field by field.
    pub fn update(&mut self, new_config: Self)
        ensures
            *final(self) == merged_success_rate_data(*old(self), new_config),
    {
        if let Some(threshold) = new_config.default_latency_threshold {
            self.default_latency_threshold = Some(threshold);
        }
        if let Some(bucket_size) = new_config.default_bucket_size {
            self.default_bucket_size = Some(bucket_size);
        }
        if let Some(hedging_percent) = new_config.default_hedging_percent {
            self.default_hedging_percent = Some(hedging_percent);
        }
        if let Some(lower_reset_factor) = new_config.default_lower_reset_factor {
            self.default_lower_reset_factor = Some(lower_reset_factor);
        }
        if let Some(upper_reset_factor) = new_config.default_upper_reset_factor {
            self.default_upper_reset_factor = Some(upper_reset_factor);
        }
        if let Some(gateway_extra_score) = new_config.default_gateway_extra_score {
            self.default_gateway_extra_score = Some(gateway_extra_score);
        }
        if let Some(sub_level_input_config) = new_config.sub_level_input_config {
            self.sub_level_input_config = Some(sub_level_input_config);
        }
    }
}

/// Merging the same patch into success-rate settings a second time changes
/// nothing.
pub proof fn lemma_success_rate_data_merge_idempotent(
    base: DecisionEngineSuccessRateData,
    patch: DecisionEngineSuccessRateData,
)
    ensures
        merged_success_rate_data(merged_success_rate_data(base, patch), patch)
            == merged_success_rate_data(base, patch),
{
}

} // verus!
