//! Configuration of elimination routing.

use vstd::prelude::*;

use crate::errors::ValidationError;
use crate::numeric::FloatBits;
use crate::routing::decision_engine::{merged_elimination_data, DecisionEngineEliminationData};
use crate::routing::merge::pick;

verus! {

/// Bit pattern of 0.35, the decision engine's default elimination threshold.
pub const DEFAULT_ELIMINATION_THRESHOLD: u64 = 0x3FD6_6666_6666_6666;

/// The payment attributes by which dynamic routing groups its observations.
#[derive(Debug, Clone, Copy, PartialEq, Eq, Structural)]
pub enum DynamicRoutingConfigParams {
    PaymentMethod,
    PaymentMethodType,
    AuthenticationType,
    Currency,
    Country,
    CardNetwork,
    CardBin,
}

/// The leaky-bucket settings by which failures are counted.
#[derive(Debug, Clone, Copy, PartialEq, Eq, Structural)]
pub struct EliminationAnalyserConfig {
    pub bucket_size: Option<u64>,
    pub bucket_leak_interval_in_secs: Option<u64>,
}

/// Configuration of elimination routing.
#[derive(Debug)]
pub struct EliminationRoutingConfig {
    pub params: Option<Vec<DynamicRoutingConfigParams>>,
    pub elimination_analyser_config: Option<EliminationAnalyserConfig>,
    pub decision_engine_configs: Option<DecisionEngineEliminationData>,
}

/// The merge of a patch into bucket settings, field by field.
pub open spec fn merged_analyser_config(
    base: EliminationAnalyserConfig,
    patch: EliminationAnalyserConfig,
) -> EliminationAnalyserConfig {
    EliminationAnalyserConfig {
        bucket_size: pick(base.bucket_size, patch.bucket_size),
        bucket_leak_interval_in_secs: pick(
            base.bucket_leak_interval_in_secs,
            patch.bucket_leak_interval_in_secs,
        ),
    }
}

/// The merge of a patch into an elimination configuration. The grouping
/// attributes are replaced where the patch holds them. The two nested
/// settings are merged where both sides hold them; a nested setting that the
/// base lacks stays absent.
pub open spec fn merged_elimination_config(
    base: EliminationRoutingConfig,
    patch: EliminationRoutingConfig,
) -> EliminationRoutingConfig {
    EliminationRoutingConfig {
        params: pick(base.params, patch.params),
        elimination_analyser_config: match (
            base.elimination_analyser_config,
            patch.elimination_analyser_config,
        ) {
            (Some(b), Some(p)) => Some(merged_analyser_config(b, p)),
            _ => base.elimination_analyser_config,
        },
        decision_engine_configs: match (
            base.decision_engine_configs,
            patch.decision_engine_configs,
        ) {
            (Some(b), Some(p)) => Some(merged_elimination_data(b, p)),
            _ => base.decision_engine_configs,
        },
    }
}

/// The configuration used when elimination routing runs in process.
pub open spec fn is_local_elimination_default(config: EliminationRoutingConfig) -> bool {
    &&& config.params matches Some(params) && params@
        == seq![DynamicRoutingConfigParams::PaymentMethod]
    &&& config.elimination_analyser_config == Some(
        EliminationAnalyserConfig { bucket_size: Some(5), bucket_leak_interval_in_secs: Some(60) },
    )
    &&& config.decision_engine_configs is None
}

/// The configuration used when elimination routing is delegated to the
/// decision engine.
pub open spec fn open_router_elimination_default() -> EliminationRoutingConfig {
    EliminationRoutingConfig {
        elimination_analyser_config: None,
        params: None,
        decision_engine_configs: Some(
            DecisionEngineEliminationData {
                threshold: FloatBits { bits: DEFAULT_ELIMINATION_THRESHOLD },
            },
        ),
    }
}

impl EliminationAnalyserConfig {
    /// Merges a patch into these settings, field by field.
    pub fn update(&mut self, new: Self)
        ensures
            *final(self) == merged_analyser_config(*old(self), new),
    {
        if let Some(bucket_size) = new.bucket_size {
            self.bucket_size = Some(bucket_size)
        }
        if let Some(bucket_leak_interval_in_secs) = new.bucket_leak_interval_in_secs {
            self.bucket_leak_interval_in_secs = Some(bucket_leak_interval_in_secs)
        }
    }
}

impl Default for EliminationRoutingConfig {
    fn default() -> (res: Self)
        ensures
            is_local_elimination_default(res),
    {
        let mut params: Vec<DynamicRoutingConfigParams> = Vec::new();
        params.push(DynamicRoutingConfigParams::PaymentMethod);
        EliminationRoutingConfig {
            params: Some(params),
            elimination_analyser_config: Some(
                EliminationAnalyserConfig {
                    bucket_size: Some(5),
                    bucket_leak_interval_in_secs: Some(60),
                },
            ),
            decision_engine_configs: None,
        }
    }
}

impl EliminationRoutingConfig {
    /// Merges a patch into this configuration.
    pub fn update(&mut self, new: Self)
        ensures
            *final(self) == merged_elimination_config(*old(self), new),
    {
        if let Some(params) = new.params {
            self.params = Some(params)
        }
        if let Some(new_config) = new.elimination_analyser_config {
            match &mut self.elimination_analyser_config {
                Some(config) => config.update(new_config),
                None => {},
            }
        }
        if let Some(new_config) = new.decision_engine_configs {
            match &mut self.decision_engine_configs {
                Some(config) => config.update(new_config),
                None => {},
            }
        }
    }

    /// The configuration for the decision engine: only its threshold is set.
    pub fn open_router_config_default() -> (res: Self)
        ensures
            res == open_router_elimination_default(),
    {
        EliminationRoutingConfig {
            elimination_analyser_config: None,
            params: None,
            decision_engine_configs: Some(
                DecisionEngineEliminationData {
                    threshold: FloatBits::from_bits(DEFAULT_ELIMINATION_THRESHOLD),
                },
            ),
        }
    }

    /// The decision-engine settings, or an error that names the field where
    /// they were never set.
    pub fn get_decision_engine_configs(&self) -> (res: Result<
        DecisionEngineEliminationData,
        ValidationError,
    >)
        ensures
            match res {
                Ok(data) => self.decision_engine_configs == Some(data),
                Err(ValidationError::MissingRequiredField { field_name }) => {
                    &&& self.decision_engine_configs is None
                    &&& field_name@ == "decision_engine_configs"@
                },
            },
    {
        match self.decision_engine_configs {
            Some(data) => Ok(data),
            None => Err(
                ValidationError::MissingRequiredField {
                    field_name: String::from_str("decision_engine_configs"),
                },
            ),
        }
    }
}

/// Merging the same patch into an elimination configuration a second time
/// changes nothing.
pub proof fn lemma_elimination_merge_idempotent(
    base: EliminationRoutingConfig,
    patch: EliminationRoutingConfig,
)
    ensures
        merged_elimination_config(merged_elimination_config(base, patch), patch)
            == merged_elimination_config(base, patch),
{
}

/// A merge never removes a value: whatever the base holds, the result holds
/// too.
pub proof fn lemma_elimination_merge_keeps_fields(
    base: EliminationRoutingConfig,
    patch: EliminationRoutingConfig,
)
    ensures
        base.params is Some ==> merged_elimination_config(base, patch).params is Some,
        base.elimination_analyser_config is Some == merged_elimination_config(
            base,
            patch,
        ).elimination_analyser_config is Some,
        base.decision_engine_configs is Some == merged_elimination_config(
            base,
            patch,
        ).decision_engine_configs is Some,
        (base.elimination_analyser_config matches Some(b) && b.bucket_size is Some) ==> (
        merged_elimination_config(base, patch).elimination_analyser_config matches Some(m)
            && m.bucket_size is Some),
{
}

} // verus!
