//! The records and requests through which routing configuration is stored,
//! listed and changed.

use vstd::prelude::*;

use crate::enums::TransactionType;
use crate::ids::{MerchantId, ProfileId, RoutingId};
use crate::routing::algorithm::{RoutingAlgorithmKind, StaticRoutingAlgorithm};
use crate::routing::connector_choice::RoutableConnectorChoice;
use crate::routing::contract::ContractBasedRoutingConfig;
use crate::routing::dynamic::{DynamicRoutingFeatures, RoutingVolumeSplit};
use crate::routing::elimination::EliminationRoutingConfig;
use crate::routing::success_based::SuccessBasedRoutingConfig;

verus! {

/// The number of rules migrated at once where the caller names no limit.
pub const DEFAULT_MIGRATION_LIMIT: u32 = 50;

/// The largest number of rules migrated at once.
pub const MAX_MIGRATION_LIMIT: u32 = 1000;

/// A request to create a routing configuration.
#[derive(Debug)]
pub struct RoutingConfigRequest {
    pub name: Option<String>,
    pub description: Option<String>,
    pub algorithm: Option<StaticRoutingAlgorithm>,
    pub profile_id: Option<ProfileId>,
    pub transaction_type: Option<TransactionType>,
}

/// The connectors that a profile falls back to.
#[derive(Debug)]
pub struct ProfileDefaultRoutingConfig {
    pub profile_id: ProfileId,
    pub connectors: Vec<RoutableConnectorChoice>,
}

/// Paging and filter of a listing.
#[derive(Debug, Clone, Copy)]
pub struct RoutingRetrieveQuery {
    pub limit: Option<u16>,
    pub offset: Option<u8>,
    pub transaction_type: Option<TransactionType>,
}

/// What an activation applies to.
#[derive(Debug, Clone, Copy)]
pub struct RoutingActivatePayload {
    pub transaction_type: Option<TransactionType>,
}

/// The filter of a query for linked configurations.
#[derive(Debug)]
pub struct RoutingRetrieveLinkQuery {
    pub profile_id: Option<ProfileId>,
    pub transaction_type: Option<TransactionType>,
}

/// A listing query together with the profile it is for.
#[derive(Debug)]
pub struct RoutingRetrieveLinkQueryWrapper {
    pub routing_query: RoutingRetrieveQuery,
    pub profile_id: ProfileId,
}

/// A dynamic routing algorithm: the configuration of one strategy.
#[derive(Debug)]
pub enum DynamicRoutingAlgorithm {
    EliminationBasedAlgorithm(EliminationRoutingConfig),
    SuccessBasedAlgorithm(SuccessBasedRoutingConfig),
    ContractBasedAlgorithm(ContractBasedRoutingConfig),
}

/// A stored algorithm, static or dynamic.
#[derive(Debug)]
pub enum RoutingAlgorithmWrapper {
    Static(StaticRoutingAlgorithm),
    Dynamic(DynamicRoutingAlgorithm),
}

/// A routing algorithm of a merchant, with its record.
#[derive(Debug)]
pub struct MerchantRoutingAlgorithm {
    pub id: RoutingId,
    pub profile_id: ProfileId,
    pub name: String,
    pub description: String,
    pub algorithm: RoutingAlgorithmWrapper,
    pub created_at: i64,
    pub modified_at: i64,
    pub algorithm_for: TransactionType,
}

/// The routing configuration retrieved for a merchant account.
#[derive(Debug)]
pub struct RoutingRetrieveResponse {
    pub algorithm: Option<MerchantRoutingAlgorithm>,
}

/// The entry of one algorithm in the dictionary of a profile.
#[derive(Debug)]
pub struct RoutingDictionaryRecord {
    pub id: RoutingId,
    pub profile_id: ProfileId,
    pub name: String,
    pub kind: RoutingAlgorithmKind,
    pub description: String,
    pub created_at: i64,
    pub modified_at: i64,
    pub algorithm_for: Option<TransactionType>,
    pub decision_engine_routing_id: Option<String>,
}

/// The algorithms of a merchant and the one that is active.
#[derive(Debug)]
pub struct RoutingDictionary {
    pub merchant_id: MerchantId,
    pub active_id: Option<String>,
    pub records: Vec<RoutingDictionaryRecord>,
}

/// What a query for linked configurations returns.
#[derive(Debug)]
pub enum LinkedRoutingConfigRetrieveResponse {
    MerchantAccountBased(Box<RoutingRetrieveResponse>),
    ProfileBased(Vec<RoutingDictionaryRecord>),
}

/// A dictionary, or the records alone.
#[derive(Debug)]
pub enum RoutingKind {
    Config(RoutingDictionary),
    RoutingAlgorithm(Vec<RoutingDictionaryRecord>),
}

/// The id of a routing algorithm, as a request names it.
#[derive(Debug)]
pub struct RoutingAlgorithmId {
    pub routing_algorithm_id: RoutingId,
}

/// A request to link an algorithm to a profile.
#[derive(Debug)]
pub struct RoutingLinkWrapper {
    pub profile_id: ProfileId,
    pub algorithm_id: RoutingAlgorithmId,
}

/// A request to replace the fallback connectors of a profile.
#[derive(Debug)]
pub struct RoutingPayloadWrapper {
    pub updated_config: Vec<RoutableConnectorChoice>,
    pub profile_id: ProfileId,
}

/// A request to set the share of dynamically routed traffic.
#[derive(Debug)]
pub struct RoutingVolumeSplitWrapper {
    pub routing_info: RoutingVolumeSplit,
    pub profile_id: ProfileId,
}

/// The feature that a toggle request enables.
#[derive(Debug, Clone, Copy)]
pub struct ToggleDynamicRoutingQuery {
    pub enable: DynamicRoutingFeatures,
}

/// The share of traffic that a request asks to route dynamically.
#[derive(Debug, Clone, Copy)]
pub struct DynamicRoutingVolumeSplitQuery {
    pub split: u8,
}

/// The algorithm and profile that a configuration update is for.
#[derive(Debug)]
pub struct DynamicRoutingUpdateConfigQuery {
    pub algorithm_id: RoutingId,
    pub profile_id: ProfileId,
}

/// A toggle request together with the profile it is for.
#[derive(Debug)]
pub struct ToggleDynamicRoutingWrapper {
    pub profile_id: ProfileId,
    pub feature_to_enable: DynamicRoutingFeatures,
}

/// The profile that a toggle request names in its path.
#[derive(Debug)]
pub struct ToggleDynamicRoutingPath {
    pub profile_id: ProfileId,
}

/// The share of dynamically routed traffic, as it is reported.
#[derive(Debug, Clone, Copy)]
pub struct RoutingVolumeSplitResponse {
    pub split: u8,
}

/// A patch for a success-rate configuration.
#[derive(Debug)]
pub struct SuccessBasedRoutingPayloadWrapper {
    pub updated_config: SuccessBasedRoutingConfig,
    pub algorithm_id: RoutingId,
    pub profile_id: ProfileId,
}

/// A patch for an elimination configuration.
#[derive(Debug)]
pub struct EliminationRoutingPayloadWrapper {
    pub updated_config: EliminationRoutingConfig,
    pub algorithm_id: RoutingId,
    pub profile_id: ProfileId,
}

/// A patch for a contract configuration.
#[derive(Debug)]
pub struct ContractBasedRoutingPayloadWrapper {
    pub updated_config: ContractBasedRoutingConfig,
    pub algorithm_id: RoutingId,
    pub profile_id: ProfileId,
}

/// A request to set up contract based routing.
#[derive(Debug)]
pub struct ContractBasedRoutingSetupPayloadWrapper {
    pub config: Option<ContractBasedRoutingConfig>,
    pub profile_id: ProfileId,
    pub features_to_enable: DynamicRoutingFeatures,
}

/// Which rules of a profile to migrate.
#[derive(Debug)]
pub struct RuleMigrationQuery {
    pub profile_id: ProfileId,
    pub merchant_id: MerchantId,
    pub limit: Option<u32>,
    pub offset: Option<u32>,
}

/// A rule that was migrated.
#[derive(Debug)]
pub struct RuleMigrationResponse {
    pub profile_id: ProfileId,
    pub euclid_algorithm_id: RoutingId,
    pub decision_engine_algorithm_id: String,
    pub is_active_rule: bool,
}

/// A rule that could not be migrated.
#[derive(Debug)]
pub struct RuleMigrationError {
    pub profile_id: ProfileId,
    pub algorithm_id: RoutingId,
    pub error: String,
}

/// The outcome of a migration.
#[derive(Debug)]
pub struct RuleMigrationResult {
    pub success: Vec<RuleMigrationResponse>,
    pub errors: Vec<RuleMigrationError>,
}

/// The limit that a migration works with: the limit asked for, or the
/// default where none was asked for, and never more than the maximum.
pub open spec fn limit_in_force(limit: Option<u32>) -> u32 {
    let asked = match limit {
        Some(n) => n,
        None => DEFAULT_MIGRATION_LIMIT,
    };
    if asked <= MAX_MIGRATION_LIMIT {
        asked
    } else {
        MAX_MIGRATION_LIMIT
    }
}

impl RuleMigrationQuery {
    /// The limit that the migration works with.
    pub fn validated_limit(&self) -> (res: u32)
        ensures
            res == limit_in_force(self.limit),
            1000 >= res,
    {
        let asked = match self.limit {
            Some(n) => n,
            None => DEFAULT_MIGRATION_LIMIT,
        };
        if asked <= MAX_MIGRATION_LIMIT {
            asked
        } else {
            MAX_MIGRATION_LIMIT
        }
    }
}

impl RuleMigrationResponse {
    pub fn new(
        profile_id: ProfileId,
        euclid_algorithm_id: RoutingId,
        decision_engine_algorithm_id: String,
        is_active_rule: bool,
    ) -> (res: Self)
        ensures
            res.profile_id == profile_id,
            res.euclid_algorithm_id == euclid_algorithm_id,
            res.decision_engine_algorithm_id == decision_engine_algorithm_id,
            res.is_active_rule == is_active_rule,
    {
        RuleMigrationResponse {
            profile_id,
            euclid_algorithm_id,
            decision_engine_algorithm_id,
            is_active_rule,
        }
    }
}

} // verus!
