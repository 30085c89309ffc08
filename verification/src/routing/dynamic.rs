//! Dynamic-routing state of a business profile.
//!
//! A profile has one slot for each strategy: success-rate based, elimination
//! and contract based routing. A slot is absent (unconfigured) or present;
//! a present slot holds an optional algorithm id, the time of its last change
//! and the feature that is enabled for it. The functions here are the
//! transitions between those states and the merge of one state into another.

use vstd::prelude::*;

use crate::clock::now_unix_timestamp;
use crate::ids::{clone_routing_id, RoutingId};

verus! {

/// What a strategy is enabled for.
#[derive(Debug, Clone, Copy, PartialEq, Eq, Structural)]
pub enum DynamicRoutingFeatures {
    /// Outcomes are recorded, routing is not changed.
    Metrics,
    /// Outcomes are recorded and connectors are chosen by them.
    DynamicConnectorSelection,
    /// Nothing is enabled.
    Disabled,
}

/// The three strategies of dynamic routing.
#[derive(Debug, Clone, Copy, PartialEq, Eq, Structural)]
pub enum DynamicRoutingType {
    SuccessRateBasedRouting,
    EliminationRouting,
    ContractBasedRouting,
}

/// Whether traffic is routed by a static algorithm or dynamically.
#[derive(Debug, Clone, Copy, PartialEq, Eq, Structural)]
pub enum RoutingType {
    Static,
    Dynamic,
}

/// The share of traffic given to one way of routing.
#[derive(Debug, Clone, Copy)]
pub struct RoutingVolumeSplit {
    pub routing_type: RoutingType,
    pub split: u8,
}

/// An optional algorithm id with the time at which it last changed.
#[derive(Debug)]
pub struct DynamicAlgorithmWithTimestamp<T> {
    pub algorithm_id: Option<T>,
    pub timestamp: i64,
}

/// The slot of success-rate based routing.
#[derive(Debug)]
pub struct SuccessBasedAlgorithm {
    pub algorithm_id_with_timestamp: DynamicAlgorithmWithTimestamp<RoutingId>,
    pub enabled_feature: DynamicRoutingFeatures,
}

/// The slot of contract based routing.
#[derive(Debug)]
pub struct ContractRoutingAlgorithm {
    pub algorithm_id_with_timestamp: DynamicAlgorithmWithTimestamp<RoutingId>,
    pub enabled_feature: DynamicRoutingFeatures,
}

/// The slot of elimination routing.
#[derive(Debug)]
pub struct EliminationRoutingAlgorithm {
    pub algorithm_id_with_timestamp: DynamicAlgorithmWithTimestamp<RoutingId>,
    pub enabled_feature: DynamicRoutingFeatures,
}

/// The dynamic-routing state of a profile.
#[derive(Debug)]
pub struct DynamicRoutingAlgorithmRef {
    pub success_based_algorithm: Option<SuccessBasedAlgorithm>,
    pub dynamic_routing_volume_split: Option<u8>,
    pub elimination_routing_algorithm: Option<EliminationRoutingAlgorithm>,
    pub contract_based_routing: Option<ContractRoutingAlgorithm>,
    pub is_merchant_created_in_decision_engine: bool,
}

/// What the three kinds of slot have in common.
pub trait DynamicRoutingAlgoAccessor: Sized {
    /// The slot's algorithm id and timestamp.
    spec fn id_with_timestamp(self) -> DynamicAlgorithmWithTimestamp<RoutingId>;

    /// The slot's enabled feature.
    spec fn feature(self) -> DynamicRoutingFeatures;

    /// The slot with another enabled feature and nothing else changed.
    spec fn with_feature(self, feature: DynamicRoutingFeatures) -> Self;

    /// Takes the id and timestamp out of the slot.
    fn get_algorithm_id_with_timestamp(self) -> (res: DynamicAlgorithmWithTimestamp<RoutingId>)
        ensures
            res == self.id_with_timestamp(),
    ;

    /// Hands out the enabled feature for reading and writing: what is
    /// written through the reference becomes the slot's feature, and the
    /// rest of the slot stays as it was.
    fn get_enabled_features(&mut self) -> (res: &mut DynamicRoutingFeatures)
        ensures
            *res == old(self).feature(),
            *final(self) == old(self).with_feature(*final(res)),
    ;
}

impl DynamicRoutingAlgoAccessor for SuccessBasedAlgorithm {
    open spec fn id_with_timestamp(self) -> DynamicAlgorithmWithTimestamp<RoutingId> {
        self.algorithm_id_with_timestamp
    }

    open spec fn feature(self) -> DynamicRoutingFeatures {
        self.enabled_feature
    }

    open spec fn with_feature(self, feature: DynamicRoutingFeatures) -> Self {
        SuccessBasedAlgorithm { enabled_feature: feature, ..self }
    }

    fn get_algorithm_id_with_timestamp(self) -> (res: DynamicAlgorithmWithTimestamp<RoutingId>) {
        self.algorithm_id_with_timestamp
    }

    fn get_enabled_features(&mut self) -> (res: &mut DynamicRoutingFeatures) {
        &mut self.enabled_feature
    }
}

impl DynamicRoutingAlgoAccessor for EliminationRoutingAlgorithm {
    open spec fn id_with_timestamp(self) -> DynamicAlgorithmWithTimestamp<RoutingId> {
        self.algorithm_id_with_timestamp
    }

    open spec fn feature(self) -> DynamicRoutingFeatures {
        self.enabled_feature
    }

    open spec fn with_feature(self, feature: DynamicRoutingFeatures) -> Self {
        EliminationRoutingAlgorithm { enabled_feature: feature, ..self }
    }

    fn get_algorithm_id_with_timestamp(self) -> (res: DynamicAlgorithmWithTimestamp<RoutingId>) {
        self.algorithm_id_with_timestamp
    }

    fn get_enabled_features(&mut self) -> (res: &mut DynamicRoutingFeatures) {
        &mut self.enabled_feature
    }
}

impl DynamicRoutingAlgoAccessor for ContractRoutingAlgorithm {
    open spec fn id_with_timestamp(self) -> DynamicAlgorithmWithTimestamp<RoutingId> {
        self.algorithm_id_with_timestamp
    }

    open spec fn feature(self) -> DynamicRoutingFeatures {
        self.enabled_feature
    }

    open spec fn with_feature(self, feature: DynamicRoutingFeatures) -> Self {
        ContractRoutingAlgorithm { enabled_feature: feature, ..self }
    }

    fn get_algorithm_id_with_timestamp(self) -> (res: DynamicAlgorithmWithTimestamp<RoutingId>) {
        self.algorithm_id_with_timestamp
    }

    fn get_enabled_features(&mut self) -> (res: &mut DynamicRoutingFeatures) {
        &mut self.enabled_feature
    }
}

impl Default for DynamicRoutingFeatures {
    fn default() -> (res: Self)
        ensures
            res == DynamicRoutingFeatures::Disabled,
    {
        DynamicRoutingFeatures::Disabled
    }
}

impl Default for RoutingType {
    fn default() -> (res: Self)
        ensures
            res == RoutingType::Static,
    {
        RoutingType::Static
    }
}

impl Default for RoutingVolumeSplit {
    fn default() -> (res: Self)
        ensures
            res.routing_type == RoutingType::Static,
            res.split == 0,
    {
        RoutingVolumeSplit { routing_type: RoutingType::Static, split: 0 }
    }
}

impl Default for DynamicRoutingAlgorithmRef {
    fn default() -> (res: Self)
        ensures
            res == unconfigured(),
    {
        DynamicRoutingAlgorithmRef {
            success_based_algorithm: None,
            dynamic_routing_volume_split: None,
            elimination_routing_algorithm: None,
            contract_based_routing: None,
            is_merchant_created_in_decision_engine: false,
        }
    }
}

impl RoutingType {
    pub fn is_dynamic_routing(self) -> (res: bool)
        ensures
            res == (self == RoutingType::Dynamic),
    {
        self == RoutingType::Dynamic
    }
}

impl<T> DynamicAlgorithmWithTimestamp<T> {
    /// An id stamped with the given time.
    pub fn new_at(algorithm_id: Option<T>, timestamp: i64) -> (res: Self)
        ensures
            res.algorithm_id == algorithm_id,
            res.timestamp == timestamp,
    {
        DynamicAlgorithmWithTimestamp { algorithm_id, timestamp }
    }

    /// An id stamped with the current time.
    pub fn new(algorithm_id: Option<T>) -> (res: Self)
        ensures
            res.algorithm_id == algorithm_id,
    {
        let now = now_unix_timestamp();
        Self::new_at(algorithm_id, now)
    }
}

impl Clone for DynamicAlgorithmWithTimestamp<RoutingId> {
    fn clone(&self) -> (res: Self)
        ensures
            res == *self,
    {
        DynamicAlgorithmWithTimestamp {
            algorithm_id: clone_routing_id(&self.algorithm_id),
            timestamp: self.timestamp,
        }
    }
}

impl Clone for SuccessBasedAlgorithm {
    fn clone(&self) -> (res: Self)
        ensures
            res == *self,
    {
        SuccessBasedAlgorithm {
            algorithm_id_with_timestamp: self.algorithm_id_with_timestamp.clone(),
            enabled_feature: self.enabled_feature,
        }
    }
}

impl Clone for EliminationRoutingAlgorithm {
    fn clone(&self) -> (res: Self)
        ensures
            res == *self,
    {
        EliminationRoutingAlgorithm {
            algorithm_id_with_timestamp: self.algorithm_id_with_timestamp.clone(),
            enabled_feature: self.enabled_feature,
        }
    }
}

impl Clone for ContractRoutingAlgorithm {
    fn clone(&self) -> (res: Self)
        ensures
            res == *self,
    {
        ContractRoutingAlgorithm {
            algorithm_id_with_timestamp: self.algorithm_id_with_timestamp.clone(),
            enabled_feature: self.enabled_feature,
        }
    }
}

impl Clone for DynamicRoutingAlgorithmRef {
    fn clone(&self) -> (res: Self)
        ensures
            res == *self,
    {
        DynamicRoutingAlgorithmRef {
            success_based_algorithm: match &self.success_based_algorithm {
                Some(slot) => Some(slot.clone()),
                None => None,
            },
            dynamic_routing_volume_split: self.dynamic_routing_volume_split,
            elimination_routing_algorithm: match &self.elimination_routing_algorithm {
                Some(slot) => Some(slot.clone()),
                None => None,
            },
            contract_based_routing: match &self.contract_based_routing {
                Some(slot) => Some(slot.clone()),
                None => None,
            },
            is_merchant_created_in_decision_engine: self.is_merchant_created_in_decision_engine,
        }
    }
}

impl EliminationRoutingAlgorithm {
    /// A slot with the given id and no feature enabled.
    pub fn new(algorithm_id_with_timestamp: DynamicAlgorithmWithTimestamp<RoutingId>) -> (res:
        Self)
        ensures
            res.algorithm_id_with_timestamp == algorithm_id_with_timestamp,
            res.enabled_feature == DynamicRoutingFeatures::Disabled,
    {
        EliminationRoutingAlgorithm {
            algorithm_id_with_timestamp,
            enabled_feature: DynamicRoutingFeatures::Disabled,
        }
    }

    pub fn update_enabled_features(&mut self, feature_to_enable: DynamicRoutingFeatures)
        ensures
            final(self).enabled_feature == feature_to_enable,
            final(self).algorithm_id_with_timestamp == old(self).algorithm_id_with_timestamp,
    {
        self.enabled_feature = feature_to_enable
    }
}

impl SuccessBasedAlgorithm {
    /// A slot with the given id and no feature enabled.
    pub fn new(algorithm_id_with_timestamp: DynamicAlgorithmWithTimestamp<RoutingId>) -> (res:
        Self)
        ensures
            res.algorithm_id_with_timestamp == algorithm_id_with_timestamp,
            res.enabled_feature == DynamicRoutingFeatures::Disabled,
    {
        SuccessBasedAlgorithm {
            algorithm_id_with_timestamp,
            enabled_feature: DynamicRoutingFeatures::Disabled,
        }
    }

    pub fn update_enabled_features(&mut self, feature_to_enable: DynamicRoutingFeatures)
        ensures
            final(self).enabled_feature == feature_to_enable,
            final(self).algorithm_id_with_timestamp == old(self).algorithm_id_with_timestamp,
    {
        self.enabled_feature = feature_to_enable
    }
}

/// The state in which no strategy is configured.
pub open spec fn unconfigured() -> DynamicRoutingAlgorithmRef {
    DynamicRoutingAlgorithmRef {
        success_based_algorithm: None,
        dynamic_routing_volume_split: None,
        elimination_routing_algorithm: None,
        contract_based_routing: None,
        is_merchant_created_in_decision_engine: false,
    }
}

/// Whether a feature counts as enabled.
pub open spec fn feature_is_on(feature: DynamicRoutingFeatures) -> bool {
    feature == DynamicRoutingFeatures::Metrics || feature
        == DynamicRoutingFeatures::DynamicConnectorSelection
}

/// The enabled feature of a strategy's slot, where the slot is present.
pub open spec fn slot_feature(
    state: DynamicRoutingAlgorithmRef,
    strategy: DynamicRoutingType,
) -> Option<DynamicRoutingFeatures> {
    match strategy {
        DynamicRoutingType::SuccessRateBasedRouting => match state.success_based_algorithm {
            Some(slot) => Some(slot.enabled_feature),
            None => None,
        },
        DynamicRoutingType::EliminationRouting => match state.elimination_routing_algorithm {
            Some(slot) => Some(slot.enabled_feature),
            None => None,
        },
        DynamicRoutingType::ContractBasedRouting => match state.contract_based_routing {
            Some(slot) => Some(slot.enabled_feature),
            None => None,
        },
    }
}

/// The id and timestamp of a strategy's slot, where the slot is present.
pub open spec fn slot_id(
    state: DynamicRoutingAlgorithmRef,
    strategy: DynamicRoutingType,
) -> Option<DynamicAlgorithmWithTimestamp<RoutingId>> {
    match strategy {
        DynamicRoutingType::SuccessRateBasedRouting => match state.success_based_algorithm {
            Some(slot) => Some(slot.algorithm_id_with_timestamp),
            None => None,
        },
        DynamicRoutingType::EliminationRouting => match state.elimination_routing_algorithm {
            Some(slot) => Some(slot.algorithm_id_with_timestamp),
            None => None,
        },
        DynamicRoutingType::ContractBasedRouting => match state.contract_based_routing {
            Some(slot) => Some(slot.algorithm_id_with_timestamp),
            None => None,
        },
    }
}

/// The state in which a strategy's slot holds the given id, timestamp and
/// feature, and everything else is as in `state`.
pub open spec fn with_slot(
    state: DynamicRoutingAlgorithmRef,
    strategy: DynamicRoutingType,
    id: DynamicAlgorithmWithTimestamp<RoutingId>,
    feature: DynamicRoutingFeatures,
) -> DynamicRoutingAlgorithmRef {
    match strategy {
        DynamicRoutingType::SuccessRateBasedRouting => DynamicRoutingAlgorithmRef {
            success_based_algorithm: Some(
                SuccessBasedAlgorithm { algorithm_id_with_timestamp: id, enabled_feature: feature },
            ),
            ..state
        },
        DynamicRoutingType::EliminationRouting => DynamicRoutingAlgorithmRef {
            elimination_routing_algorithm: Some(
                EliminationRoutingAlgorithm {
                    algorithm_id_with_timestamp: id,
                    enabled_feature: feature,
                },
            ),
            ..state
        },
        DynamicRoutingType::ContractBasedRouting => DynamicRoutingAlgorithmRef {
            contract_based_routing: Some(
                ContractRoutingAlgorithm {
                    algorithm_id_with_timestamp: id,
                    enabled_feature: feature,
                },
            ),
            ..state
        },
    }
}

/// The merge of a patch into a state: each slot that the patch holds
/// replaces the state's, each slot that the patch lacks is left alone, and
/// the volume split and the decision-engine flag are the state's.
pub open spec fn merged(
    state: DynamicRoutingAlgorithmRef,
    patch: DynamicRoutingAlgorithmRef,
) -> DynamicRoutingAlgorithmRef {
    DynamicRoutingAlgorithmRef {
        success_based_algorithm: if patch.success_based_algorithm is Some {
            patch.success_based_algorithm
        } else {
            state.success_based_algorithm
        },
        elimination_routing_algorithm: if patch.elimination_routing_algorithm is Some {
            patch.elimination_routing_algorithm
        } else {
            state.elimination_routing_algorithm
        },
        contract_based_routing: if patch.contract_based_routing is Some {
            patch.contract_based_routing
        } else {
            state.contract_based_routing
        },
        ..state
    }
}

/// The state after a strategy is given an algorithm id and a feature at the
/// given time: the slot is replaced whole.
pub open spec fn after_update_algorithm_id(
    state: DynamicRoutingAlgorithmRef,
    new_id: RoutingId,
    enabled_feature: DynamicRoutingFeatures,
    strategy: DynamicRoutingType,
    now: i64,
) -> DynamicRoutingAlgorithmRef {
    with_slot(
        state,
        strategy,
        DynamicAlgorithmWithTimestamp { algorithm_id: Some(new_id), timestamp: now },
        enabled_feature,
    )
}

/// The state after a strategy's algorithm id is cleared at the given time:
/// a present slot loses its id, takes the new timestamp and keeps its
/// feature; an absent slot stays absent.
pub open spec fn after_disable_algorithm_id(
    state: DynamicRoutingAlgorithmRef,
    strategy: DynamicRoutingType,
    now: i64,
) -> DynamicRoutingAlgorithmRef {
    match slot_feature(state, strategy) {
        Some(feature) => with_slot(
            state,
            strategy,
            DynamicAlgorithmWithTimestamp { algorithm_id: None, timestamp: now },
            feature,
        ),
        None => state,
    }
}

/// The state after a strategy's feature is set: a present slot takes the
/// feature and keeps its id and timestamp; an absent slot stays absent.
pub open spec fn after_update_enabled_features(
    state: DynamicRoutingAlgorithmRef,
    strategy: DynamicRoutingType,
    feature: DynamicRoutingFeatures,
) -> DynamicRoutingAlgorithmRef {
    match slot_id(state, strategy) {
        Some(id) => with_slot(state, strategy, id, feature),
        None => state,
    }
}

impl DynamicRoutingAlgorithmRef {
    /// Merges a patch into this state, slot by slot.
    pub fn update(&mut self, new: Self)
        ensures
            *final(self) == merged(*old(self), new),
    {
        match new.elimination_routing_algorithm {
            Some(elimination_routing_algorithm) => {
                self.elimination_routing_algorithm = Some(elimination_routing_algorithm);
            },
            None => {},
        }
        match new.success_based_algorithm {
            Some(success_based_algorithm) => {
                self.success_based_algorithm = Some(success_based_algorithm);
            },
            None => {},
        }
        match new.contract_based_routing {
            Some(contract_based_routing) => {
                self.contract_based_routing = Some(contract_based_routing);
            },
            None => {},
        }
    }

    /// Sets the feature of a strategy's slot; does nothing where the slot is
    /// absent.
    pub fn update_enabled_features(
        &mut self,
        algo_type: DynamicRoutingType,
        feature_to_enable: DynamicRoutingFeatures,
    )
        ensures
            *final(self) == after_update_enabled_features(
                *old(self),
                algo_type,
                feature_to_enable,
            ),
    {
        match algo_type {
            DynamicRoutingType::SuccessRateBasedRouting => {
                match &mut self.success_based_algorithm {
                    Some(algo) => {
                        algo.enabled_feature = feature_to_enable;
                    },
                    None => {},
                }
            },
            DynamicRoutingType::EliminationRouting => {
                match &mut self.elimination_routing_algorithm {
                    Some(algo) => {
                        algo.enabled_feature = feature_to_enable;
                    },
                    None => {},
                }
            },
            DynamicRoutingType::ContractBasedRouting => {
                match &mut self.contract_based_routing {
                    Some(algo) => {
                        algo.enabled_feature = feature_to_enable;
                    },
                    None => {},
                }
            },
        }
    }

    pub fn update_volume_split(&mut self, volume: Option<u8>)
        ensures
            *final(self) == (DynamicRoutingAlgorithmRef {
                dynamic_routing_volume_split: volume,
                ..*old(self)
            }),
    {
        self.dynamic_routing_volume_split = volume
    }

    pub fn update_merchant_creation_status_in_decision_engine(&mut self, is_created: bool)
        ensures
            *final(self) == (DynamicRoutingAlgorithmRef {
                is_merchant_created_in_decision_engine: is_created,
                ..*old(self)
            }),
    {
        self.is_merchant_created_in_decision_engine = is_created;
    }

    /// Whether success-rate based routing is configured and enabled.
    pub fn is_success_rate_routing_enabled(&self) -> (res: bool)
        ensures
            res == (slot_feature(*self, DynamicRoutingType::SuccessRateBasedRouting) matches Some(
                feature,
            ) && feature_is_on(feature)),
    {
        match &self.success_based_algorithm {
            Some(success_based_routing) => {
                success_based_routing.enabled_feature
                    == DynamicRoutingFeatures::DynamicConnectorSelection
                    || success_based_routing.enabled_feature == DynamicRoutingFeatures::Metrics
            },
            None => false,
        }
    }

    /// Whether elimination routing is configured and enabled.
    pub fn is_elimination_enabled(&self) -> (res: bool)
        ensures
            res == (slot_feature(*self, DynamicRoutingType::EliminationRouting) matches Some(
                feature,
            ) && feature_is_on(feature)),
    {
        match &self.elimination_routing_algorithm {
            Some(elimination_routing) => {
                elimination_routing.enabled_feature
                    == DynamicRoutingFeatures::DynamicConnectorSelection
                    || elimination_routing.enabled_feature == DynamicRoutingFeatures::Metrics
            },
            None => false,
        }
    }

    /// Gives a strategy an algorithm id and a feature, stamped with the
    /// given time.
    pub fn update_algorithm_id_at(
        &mut self,
        new_id: RoutingId,
        enabled_feature: DynamicRoutingFeatures,
        dynamic_routing_type: DynamicRoutingType,
        now: i64,
    )
        ensures
            *final(self) == after_update_algorithm_id(
                *old(self),
                new_id,
                enabled_feature,
                dynamic_routing_type,
                now,
            ),
    {
        let stamped = DynamicAlgorithmWithTimestamp::new_at(Some(new_id), now);
        match dynamic_routing_type {
            DynamicRoutingType::SuccessRateBasedRouting => {
                self.success_based_algorithm = Some(
                    SuccessBasedAlgorithm { algorithm_id_with_timestamp: stamped, enabled_feature },
                )
            },
            DynamicRoutingType::EliminationRouting => {
                self.elimination_routing_algorithm = Some(
                    EliminationRoutingAlgorithm {
                        algorithm_id_with_timestamp: stamped,
                        enabled_feature,
                    },
                )
            },
            DynamicRoutingType::ContractBasedRouting => {
                self.contract_based_routing = Some(
                    ContractRoutingAlgorithm {
                        algorithm_id_with_timestamp: stamped,
                        enabled_feature,
                    },
                )
            },
        };
    }

    /// Gives a strategy an algorithm id and a feature, stamped with the
    /// current time.
    pub fn update_algorithm_id(
        &mut self,
        new_id: RoutingId,
        enabled_feature: DynamicRoutingFeatures,
        dynamic_routing_type: DynamicRoutingType,
    )
        ensures
            exists|now: i64|
                *final(self) == after_update_algorithm_id(
                    *old(self),
                    new_id,
                    enabled_feature,
                    dynamic_routing_type,
                    now,
                ),
    {
        let now = now_unix_timestamp();
        self.update_algorithm_id_at(new_id, enabled_feature, dynamic_routing_type, now);
    }

    /// Clears a strategy's algorithm id, stamped with the given time.
    pub fn disable_algorithm_id_at(&mut self, dynamic_routing_type: DynamicRoutingType, now: i64)
        ensures
            *final(self) == after_disable_algorithm_id(*old(self), dynamic_routing_type, now),
    {
        match dynamic_routing_type {
            DynamicRoutingType::SuccessRateBasedRouting => {
                match &self.success_based_algorithm {
                    Some(success_based_algo) => {
                        let enabled_feature = success_based_algo.enabled_feature;
                        self.success_based_algorithm = Some(
                            SuccessBasedAlgorithm {
                                algorithm_id_with_timestamp: DynamicAlgorithmWithTimestamp::new_at(
                                    None,
                                    now,
                                ),
                                enabled_feature,
                            },
                        );
                    },
                    None => {},
                }
            },
            DynamicRoutingType::EliminationRouting => {
                match &self.elimination_routing_algorithm {
                    Some(elimination_based_algo) => {
                        let enabled_feature = elimination_based_algo.enabled_feature;
                        self.elimination_routing_algorithm = Some(
                            EliminationRoutingAlgorithm {
                                algorithm_id_with_timestamp: DynamicAlgorithmWithTimestamp::new_at(
                                    None,
                                    now,
                                ),
                                enabled_feature,
                            },
                        );
                    },
                    None => {},
                }
            },
            DynamicRoutingType::ContractBasedRouting => {
                match &self.contract_based_routing {
                    Some(contract_based_algo) => {
                        let enabled_feature = contract_based_algo.enabled_feature;
                        self.contract_based_routing = Some(
                            ContractRoutingAlgorithm {
                                algorithm_id_with_timestamp: DynamicAlgorithmWithTimestamp::new_at(
                                    None,
                                    now,
                                ),
                                enabled_feature,
                            },
                        );
                    },
                    None => {},
                }
            },
        }
    }

    /// Clears a strategy's algorithm id, stamped with the current time.
    pub fn disable_algorithm_id(&mut self, dynamic_routing_type: DynamicRoutingType)
        ensures
            exists|now: i64|
                *final(self) == after_disable_algorithm_id(
                    *old(self),
                    dynamic_routing_type,
                    now,
                ),
    {
        let now = now_unix_timestamp();
        self.disable_algorithm_id_at(dynamic_routing_type, now);
    }
}

/// Merging the same patch a second time changes nothing.
pub proof fn lemma_update_idempotent(
    state: DynamicRoutingAlgorithmRef,
    patch: DynamicRoutingAlgorithmRef,
)
    ensures
        merged(merged(state, patch), patch) == merged(state, patch),
{
}

/// A merge never removes a slot, and a patch without slots changes nothing.
pub proof fn lemma_update_keeps_slots(
    state: DynamicRoutingAlgorithmRef,
    patch: DynamicRoutingAlgorithmRef,
    strategy: DynamicRoutingType,
)
    ensures
        slot_feature(state, strategy) is Some ==> slot_feature(merged(state, patch), strategy)
            is Some,
        slot_feature(patch, strategy) is None ==> slot_feature(merged(state, patch), strategy)
            == slot_feature(state, strategy) && slot_id(merged(state, patch), strategy)
            == slot_id(state, strategy),
        slot_feature(patch, strategy) is Some ==> slot_feature(merged(state, patch), strategy)
            == slot_feature(patch, strategy) && slot_id(merged(state, patch), strategy)
            == slot_id(patch, strategy),
{
}

/// Clearing a strategy's id keeps its feature: a present slot afterwards has
/// no id and the feature it had, every other slot is untouched, and an
/// absent slot stays absent.
pub proof fn lemma_disable_preserves_feature(
    state: DynamicRoutingAlgorithmRef,
    strategy: DynamicRoutingType,
    other: DynamicRoutingType,
    now: i64,
)
    ensures
        slot_feature(after_disable_algorithm_id(state, strategy, now), strategy) == slot_feature(
            state,
            strategy,
        ),
        slot_id(state, strategy) is Some ==> slot_id(
            after_disable_algorithm_id(state, strategy, now),
            strategy,
        ) == Some(DynamicAlgorithmWithTimestamp::<RoutingId> { algorithm_id: None, timestamp: now }),
        slot_id(state, strategy) is None ==> after_disable_algorithm_id(state, strategy, now)
            == state,
        other != strategy ==> slot_feature(
            after_disable_algorithm_id(state, strategy, now),
            other,
        ) == slot_feature(state, other) && slot_id(
            after_disable_algorithm_id(state, strategy, now),
            other,
        ) == slot_id(state, other),
{
}

/// Giving a strategy an id configures exactly that strategy's slot, with the
/// id, the time and the feature given.
pub proof fn lemma_update_algorithm_id_configures(
    state: DynamicRoutingAlgorithmRef,
    new_id: RoutingId,
    feature: DynamicRoutingFeatures,
    strategy: DynamicRoutingType,
    other: DynamicRoutingType,
    now: i64,
)
    ensures
        slot_feature(
            after_update_algorithm_id(state, new_id, feature, strategy, now),
            strategy,
        ) == Some(feature),
        slot_id(after_update_algorithm_id(state, new_id, feature, strategy, now), strategy)
            == Some(DynamicAlgorithmWithTimestamp { algorithm_id: Some(new_id), timestamp: now }),
        other != strategy ==> slot_feature(
            after_update_algorithm_id(state, new_id, feature, strategy, now),
            other,
        ) == slot_feature(state, other) && slot_id(
            after_update_algorithm_id(state, new_id, feature, strategy, now),
            other,
        ) == slot_id(state, other),
{
}

/// Setting a feature never creates a slot and never touches an id.
pub proof fn lemma_update_enabled_features_keeps_ids(
    state: DynamicRoutingAlgorithmRef,
    strategy: DynamicRoutingType,
    other: DynamicRoutingType,
    feature: DynamicRoutingFeatures,
)
    ensures
        slot_id(after_update_enabled_features(state, strategy, feature), other) == slot_id(
            state,
            other,
        ),
        slot_feature(state, strategy) is Some ==> slot_feature(
            after_update_enabled_features(state, strategy, feature),
            strategy,
        ) == Some(feature),
        slot_feature(state, strategy) is None ==> after_update_enabled_features(
            state,
            strategy,
            feature,
        ) == state,
        other != strategy ==> slot_feature(
            after_update_enabled_features(state, strategy, feature),
            other,
        ) == slot_feature(state, other),
{
}

} // verus!
