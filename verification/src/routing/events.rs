//! What is exchanged with the scoring services of dynamic routing, and how
//! the approach that they report is classified.

use vstd::prelude::*;

use crate::numeric::FloatBits;
use crate::routing::contract::ContractBasedRoutingConfig;
use crate::routing::success_based::SuccessRateSpecificityLevel;
use crate::text::text_equals;

verus! {

/// Why a list of connectors was chosen.
#[derive(Debug, Clone, Copy, PartialEq, Eq, Structural)]
pub enum RoutingApproach {
    Exploitation,
    Exploration,
    Elimination,
    ContractBased,
    Default,
}

/// Which engine produced a routing result.
#[derive(Debug, Clone, Copy, PartialEq, Eq, Structural)]
pub enum RoutingResultSource {
    /// The external decision engine.
    DecisionEngine,
    /// The routing engine that runs in process.
    HyperswitchRouting,
}

/// The settings sent with a success-rate request.
#[derive(Debug, Clone)]
pub struct CalSuccessRateConfigEventRequest {
    pub min_aggregates_size: Option<u32>,
    pub default_success_rate: Option<FloatBits>,
    pub specificity_level: SuccessRateSpecificityLevel,
    pub exploration_percent: Option<FloatBits>,
}

/// A request for success-rate scores.
#[derive(Debug, Clone)]
pub struct CalSuccessRateEventRequest {
    pub id: String,
    pub params: String,
    pub labels: Vec<String>,
    pub config: Option<CalSuccessRateConfigEventRequest>,
}

/// The bucket settings sent with an elimination request.
#[derive(Debug, Clone, Copy, PartialEq, Eq, Structural)]
pub struct EliminationRoutingEventBucketConfig {
    pub bucket_size: Option<u64>,
    pub bucket_leak_interval_in_secs: Option<u64>,
}

/// A request for the connectors to eliminate.
#[derive(Debug, Clone)]
pub struct EliminationRoutingEventRequest {
    pub id: String,
    pub params: String,
    pub labels: Vec<String>,
    pub config: Option<EliminationRoutingEventBucketConfig>,
}

/// A request for contract scores.
#[derive(Debug)]
pub struct CalContractScoreEventRequest {
    pub id: String,
    pub params: String,
    pub labels: Vec<String>,
    pub config: Option<ContractBasedRoutingConfig>,
}

/// A connector label with the score it was given.
#[derive(Debug, Clone)]
pub struct LabelWithScoreEventResponse {
    pub score: FloatBits,
    pub label: String,
}

/// The scores of a success-rate request and the approach behind them.
#[derive(Debug, Clone)]
pub struct CalSuccessRateEventResponse {
    pub labels_with_score: Vec<LabelWithScoreEventResponse>,
    pub routing_approach: RoutingApproach,
}

/// The approach that a tag of the decision engine stands for. The mapping is
/// lossy on purpose: a tag that is not known stands for the default approach.
pub open spec fn approach_of_tag(tag: Seq<char>) -> RoutingApproach {
    if tag == "SR_SELECTION_V3_ROUTING"@ {
        RoutingApproach::Exploitation
    } else if tag == "SR_V3_HEDGING"@ {
        RoutingApproach::Exploration
    } else {
        RoutingApproach::Default
    }
}

/// The name under which an approach is displayed.
pub open spec fn approach_name(approach: RoutingApproach) -> Seq<char> {
    match approach {
        RoutingApproach::Exploitation => "Exploitation"@,
        RoutingApproach::Exploration => "Exploration"@,
        RoutingApproach::Elimination => "Elimination"@,
        RoutingApproach::ContractBased => "ContractBased"@,
        RoutingApproach::Default => "Default"@,
    }
}

/// The name under which a result source is written and displayed.
pub open spec fn source_name(source: RoutingResultSource) -> Seq<char> {
    match source {
        RoutingResultSource::DecisionEngine => "decision_engine"@,
        RoutingResultSource::HyperswitchRouting => "hyperswitch_routing"@,
    }
}

/// The result source that a name stands for, where it stands for one.
pub open spec fn source_of_name(name: Seq<char>) -> Option<RoutingResultSource> {
    if name == "decision_engine"@ {
        Some(RoutingResultSource::DecisionEngine)
    } else if name == "hyperswitch_routing"@ {
        Some(RoutingResultSource::HyperswitchRouting)
    } else {
        None
    }
}

impl RoutingApproach {
    /// Classifies a tag of the decision engine.
    pub fn from_decision_engine_approach(approach: &str) -> (res: Self)
        ensures
            res == approach_of_tag(approach@),
    {
        if text_equals(approach, "SR_SELECTION_V3_ROUTING") {
            RoutingApproach::Exploitation
        } else if text_equals(approach, "SR_V3_HEDGING") {
            RoutingApproach::Exploration
        } else {
            RoutingApproach::Default
        }
    }

    /// The approach's name.
    pub fn to_string(&self) -> (name: String)
        ensures
            name@ == approach_name(*self),
    {
        match self {
            RoutingApproach::Exploitation => String::from_str("Exploitation"),
            RoutingApproach::Exploration => String::from_str("Exploration"),
            RoutingApproach::Elimination => String::from_str("Elimination"),
            RoutingApproach::ContractBased => String::from_str("ContractBased"),
            RoutingApproach::Default => String::from_str("Default"),
        }
    }
}

impl RoutingResultSource {
    /// The source's name.
    pub fn to_string(&self) -> (name: String)
        ensures
            name@ == source_name(*self),
    {
        match self {
            RoutingResultSource::DecisionEngine => String::from_str("decision_engine"),
            RoutingResultSource::HyperswitchRouting => String::from_str("hyperswitch_routing"),
        }
    }

    /// The source of the given name; none for any other text.
    pub fn from_name(name: &str) -> (res: Option<Self>)
        ensures
            res == source_of_name(name@),
    {
        if text_equals(name, "decision_engine") {
            Some(RoutingResultSource::DecisionEngine)
        } else if text_equals(name, "hyperswitch_routing") {
            Some(RoutingResultSource::HyperswitchRouting)
        } else {
            None
        }
    }
}

/// The decision engine's tags for exploitation and exploration are told
/// apart, and every approach it can report is one of three.
pub proof fn lemma_approach_of_known_tags()
    ensures
        approach_of_tag("SR_SELECTION_V3_ROUTING"@) == RoutingApproach::Exploitation,
        approach_of_tag("SR_V3_HEDGING"@) == RoutingApproach::Exploration,
        forall|tag: Seq<char>|
            #![trigger approach_of_tag(tag)]
            approach_of_tag(tag) == RoutingApproach::Exploitation || approach_of_tag(tag)
                == RoutingApproach::Exploration || approach_of_tag(tag) == RoutingApproach::Default,
{
    reveal_strlit("SR_SELECTION_V3_ROUTING");
    reveal_strlit("SR_V3_HEDGING");
    assert("SR_SELECTION_V3_ROUTING"@.len() != "SR_V3_HEDGING"@.len());
}

/// A result source is read back from its own name.
pub proof fn lemma_source_name_round_trip(source: RoutingResultSource)
    ensures
        source_of_name(source_name(source)) == Some(source),
{
    reveal_strlit("decision_engine");
    reveal_strlit("hyperswitch_routing");
    assert("decision_engine"@.len() != "hyperswitch_routing"@.len());
}

} // verus!
