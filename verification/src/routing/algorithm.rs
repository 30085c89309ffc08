//! Static routing algorithms: a single connector, a priority list, a volume
//! split, or a program of rules.
//!
//! A priority list and a volume split must name at least one connector. The
//! rule is enforced where an algorithm is read: the wire forms convert to the
//! algorithm types through a check that rejects an empty list, so no empty
//! algorithm is ever stored or handed on.

use vstd::prelude::*;
use vstd::std_specs::cmp::PartialEqSpecImpl;
use vstd::std_specs::convert::{FromSpecImpl, TryFromSpecImpl};

use crate::clock::now_unix_timestamp;
use crate::errors::ParsingError;
use crate::ids::RoutingId;
use crate::routing::connector_choice::{
    choice_identity, choices_equal, same_choices, same_splits, splits_equal, ConnectorSelection,
    ConnectorVolumeSplit, RoutableConnectorChoice,
};
use crate::routing::program::{Program, ThreeDSDecisionRule};

verus! {

/// The kinds of routing algorithm, as they are listed and filtered.
#[derive(Debug, Clone, Copy, PartialEq, Eq, Structural)]
pub enum RoutingAlgorithmKind {
    Single,
    Priority,
    VolumeSplit,
    Advanced,
    Dynamic,
    ThreeDsDecisionRule,
}

/// A static routing algorithm.
#[derive(Debug)]
pub enum StaticRoutingAlgorithm {
    Single(Box<RoutableConnectorChoice>),
    Priority(Vec<RoutableConnectorChoice>),
    VolumeSplit(Vec<ConnectorVolumeSplit>),
    Advanced(Program<ConnectorSelection>),
    ThreeDsDecisionRule(Program<ThreeDSDecisionRule>),
}

/// A static routing algorithm as it is read, before its lists are checked.
#[derive(Debug)]
pub enum RoutingAlgorithmSerde {
    Single(Box<RoutableConnectorChoice>),
    Priority(Vec<RoutableConnectorChoice>),
    VolumeSplit(Vec<ConnectorVolumeSplit>),
    Advanced(Program<ConnectorSelection>),
    ThreeDsDecisionRule(Program<ThreeDSDecisionRule>),
}

/// An algorithm given with a payment, to be used as it stands.
#[derive(Debug)]
pub enum StraightThroughAlgorithm {
    Single(Box<RoutableConnectorChoice>),
    Priority(Vec<RoutableConnectorChoice>),
    VolumeSplit(Vec<ConnectorVolumeSplit>),
}

/// A straight-through algorithm as it is read, before its lists are checked.
#[derive(Debug)]
pub enum StraightThroughAlgorithmInner {
    Single(Box<RoutableConnectorChoice>),
    Priority(Vec<RoutableConnectorChoice>),
    VolumeSplit(Vec<ConnectorVolumeSplit>),
}

/// The two envelopes in which a straight-through algorithm travels: by
/// itself, or under the key `algorithm`.
#[derive(Debug)]
pub enum StraightThroughAlgorithmSerde {
    Direct(StraightThroughAlgorithmInner),
    Nested { algorithm: StraightThroughAlgorithmInner },
}

/// The algorithms that a profile is currently routed by.
#[derive(Debug)]
pub struct RoutingAlgorithmRef {
    pub algorithm_id: Option<RoutingId>,
    pub timestamp: i64,
    pub config_algo_id: Option<String>,
    pub surcharge_config_algo_id: Option<String>,
}

/// The error for a priority list without connectors.
pub open spec fn empty_priority_error() -> ParsingError {
    ParsingError::StructParseFailure("Connectors list can't be empty for Priority Algorithm")
}

/// The error for a volume split without connectors.
pub open spec fn empty_volume_split_error() -> ParsingError {
    ParsingError::StructParseFailure("Connectors list can't be empty for Volume split Algorithm")
}

/// The algorithm that a wire value stands for: the value itself, unless it is
/// a priority list or a volume split without connectors, which is an error.
pub open spec fn static_algorithm_of_wire(value: RoutingAlgorithmSerde) -> Result<
    StaticRoutingAlgorithm,
    ParsingError,
> {
    match value {
        RoutingAlgorithmSerde::Single(i) => Ok(StaticRoutingAlgorithm::Single(i)),
        RoutingAlgorithmSerde::Priority(i) => if i@.len() == 0 {
            Err(empty_priority_error())
        } else {
            Ok(StaticRoutingAlgorithm::Priority(i))
        },
        RoutingAlgorithmSerde::VolumeSplit(i) => if i@.len() == 0 {
            Err(empty_volume_split_error())
        } else {
            Ok(StaticRoutingAlgorithm::VolumeSplit(i))
        },
        RoutingAlgorithmSerde::Advanced(i) => Ok(StaticRoutingAlgorithm::Advanced(i)),
        RoutingAlgorithmSerde::ThreeDsDecisionRule(i) => Ok(
            StaticRoutingAlgorithm::ThreeDsDecisionRule(i),
        ),
    }
}

/// What stands inside an envelope.
pub open spec fn envelope_content(
    value: StraightThroughAlgorithmSerde,
) -> StraightThroughAlgorithmInner {
    match value {
        StraightThroughAlgorithmSerde::Direct(algorithm) => algorithm,
        StraightThroughAlgorithmSerde::Nested { algorithm } => algorithm,
    }
}

/// The straight-through algorithm that an unchecked one stands for.
pub open spec fn straight_through_of_inner(inner: StraightThroughAlgorithmInner) -> Result<
    StraightThroughAlgorithm,
    ParsingError,
> {
    match inner {
        StraightThroughAlgorithmInner::Single(single) => Ok(
            StraightThroughAlgorithm::Single(single),
        ),
        StraightThroughAlgorithmInner::Priority(plist) => if plist@.len() == 0 {
            Err(empty_priority_error())
        } else {
            Ok(StraightThroughAlgorithm::Priority(plist))
        },
        StraightThroughAlgorithmInner::VolumeSplit(vsplit) => if vsplit@.len() == 0 {
            Err(empty_volume_split_error())
        } else {
            Ok(StraightThroughAlgorithm::VolumeSplit(vsplit))
        },
    }
}

/// The straight-through algorithm that a wire value stands for, whichever
/// envelope it came in.
pub open spec fn straight_through_of_wire(value: StraightThroughAlgorithmSerde) -> Result<
    StraightThroughAlgorithm,
    ParsingError,
> {
    straight_through_of_inner(envelope_content(value))
}

/// The wire value that a straight-through algorithm is written as: always
/// the nested envelope.
pub open spec fn wire_of_straight_through(
    value: StraightThroughAlgorithm,
) -> StraightThroughAlgorithmSerde {
    StraightThroughAlgorithmSerde::Nested {
        algorithm: match value {
            StraightThroughAlgorithm::Single(conn) => StraightThroughAlgorithmInner::Single(conn),
            StraightThroughAlgorithm::Priority(plist) => StraightThroughAlgorithmInner::Priority(
                plist,
            ),
            StraightThroughAlgorithm::VolumeSplit(vsplit) => {
                StraightThroughAlgorithmInner::VolumeSplit(vsplit)
            },
        },
    }
}

/// The static algorithm that a straight-through algorithm is.
pub open spec fn static_of_straight_through(
    value: StraightThroughAlgorithm,
) -> StaticRoutingAlgorithm {
    match value {
        StraightThroughAlgorithm::Single(conn) => StaticRoutingAlgorithm::Single(conn),
        StraightThroughAlgorithm::Priority(conns) => StaticRoutingAlgorithm::Priority(conns),
        StraightThroughAlgorithm::VolumeSplit(splits) => StaticRoutingAlgorithm::VolumeSplit(
            splits,
        ),
    }
}

/// The kind of a static algorithm.
pub open spec fn algorithm_kind(algorithm: StaticRoutingAlgorithm) -> RoutingAlgorithmKind {
    match algorithm {
        StaticRoutingAlgorithm::Single(_) => RoutingAlgorithmKind::Single,
        StaticRoutingAlgorithm::Priority(_) => RoutingAlgorithmKind::Priority,
        StaticRoutingAlgorithm::VolumeSplit(_) => RoutingAlgorithmKind::VolumeSplit,
        StaticRoutingAlgorithm::Advanced(_) => RoutingAlgorithmKind::Advanced,
        StaticRoutingAlgorithm::ThreeDsDecisionRule(_) => RoutingAlgorithmKind::ThreeDsDecisionRule,
    }
}

/// Whether a static algorithm meets the rule on its lists.
pub open spec fn well_formed(algorithm: StaticRoutingAlgorithm) -> bool {
    match algorithm {
        StaticRoutingAlgorithm::Priority(list) => list@.len() > 0,
        StaticRoutingAlgorithm::VolumeSplit(list) => list@.len() > 0,
        _ => true,
    }
}

/// Whether a straight-through algorithm meets the rule on its lists.
pub open spec fn straight_through_well_formed(algorithm: StraightThroughAlgorithm) -> bool {
    match algorithm {
        StraightThroughAlgorithm::Priority(list) => list@.len() > 0,
        StraightThroughAlgorithm::VolumeSplit(list) => list@.len() > 0,
        StraightThroughAlgorithm::Single(_) => true,
    }
}

/// Whether two straight-through algorithms are of the same kind and name the
/// same connectors, with the same weights, in the same order.
pub open spec fn same_straight_through(
    a: StraightThroughAlgorithm,
    b: StraightThroughAlgorithm,
) -> bool {
    match (a, b) {
        (StraightThroughAlgorithm::Single(x), StraightThroughAlgorithm::Single(y)) => {
            choice_identity(*x) == choice_identity(*y)
        },
        (StraightThroughAlgorithm::Priority(x), StraightThroughAlgorithm::Priority(y)) => {
            same_choices(x@, y@)
        },
        (StraightThroughAlgorithm::VolumeSplit(x), StraightThroughAlgorithm::VolumeSplit(y)) => {
            same_splits(x@, y@)
        },
        _ => false,
    }
}

/// The name under which a kind is written and displayed.
pub open spec fn kind_name(kind: RoutingAlgorithmKind) -> Seq<char> {
    match kind {
        RoutingAlgorithmKind::Single => "single"@,
        RoutingAlgorithmKind::Priority => "priority"@,
        RoutingAlgorithmKind::VolumeSplit => "volume_split"@,
        RoutingAlgorithmKind::Advanced => "advanced"@,
        RoutingAlgorithmKind::Dynamic => "dynamic"@,
        RoutingAlgorithmKind::ThreeDsDecisionRule => "three_ds_decision_rule"@,
    }
}

impl RoutingAlgorithmKind {
    /// The kind's name.
    pub fn to_string(&self) -> (name: String)
        ensures
            name@ == kind_name(*self),
    {
        match self {
            RoutingAlgorithmKind::Single => String::from_str("single"),
            RoutingAlgorithmKind::Priority => String::from_str("priority"),
            RoutingAlgorithmKind::VolumeSplit => String::from_str("volume_split"),
            RoutingAlgorithmKind::Advanced => String::from_str("advanced"),
            RoutingAlgorithmKind::Dynamic => String::from_str("dynamic"),
            RoutingAlgorithmKind::ThreeDsDecisionRule => String::from_str("three_ds_decision_rule"),
        }
    }
}

impl StaticRoutingAlgorithm {
    /// Whether the connectors that the algorithm names must exist for the
    /// merchant: true of every kind but the 3DS decision rule, which names
    /// none.
    pub fn should_validate_connectors_in_routing_config(&self) -> (res: bool)
        ensures
            res == !(*self is ThreeDsDecisionRule),
    {
        match self {
            StaticRoutingAlgorithm::Single(_)
            | StaticRoutingAlgorithm::Priority(_)
            | StaticRoutingAlgorithm::VolumeSplit(_)
            | StaticRoutingAlgorithm::Advanced(_) => true,
            StaticRoutingAlgorithm::ThreeDsDecisionRule(_) => false,
        }
    }

    /// The algorithm's kind.
    pub fn get_kind(&self) -> (res: RoutingAlgorithmKind)
        ensures
            res == algorithm_kind(*self),
    {
        match self {
            StaticRoutingAlgorithm::Single(_) => RoutingAlgorithmKind::Single,
            StaticRoutingAlgorithm::Priority(_) => RoutingAlgorithmKind::Priority,
            StaticRoutingAlgorithm::VolumeSplit(_) => RoutingAlgorithmKind::VolumeSplit,
            StaticRoutingAlgorithm::Advanced(_) => RoutingAlgorithmKind::Advanced,
            StaticRoutingAlgorithm::ThreeDsDecisionRule(_) => {
                RoutingAlgorithmKind::ThreeDsDecisionRule
            },
        }
    }
}

impl TryFrom<RoutingAlgorithmSerde> for StaticRoutingAlgorithm {
    type Error = ParsingError;

    fn try_from(value: RoutingAlgorithmSerde) -> (res: Result<Self, ParsingError>) {
        match value {
            RoutingAlgorithmSerde::Single(i) => Ok(StaticRoutingAlgorithm::Single(i)),
            RoutingAlgorithmSerde::Priority(i) => {
                if i.len() == 0 {
                    Err(
                        ParsingError::StructParseFailure(
                            "Connectors list can't be empty for Priority Algorithm",
                        ),
                    )
                } else {
                    Ok(StaticRoutingAlgorithm::Priority(i))
                }
            },
            RoutingAlgorithmSerde::VolumeSplit(i) => {
                if i.len() == 0 {
                    Err(
                        ParsingError::StructParseFailure(
                            "Connectors list can't be empty for Volume split Algorithm",
                        ),
                    )
                } else {
                    Ok(StaticRoutingAlgorithm::VolumeSplit(i))
                }
            },
            RoutingAlgorithmSerde::Advanced(i) => Ok(StaticRoutingAlgorithm::Advanced(i)),
            RoutingAlgorithmSerde::ThreeDsDecisionRule(i) => Ok(
                StaticRoutingAlgorithm::ThreeDsDecisionRule(i),
            ),
        }
    }
}

impl TryFromSpecImpl<RoutingAlgorithmSerde> for StaticRoutingAlgorithm {
    open spec fn obeys_try_from_spec() -> bool {
        true
    }

    open spec fn try_from_spec(value: RoutingAlgorithmSerde) -> Result<Self, ParsingError> {
        static_algorithm_of_wire(value)
    }
}

impl TryFrom<StraightThroughAlgorithmSerde> for StraightThroughAlgorithm {
    type Error = ParsingError;

    fn try_from(value: StraightThroughAlgorithmSerde) -> (res: Result<Self, ParsingError>) {
        let inner = match value {
            StraightThroughAlgorithmSerde::Direct(algorithm) => algorithm,
            StraightThroughAlgorithmSerde::Nested { algorithm } => algorithm,
        };
        match inner {
            StraightThroughAlgorithmInner::Single(single) => Ok(
                StraightThroughAlgorithm::Single(single),
            ),
            StraightThroughAlgorithmInner::Priority(plist) => {
                if plist.len() == 0 {
                    Err(
                        ParsingError::StructParseFailure(
                            "Connectors list can't be empty for Priority Algorithm",
                        ),
                    )
                } else {
                    Ok(StraightThroughAlgorithm::Priority(plist))
                }
            },
            StraightThroughAlgorithmInner::VolumeSplit(vsplit) => {
                if vsplit.len() == 0 {
                    Err(
                        ParsingError::StructParseFailure(
                            "Connectors list can't be empty for Volume split Algorithm",
                        ),
                    )
                } else {
                    Ok(StraightThroughAlgorithm::VolumeSplit(vsplit))
                }
            },
        }
    }
}

impl TryFromSpecImpl<StraightThroughAlgorithmSerde> for StraightThroughAlgorithm {
    open spec fn obeys_try_from_spec() -> bool {
        true
    }

    open spec fn try_from_spec(value: StraightThroughAlgorithmSerde) -> Result<
        Self,
        ParsingError,
    > {
        straight_through_of_wire(value)
    }
}

impl From<StraightThroughAlgorithm> for StraightThroughAlgorithmSerde {
    fn from(value: StraightThroughAlgorithm) -> (res: Self) {
        let inner = match value {
            StraightThroughAlgorithm::Single(conn) => StraightThroughAlgorithmInner::Single(conn),
            StraightThroughAlgorithm::Priority(plist) => StraightThroughAlgorithmInner::Priority(
                plist,
            ),
            StraightThroughAlgorithm::VolumeSplit(vsplit) => {
                StraightThroughAlgorithmInner::VolumeSplit(vsplit)
            },
        };
        StraightThroughAlgorithmSerde::Nested { algorithm: inner }
    }
}

impl FromSpecImpl<StraightThroughAlgorithm> for StraightThroughAlgorithmSerde {
    open spec fn obeys_from_spec() -> bool {
        true
    }

    open spec fn from_spec(value: StraightThroughAlgorithm) -> Self {
        wire_of_straight_through(value)
    }
}

impl From<StraightThroughAlgorithm> for StaticRoutingAlgorithm {
    fn from(value: StraightThroughAlgorithm) -> (res: Self) {
        match value {
            StraightThroughAlgorithm::Single(conn) => StaticRoutingAlgorithm::Single(conn),
            StraightThroughAlgorithm::Priority(conns) => StaticRoutingAlgorithm::Priority(conns),
            StraightThroughAlgorithm::VolumeSplit(splits) => StaticRoutingAlgorithm::VolumeSplit(
                splits,
            ),
        }
    }
}

impl FromSpecImpl<StraightThroughAlgorithm> for StaticRoutingAlgorithm {
    open spec fn obeys_from_spec() -> bool {
        true
    }

    open spec fn from_spec(value: StraightThroughAlgorithm) -> Self {
        static_of_straight_through(value)
    }
}

impl PartialEq for StraightThroughAlgorithm {
    fn eq(&self, other: &Self) -> (res: bool) {
        match (self, other) {
            (StraightThroughAlgorithm::Single(x), StraightThroughAlgorithm::Single(y)) => {
                let a: &RoutableConnectorChoice = x;
                let b: &RoutableConnectorChoice = y;
                a == b
            },
            (StraightThroughAlgorithm::Priority(x), StraightThroughAlgorithm::Priority(y)) => {
                choices_equal(x, y)
            },
            (
                StraightThroughAlgorithm::VolumeSplit(x),
                StraightThroughAlgorithm::VolumeSplit(y),
            ) => splits_equal(x, y),
            _ => false,
        }
    }
}

impl PartialEqSpecImpl for StraightThroughAlgorithm {
    open spec fn obeys_eq_spec() -> bool {
        true
    }

    open spec fn eq_spec(&self, other: &Self) -> bool {
        same_straight_through(*self, *other)
    }
}

impl Default for RoutingAlgorithmRef {
    fn default() -> (res: Self)
        ensures
            res.algorithm_id is None,
            res.timestamp == 0,
            res.config_algo_id is None,
            res.surcharge_config_algo_id is None,
    {
        RoutingAlgorithmRef {
            algorithm_id: None,
            timestamp: 0,
            config_algo_id: None,
            surcharge_config_algo_id: None,
        }
    }
}

impl RoutingAlgorithmRef {
    /// Sets the active algorithm and the time of the change.
    pub fn update_algorithm_id_at(&mut self, new_id: RoutingId, now: i64)
        ensures
            *final(self) == (RoutingAlgorithmRef {
                algorithm_id: Some(new_id),
                timestamp: now,
                ..*old(self)
            }),
    {
        self.algorithm_id = Some(new_id);
        self.timestamp = now;
    }

    /// Sets the conditional configuration and the time of the change.
    pub fn update_conditional_config_id_at(&mut self, ids: String, now: i64)
        ensures
            *final(self) == (RoutingAlgorithmRef {
                config_algo_id: Some(ids),
                timestamp: now,
                ..*old(self)
            }),
    {
        self.config_algo_id = Some(ids);
        self.timestamp = now;
    }

    /// Sets the surcharge configuration and the time of the change.
    pub fn update_surcharge_config_id_at(&mut self, ids: String, now: i64)
        ensures
            *final(self) == (RoutingAlgorithmRef {
                surcharge_config_algo_id: Some(ids),
                timestamp: now,
                ..*old(self)
            }),
    {
        self.surcharge_config_algo_id = Some(ids);
        self.timestamp = now;
    }

    /// Sets the active algorithm and stamps the change with the current
    /// time.
    pub fn update_algorithm_id(&mut self, new_id: RoutingId)
        ensures
            *final(self) == (RoutingAlgorithmRef {
                algorithm_id: Some(new_id),
                timestamp: final(self).timestamp,
                ..*old(self)
            }),
    {
        let now = now_unix_timestamp();
        self.update_algorithm_id_at(new_id, now);
    }

    /// Sets the conditional configuration and stamps the change with the
    /// current time.
    pub fn update_conditional_config_id(&mut self, ids: String)
        ensures
            *final(self) == (RoutingAlgorithmRef {
                config_algo_id: Some(ids),
                timestamp: final(self).timestamp,
                ..*old(self)
            }),
    {
        let now = now_unix_timestamp();
        self.update_conditional_config_id_at(ids, now);
    }

    /// Sets the surcharge configuration and stamps the change with the
    /// current time.
    pub fn update_surcharge_config_id(&mut self, ids: String)
        ensures
            *final(self) == (RoutingAlgorithmRef {
                surcharge_config_algo_id: Some(ids),
                timestamp: final(self).timestamp,
                ..*old(self)
            }),
    {
        let now = now_unix_timestamp();
        self.update_surcharge_config_id_at(ids, now);
    }

    /// The outcome of reading a stored reference: nothing stored is no
    /// reference, a stored value that was read is that reference, and a
    /// stored value that could not be read is the error of reading it.
    pub fn parse_routing_algorithm(value: Option<Result<Self, ParsingError>>) -> (res: Result<
        Option<Self>,
        ParsingError,
    >)
        ensures
            res == match value {
                None => Ok(None::<Self>),
                Some(Ok(parsed)) => Ok(Some(parsed)),
                Some(Err(error)) => Err(error),
            },
    {
        match value {
            None => Ok(None),
            Some(Ok(parsed)) => Ok(Some(parsed)),
            Some(Err(error)) => Err(error),
        }
    }
}

/// An algorithm that was accepted meets the rule on its lists, is of the
/// kind of the wire value, and holds what the wire value held; a wire value
/// is rejected exactly when it is a priority list or a volume split without
/// connectors.
pub proof fn lemma_accepted_algorithm_is_well_formed(value: RoutingAlgorithmSerde)
    ensures
        static_algorithm_of_wire(value) matches Ok(algorithm) ==> well_formed(algorithm),
        static_algorithm_of_wire(value) is Err <==> (value matches RoutingAlgorithmSerde::Priority(
            list,
        ) && list@.len() == 0) || (value matches RoutingAlgorithmSerde::VolumeSplit(list)
            && list@.len() == 0),
        value is Single ==> static_algorithm_of_wire(value) is Ok,
        value is Advanced ==> static_algorithm_of_wire(value) is Ok,
        value is ThreeDsDecisionRule ==> static_algorithm_of_wire(value) is Ok,
{
}

/// Both envelopes are read to the same value: an algorithm that stands by
/// itself and the same algorithm under the key `algorithm` give the same
/// result, be it an algorithm or an error.
pub proof fn lemma_envelopes_read_alike(inner: StraightThroughAlgorithmInner)
    ensures
        straight_through_of_wire(StraightThroughAlgorithmSerde::Direct(inner))
            == straight_through_of_wire(StraightThroughAlgorithmSerde::Nested { algorithm: inner }),
{
}

/// A straight-through algorithm is always written in the nested envelope,
/// and what was written is read back as the same algorithm.
pub proof fn lemma_straight_through_written_nested(algorithm: StraightThroughAlgorithm)
    ensures
        wire_of_straight_through(algorithm) is Nested,
        straight_through_well_formed(algorithm) ==> straight_through_of_wire(
            wire_of_straight_through(algorithm),
        ) == Ok::<StraightThroughAlgorithm, ParsingError>(algorithm),
{
}

/// Kind and validation follow the variant: only a 3DS decision rule is of the
/// kind of that name, and a straight-through algorithm keeps its kind when it
/// is taken as a static algorithm.
pub proof fn lemma_kind_follows_variant(
    algorithm: StaticRoutingAlgorithm,
    straight: StraightThroughAlgorithm,
)
    ensures
        algorithm is Single <==> algorithm_kind(algorithm) == RoutingAlgorithmKind::Single,
        algorithm is Priority <==> algorithm_kind(algorithm) == RoutingAlgorithmKind::Priority,
        algorithm is VolumeSplit <==> algorithm_kind(algorithm)
            == RoutingAlgorithmKind::VolumeSplit,
        algorithm is Advanced <==> algorithm_kind(algorithm) == RoutingAlgorithmKind::Advanced,
        algorithm is ThreeDsDecisionRule <==> algorithm_kind(algorithm)
            == RoutingAlgorithmKind::ThreeDsDecisionRule,
        algorithm_kind(algorithm) != RoutingAlgorithmKind::Dynamic,
        straight is Single ==> algorithm_kind(static_of_straight_through(straight))
            == RoutingAlgorithmKind::Single,
        straight is Priority ==> algorithm_kind(static_of_straight_through(straight))
            == RoutingAlgorithmKind::Priority,
        straight is VolumeSplit ==> algorithm_kind(static_of_straight_through(straight))
            == RoutingAlgorithmKind::VolumeSplit,
{
}

} // verus!
