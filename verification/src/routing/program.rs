//! The program of rules that an advanced algorithm evaluates.
//!
//! A program is a list of named rules and a default output. A rule holds
//! statements; a statement is a conjunction of comparisons, optionally
//! refined by nested statements. The evaluation of a program is not part of
//! this library: it defines the vocabulary only.

use vstd::prelude::*;

use crate::routing::value::{ComparisonType, ValueType};

verus! {

/// One comparison of a payment attribute with a value. Metadata is carried
/// through as the JSON it was given as.
#[derive(Debug, Clone)]
pub struct Comparison {
    /// The attribute's key.
    pub lhs: String,
    pub comparison: ComparisonType,
    pub value: ValueType,
    pub metadata: std::collections::HashMap<String, serde_json::Value>,
}

/// A conjunction of comparisons with optional refinements.
#[derive(Debug)]
pub struct IfStatement {
    pub condition: Vec<Comparison>,
    pub nested: Option<Vec<IfStatement>>,
}

/// A named rule: where one of its statements holds, its output is selected.
#[derive(Debug)]
pub struct Rule<O> {
    pub name: String,
    pub connector_selection: O,
    pub statements: Vec<IfStatement>,
}

/// A program: rules in order, and the output where none applies.
#[derive(Debug)]
pub struct Program<O> {
    pub default_selection: O,
    pub rules: Vec<Rule<O>>,
    pub metadata: std::collections::HashMap<String, serde_json::Value>,
}

/// What a 3DS decision rule can decide.
#[derive(Debug, Clone, Copy, PartialEq, Eq, Structural)]
pub enum ThreeDSDecision {
    NoThreeDs,
    ChallengeRequested,
    ChallengePreferred,
    ThreeDsExemptionRequestedTra,
    ThreeDsExemptionRequestedLowValue,
    IssuerThreeDsExemptionRequested,
}

/// The output of a 3DS decision rule.
#[derive(Debug, Clone, Copy, PartialEq, Eq, Structural)]
pub struct ThreeDSDecisionRule {
    pub decision: ThreeDSDecision,
}

/// A program of 3DS decision rules, as it is documented to callers.
#[derive(Debug)]
pub struct ProgramThreeDsDecisionRule {
    pub default_selection: ThreeDSDecisionRule,
    pub rules: Vec<Rule<ThreeDSDecisionRule>>,
    pub metadata: std::collections::HashMap<String, serde_json::Value>,
}

/// A 3DS decision rule, as it is documented to callers.
#[derive(Debug)]
pub struct RuleThreeDsDecisionRule {
    pub name: String,
    pub connector_selection: ThreeDSDecision,
    pub statements: Vec<IfStatement>,
}

} // verus!
