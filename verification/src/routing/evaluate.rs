//! The request to evaluate routing rules for a payment, and the response.

use vstd::prelude::*;

use crate::routing::connector_choice::{
    choice_of_gateway, DeRoutableConnectorChoice, RoutableChoiceKind, RoutableConnectorChoice,
};
use crate::routing::value::ValueType;

verus! {

/// A request to evaluate the rules for a payment.
#[derive(Debug)]
pub struct RoutingEvaluateRequest {
    /// Who asks.
    pub created_by: String,
    /// The payment's attributes, by name; an attribute may be named without
    /// a value.
    pub parameters: std::collections::HashMap<String, Option<ValueType>>,
    /// The connectors to use where the rules select none.
    pub fallback_output: Vec<DeRoutableConnectorChoice>,
}

/// The outcome of an evaluation.
#[derive(Debug)]
pub struct RoutingEvaluateResponse {
    pub status: String,
    /// The evaluator's own output, handed on unread.
    pub output: serde_json::Value,
    /// The connectors that the rules selected.
    pub evaluated_output: Vec<RoutableConnectorChoice>,
    /// The connectors that are eligible after filtering.
    pub eligible_connectors: Vec<RoutableConnectorChoice>,
}

/// The choices that a list of the evaluator's choices stands for.
pub open spec fn choices_of_gateways(infos: Seq<DeRoutableConnectorChoice>) -> Seq<
    RoutableConnectorChoice,
> {
    Seq::new(infos.len(), |i: int| choice_of_gateway(infos[i]))
}

/// Turns the evaluator's choices into routable choices, one for one and in
/// order. Each is a structured choice, whether or not it names an account.
pub fn deserialize_connector_choices(infos: Vec<DeRoutableConnectorChoice>) -> (res: Vec<
    RoutableConnectorChoice,
>)
    ensures
        res@ == choices_of_gateways(infos@),
{
    let mut out: Vec<RoutableConnectorChoice> = Vec::new();
    let ghost all = infos@;
    let mut i: usize = 0;
    while i < infos.len()
        invariant
            infos@ == all,
            i <= infos.len(),
            out@.len() == i,
            forall|k: int| 0 <= k < i ==> out@[k] == choice_of_gateway(all[k]),
        decreases infos.len() - i,
    {
        let choice = RoutableConnectorChoice {
            choice_kind: RoutableChoiceKind::FullStruct,
            connector: infos[i].gateway_name,
            merchant_connector_id: crate::ids::clone_mca(&infos[i].gateway_id),
        };
        out.push(choice);
        i += 1;
    }
    assert(out@ =~= choices_of_gateways(all));
    out
}

} // verus!
