//! What an output of rules must offer so that rules over it can be checked:
//! the keys that its rules may test, and the values it stands for.

use vstd::prelude::*;

use crate::euclid::dir::{DirKeyKind, DirValue};
use crate::ids::MerchantConnectorAccountId;

verus! {

/// The key under which the metadata of a connector selection is filed.
pub const CONNECTOR_SELECTION_KEY: &'static str = "CONNECTOR_SELECTION";

/// What is recorded beside a value for analysis: the rule it came from, and
/// the connector and account that it names.
#[derive(Debug)]
pub struct AnalysisMetadata {
    pub rule_name: String,
    pub connector_name: String,
    pub mca_id: Option<MerchantConnectorAccountId>,
}

/// An output type that limits the keys its rules may test.
pub trait EuclidDirFilter: Sized {
    /// Whether rules with this output may test the key.
    spec fn allows(key: DirKeyKind) -> bool;

    /// The keys that rules with this output may test.
    fn get_allowed_keys() -> (keys: Vec<DirKeyKind>)
        ensures
            forall|key: DirKeyKind| keys@.contains(key) <==> Self::allows(key),
    ;

    /// Whether rules with this output may test the key.
    fn is_key_allowed(key: &DirKeyKind) -> (res: bool)
        ensures
            res == Self::allows(*key),
    ;
}

/// An output that can be analysed as a list of values.
pub trait EuclidAnalysable: Sized {
    /// The values that the output stands for, in order.
    spec fn analysed(&self) -> Seq<DirValue>;

    /// The values that the output stands for, each with the name of the rule
    /// that it is analysed under.
    fn get_dir_value_for_analysis(&self, rule_name: String) -> (res: Vec<
        (DirValue, AnalysisMetadata),
    >)
        ensures
            res@.len() == self.analysed().len(),
            forall|i: int|
                0 <= i < res@.len() ==> (#[trigger] res@[i]).0 == self.analysed()[i]
                    && res@[i].1.rule_name@ == rule_name@,
    ;
}

} // verus!
