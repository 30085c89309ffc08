//! The routable connector choice: a connector, optionally narrowed to one
//! merchant connector account, together with the shape in which it was
//! written on the wire.
//!
//! Identity is the pair of connector and account id. The wire shape is kept
//! beside it so that a choice is written back the way it was read.

use vstd::prelude::*;
use vstd::std_specs::cmp::PartialEqSpecImpl;
use vstd::std_specs::convert::FromSpecImpl;

use crate::enums::{connector_name, lemma_connector_name_has_no_colon, lemma_connector_name_injective, RoutableConnectors};
use crate::ids::{clone_mca, mca_text, same_mca, MerchantConnectorAccountId};

verus! {

/// The wire shape of a choice: a bare connector name, or a structure.
#[derive(Debug, Clone, Copy, PartialEq, Eq, Structural)]
pub enum RoutableChoiceKind {
    OnlyConnector,
    FullStruct,
}

/// A connector that routing may select.
#[derive(Debug)]
pub struct RoutableConnectorChoice {
    pub choice_kind: RoutableChoiceKind,
    pub connector: RoutableConnectors,
    pub merchant_connector_id: Option<MerchantConnectorAccountId>,
}

/// The two shapes in which a choice travels.
#[derive(Debug)]
pub enum RoutableChoiceSerde {
    OnlyConnector(Box<RoutableConnectors>),
    FullStruct {
        connector: RoutableConnectors,
        merchant_connector_id: Option<MerchantConnectorAccountId>,
    },
}

/// A choice as the decision engine names it.
#[derive(Debug)]
pub struct DeRoutableConnectorChoice {
    pub gateway_name: RoutableConnectors,
    pub gateway_id: Option<MerchantConnectorAccountId>,
}

/// A choice with its share of the traffic.
#[derive(Debug)]
pub struct ConnectorVolumeSplit {
    pub connector: RoutableConnectorChoice,
    pub split: u8,
}

/// What a rule or a static configuration selects: connectors in order of
/// preference, or connectors with weights.
#[derive(Debug)]
pub enum ConnectorSelection {
    Priority(Vec<RoutableConnectorChoice>),
    VolumeSplit(Vec<ConnectorVolumeSplit>),
}

/// A choice together with whether it is currently usable.
#[derive(Debug)]
pub struct RoutableConnectorChoiceWithStatus {
    pub routable_connector_choice: RoutableConnectorChoice,
    pub status: bool,
}

/// A choice together with the bucket it is counted under.
#[derive(Debug)]
pub struct RoutableConnectorChoiceWithBucketName {
    pub routable_connector_choice: RoutableConnectorChoice,
    pub bucket_name: String,
}

/// The identity of a choice: its connector and the text of its account id.
pub open spec fn choice_identity(choice: RoutableConnectorChoice) -> (
    RoutableConnectors,
    Option<Seq<char>>,
) {
    (choice.connector, mca_text(choice.merchant_connector_id))
}

/// The choice that a wire value stands for.
pub open spec fn choice_of_wire(value: RoutableChoiceSerde) -> RoutableConnectorChoice {
    match value {
        RoutableChoiceSerde::OnlyConnector(connector) => RoutableConnectorChoice {
            choice_kind: RoutableChoiceKind::OnlyConnector,
            connector: *connector,
            merchant_connector_id: None,
        },
        RoutableChoiceSerde::FullStruct { connector, merchant_connector_id } => {
            RoutableConnectorChoice {
                choice_kind: RoutableChoiceKind::FullStruct,
                connector,
                merchant_connector_id,
            }
        },
    }
}

/// The wire value that a choice is written as.
pub open spec fn wire_of_choice(value: RoutableConnectorChoice) -> RoutableChoiceSerde {
    match value.choice_kind {
        RoutableChoiceKind::OnlyConnector => RoutableChoiceSerde::OnlyConnector(
            Box::new(value.connector),
        ),
        RoutableChoiceKind::FullStruct => RoutableChoiceSerde::FullStruct {
            connector: value.connector,
            merchant_connector_id: value.merchant_connector_id,
        },
    }
}

/// The choice that a decision-engine choice stands for.
pub open spec fn choice_of_gateway(choice: DeRoutableConnectorChoice) -> RoutableConnectorChoice {
    RoutableConnectorChoice {
        choice_kind: RoutableChoiceKind::FullStruct,
        connector: choice.gateway_name,
        merchant_connector_id: choice.gateway_id,
    }
}

/// The display form of a choice: the connector's name, followed by a colon
/// and the account id where there is one.
pub open spec fn choice_display(choice: RoutableConnectorChoice) -> Seq<char> {
    match choice.merchant_connector_id {
        Some(id) => connector_name(choice.connector) + seq![':'] + id@,
        None => connector_name(choice.connector),
    }
}

/// The connectors of a selection, in order, without their weights.
pub open spec fn selection_connectors(selection: ConnectorSelection) -> Seq<
    RoutableConnectorChoice,
> {
    match selection {
        ConnectorSelection::Priority(list) => list@,
        ConnectorSelection::VolumeSplit(splits) => Seq::new(
            splits@.len(),
            |i: int| splits@[i].connector,
        ),
    }
}

impl Clone for RoutableConnectorChoice {
    fn clone(&self) -> (res: Self)
        ensures
            res == *self,
    {
        RoutableConnectorChoice {
            choice_kind: self.choice_kind,
            connector: self.connector,
            merchant_connector_id: clone_mca(&self.merchant_connector_id),
        }
    }
}

impl PartialEq for RoutableConnectorChoice {
    fn eq(&self, other: &Self) -> (res: bool) {
        self.connector == other.connector && same_mca(
            &self.merchant_connector_id,
            &other.merchant_connector_id,
        )
    }
}

impl PartialEqSpecImpl for RoutableConnectorChoice {
    open spec fn obeys_eq_spec() -> bool {
        true
    }

    open spec fn eq_spec(&self, other: &Self) -> bool {
        choice_identity(*self) == choice_identity(*other)
    }
}

impl Eq for RoutableConnectorChoice {

}

impl Clone for ConnectorVolumeSplit {
    fn clone(&self) -> (res: Self)
        ensures
            res == *self,
    {
        ConnectorVolumeSplit { connector: self.connector.clone(), split: self.split }
    }
}

impl PartialEq for ConnectorVolumeSplit {
    fn eq(&self, other: &Self) -> (res: bool) {
        self.connector == other.connector && self.split == other.split
    }
}

impl PartialEqSpecImpl for ConnectorVolumeSplit {
    open spec fn obeys_eq_spec() -> bool {
        true
    }

    open spec fn eq_spec(&self, other: &Self) -> bool {
        choice_identity(self.connector) == choice_identity(other.connector) && self.split
            == other.split
    }
}

impl From<RoutableChoiceSerde> for RoutableConnectorChoice {
    fn from(value: RoutableChoiceSerde) -> (res: Self) {
        match value {
            RoutableChoiceSerde::OnlyConnector(connector) => RoutableConnectorChoice {
                choice_kind: RoutableChoiceKind::OnlyConnector,
                connector: *connector,
                merchant_connector_id: None,
            },
            RoutableChoiceSerde::FullStruct { connector, merchant_connector_id } => {
                RoutableConnectorChoice {
                    choice_kind: RoutableChoiceKind::FullStruct,
                    connector,
                    merchant_connector_id,
                }
            },
        }
    }
}

impl FromSpecImpl<RoutableChoiceSerde> for RoutableConnectorChoice {
    open spec fn obeys_from_spec() -> bool {
        true
    }

    open spec fn from_spec(value: RoutableChoiceSerde) -> Self {
        choice_of_wire(value)
    }
}

impl From<RoutableConnectorChoice> for RoutableChoiceSerde {
    fn from(value: RoutableConnectorChoice) -> (res: Self) {
        match value.choice_kind {
            RoutableChoiceKind::OnlyConnector => RoutableChoiceSerde::OnlyConnector(
                Box::new(value.connector),
            ),
            RoutableChoiceKind::FullStruct => RoutableChoiceSerde::FullStruct {
                connector: value.connector,
                merchant_connector_id: value.merchant_connector_id,
            },
        }
    }
}

impl FromSpecImpl<RoutableConnectorChoice> for RoutableChoiceSerde {
    open spec fn obeys_from_spec() -> bool {
        true
    }

    open spec fn from_spec(value: RoutableConnectorChoice) -> Self {
        wire_of_choice(value)
    }
}

impl From<DeRoutableConnectorChoice> for RoutableConnectorChoice {
    fn from(choice: DeRoutableConnectorChoice) -> (res: Self) {
        RoutableConnectorChoice {
            choice_kind: RoutableChoiceKind::FullStruct,
            connector: choice.gateway_name,
            merchant_connector_id: choice.gateway_id,
        }
    }
}

impl FromSpecImpl<DeRoutableConnectorChoice> for RoutableConnectorChoice {
    open spec fn obeys_from_spec() -> bool {
        true
    }

    open spec fn from_spec(choice: DeRoutableConnectorChoice) -> Self {
        choice_of_gateway(choice)
    }
}

impl RoutableConnectorChoice {
    /// The display form, used as a key for caches and buckets.
    pub fn to_string(&self) -> (text: String)
        ensures
            text@ == choice_display(*self),
    {
        let mut base = self.connector.to_string();
        match &self.merchant_connector_id {
            Some(mca_id) => {
                base.append(":");
                proof {
                    reveal_strlit(":");
                    assert(":"@ == seq![':']);
                }
                base.append(mca_id.get_string_repr());
                base
            },
            None => base,
        }
    }
}

impl RoutableConnectorChoiceWithStatus {
    pub fn new(routable_connector_choice: RoutableConnectorChoice, status: bool) -> (res: Self)
        ensures
            res.routable_connector_choice == routable_connector_choice,
            res.status == status,
    {
        RoutableConnectorChoiceWithStatus { routable_connector_choice, status }
    }
}

impl RoutableConnectorChoiceWithBucketName {
    pub fn new(routable_connector_choice: RoutableConnectorChoice, bucket_name: String) -> (res:
        Self)
        ensures
            res.routable_connector_choice == routable_connector_choice,
            res.bucket_name == bucket_name,
    {
        RoutableConnectorChoiceWithBucketName { routable_connector_choice, bucket_name }
    }
}

/// A copy of a list of choices.
pub fn clone_choices(list: &Vec<RoutableConnectorChoice>) -> (res: Vec<RoutableConnectorChoice>)
    ensures
        res@ == list@,
{
    let mut out: Vec<RoutableConnectorChoice> = Vec::new();
    let mut i: usize = 0;
    while i < list.len()
        invariant
            i <= list.len(),
            out@ == list@.subrange(0, i as int),
        decreases list.len() - i,
    {
        out.push(list[i].clone());
        assert(out@ == list@.subrange(0, i + 1));
        i += 1;
    }
    assert(list@.subrange(0, list@.len() as int) == list@);
    out
}

/// A copy of a list of weighted choices.
pub fn clone_splits(list: &Vec<ConnectorVolumeSplit>) -> (res: Vec<ConnectorVolumeSplit>)
    ensures
        res@ == list@,
{
    let mut out: Vec<ConnectorVolumeSplit> = Vec::new();
    let mut i: usize = 0;
    while i < list.len()
        invariant
            i <= list.len(),
            out@ == list@.subrange(0, i as int),
        decreases list.len() - i,
    {
        out.push(list[i].clone());
        assert(out@ == list@.subrange(0, i + 1));
        i += 1;
    }
    assert(list@.subrange(0, list@.len() as int) == list@);
    out
}

/// Whether two lists name the same connectors in the same order.
pub open spec fn same_choices(
    a: Seq<RoutableConnectorChoice>,
    b: Seq<RoutableConnectorChoice>,
) -> bool {
    &&& a.len() == b.len()
    &&& forall|i: int| 0 <= i < a.len() ==> choice_identity(a[i]) == choice_identity(b[i])
}

/// Whether two lists name the same connectors with the same weights in the
/// same order.
pub open spec fn same_splits(a: Seq<ConnectorVolumeSplit>, b: Seq<ConnectorVolumeSplit>) -> bool {
    &&& a.len() == b.len()
    &&& forall|i: int|
        0 <= i < a.len() ==> choice_identity(a[i].connector) == choice_identity(b[i].connector)
            && a[i].split == b[i].split
}

/// Compares two lists of choices by identity.
pub fn choices_equal(a: &Vec<RoutableConnectorChoice>, b: &Vec<RoutableConnectorChoice>) -> (res:
    bool)
    ensures
        res == same_choices(a@, b@),
{
    if a.len() != b.len() {
        return false;
    }
    let mut i: usize = 0;
    while i < a.len()
        invariant
            i <= a.len(),
            a.len() == b.len(),
            forall|k: int| 0 <= k < i ==> choice_identity(a@[k]) == choice_identity(b@[k]),
        decreases a.len() - i,
    {
        if !(a[i] == b[i]) {
            return false;
        }
        i += 1;
    }
    true
}

/// Compares two lists of weighted choices by identity and weight.
pub fn splits_equal(a: &Vec<ConnectorVolumeSplit>, b: &Vec<ConnectorVolumeSplit>) -> (res: bool)
    ensures
        res == same_splits(a@, b@),
{
    if a.len() != b.len() {
        return false;
    }
    let mut i: usize = 0;
    while i < a.len()
        invariant
            i <= a.len(),
            a.len() == b.len(),
            forall|k: int|
                0 <= k < i ==> choice_identity(a@[k].connector) == choice_identity(b@[k].connector)
                    && a@[k].split == b@[k].split,
        decreases a.len() - i,
    {
        if !(a[i] == b[i]) {
            return false;
        }
        i += 1;
    }
    true
}

impl ConnectorSelection {
    /// The connectors that the selection names, in order.
    pub fn get_connector_list(&self) -> (res: Vec<RoutableConnectorChoice>)
        ensures
            res@ == selection_connectors(*self),
    {
        match self {
            ConnectorSelection::Priority(list) => clone_choices(list),
            ConnectorSelection::VolumeSplit(splits) => {
                let mut out: Vec<RoutableConnectorChoice> = Vec::new();
                let mut i: usize = 0;
                while i < splits.len()
                    invariant
                        i <= splits.len(),
                        out@.len() == i,
                        forall|k: int| 0 <= k < i ==> out@[k] == splits@[k].connector,
                    decreases splits.len() - i,
                {
                    out.push(splits[i].connector.clone());
                    i += 1;
                }
                assert(out@ =~= selection_connectors(*self));
                out
            },
        }
    }
}

impl Clone for ConnectorSelection {
    fn clone(&self) -> (res: Self)
        ensures
            match (*self, res) {
                (ConnectorSelection::Priority(a), ConnectorSelection::Priority(b)) => a@ == b@,
                (ConnectorSelection::VolumeSplit(a), ConnectorSelection::VolumeSplit(b)) => a@
                    == b@,
                _ => false,
            },
    {
        match self {
            ConnectorSelection::Priority(list) => ConnectorSelection::Priority(
                clone_choices(list),
            ),
            ConnectorSelection::VolumeSplit(splits) => ConnectorSelection::VolumeSplit(
                clone_splits(splits),
            ),
        }
    }
}

/// Reading a wire value and writing the choice back gives the wire value
/// again: a bare name stays a bare name, and a structure stays a structure
/// even where it names no account.
pub proof fn lemma_wire_round_trip(value: RoutableChoiceSerde)
    ensures
        wire_of_choice(choice_of_wire(value)) == value,
        value is OnlyConnector ==> choice_of_wire(value).choice_kind
            == RoutableChoiceKind::OnlyConnector && choice_of_wire(value).merchant_connector_id
            is None,
        value is FullStruct ==> choice_of_wire(value).choice_kind
            == RoutableChoiceKind::FullStruct,
{
}

/// Writing a choice and reading it back keeps its wire shape and its
/// connector; it keeps the whole choice unless a bare-name choice carried an
/// account id, which a bare name cannot hold.
pub proof fn lemma_choice_round_trip(choice: RoutableConnectorChoice)
    ensures
        choice_of_wire(wire_of_choice(choice)).choice_kind == choice.choice_kind,
        choice_of_wire(wire_of_choice(choice)).connector == choice.connector,
        choice.choice_kind == RoutableChoiceKind::FullStruct || choice.merchant_connector_id
            is None ==> choice_of_wire(wire_of_choice(choice)) == choice,
{
}

/// Two choices with the same connector and the same account id have the same
/// identity, whatever their wire shapes; a choice that differs in either does
/// not.
pub proof fn lemma_identity_ignores_wire_shape(
    a: RoutableConnectorChoice,
    b: RoutableConnectorChoice,
)
    ensures
        choice_identity(a) == choice_identity(b) <==> a.connector == b.connector && mca_text(
            a.merchant_connector_id,
        ) == mca_text(b.merchant_connector_id),
        choice_identity(a) == choice_identity(
            RoutableConnectorChoice { choice_kind: b.choice_kind, ..a },
        ),
{
}

/// The display form tells choices of different identity apart.
pub proof fn lemma_display_injective(a: RoutableConnectorChoice, b: RoutableConnectorChoice)
    requires
        choice_display(a) == choice_display(b),
    ensures
        choice_identity(a) == choice_identity(b),
{
    let na = connector_name(a.connector);
    let nb = connector_name(b.connector);
    let da = choice_display(a);
    let db = choice_display(b);
    lemma_connector_name_has_no_colon(a.connector);
    lemma_connector_name_has_no_colon(b.connector);
    match (a.merchant_connector_id, b.merchant_connector_id) {
        (None, None) => {
            lemma_connector_name_injective(a.connector, b.connector);
        },
        (Some(x), None) => {
            assert(da[na.len() as int] == ':');
            assert(false);
        },
        (None, Some(y)) => {
            assert(db[nb.len() as int] == ':');
            assert(false);
        },
        (Some(x), Some(y)) => {
            assert(da[na.len() as int] == ':');
            assert(db[nb.len() as int] == ':');
            if na.len() < nb.len() {
                assert(db[na.len() as int] == nb[na.len() as int]);
                assert(false);
            }
            if nb.len() < na.len() {
                assert(da[nb.len() as int] == na[nb.len() as int]);
                assert(false);
            }
            assert(na =~= da.subrange(0, na.len() as int));
            assert(nb =~= db.subrange(0, nb.len() as int));
            lemma_connector_name_injective(a.connector, b.connector);
            assert(x@ =~= da.subrange(na.len() as int + 1, da.len() as int));
            assert(y@ =~= db.subrange(nb.len() as int + 1, db.len() as int));
        },
    }
}

} // verus!
