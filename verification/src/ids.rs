//! Identifier types. Each wraps the textual form of an identifier; its view
//! is that text as a sequence of characters, and equality is equality of text.

use vstd::prelude::*;
use vstd::std_specs::cmp::PartialEqSpecImpl;

verus! {

/// Identifier of a stored routing algorithm.
#[derive(Debug)]
pub struct RoutingId(pub String);

/// Identifier of a business profile.
#[derive(Debug)]
pub struct ProfileId(pub String);

/// Identifier of a merchant account.
#[derive(Debug)]
pub struct MerchantId(pub String);

/// Identifier of one merchant connector account (MCA).
#[derive(Debug)]
pub struct MerchantConnectorAccountId(pub String);

impl View for RoutingId {
    type V = Seq<char>;

    open spec fn view(&self) -> Seq<char> {
        self.0@
    }
}

impl View for ProfileId {
    type V = Seq<char>;

    open spec fn view(&self) -> Seq<char> {
        self.0@
    }
}

impl View for MerchantId {
    type V = Seq<char>;

    open spec fn view(&self) -> Seq<char> {
        self.0@
    }
}

impl View for MerchantConnectorAccountId {
    type V = Seq<char>;

    open spec fn view(&self) -> Seq<char> {
        self.0@
    }
}

impl RoutingId {
    pub fn new(text: String) -> (id: Self)
        ensures
            id.0 == text,
    {
        RoutingId(text)
    }

    pub fn get_string_repr(&self) -> (text: &str)
        ensures
            text@ == self@,
    {
        self.0.as_str()
    }
}

impl ProfileId {
    pub fn new(text: String) -> (id: Self)
        ensures
            id.0 == text,
    {
        ProfileId(text)
    }

    pub fn get_string_repr(&self) -> (text: &str)
        ensures
            text@ == self@,
    {
        self.0.as_str()
    }
}

impl MerchantId {
    pub fn new(text: String) -> (id: Self)
        ensures
            id.0 == text,
    {
        MerchantId(text)
    }

    pub fn get_string_repr(&self) -> (text: &str)
        ensures
            text@ == self@,
    {
        self.0.as_str()
    }
}

impl MerchantConnectorAccountId {
    pub fn new(text: String) -> (id: Self)
        ensures
            id.0 == text,
    {
        MerchantConnectorAccountId(text)
    }

    pub fn get_string_repr(&self) -> (text: &str)
        ensures
            text@ == self@,
    {
        self.0.as_str()
    }
}

impl Clone for RoutingId {
    fn clone(&self) -> (res: Self)
        ensures
            res == *self,
    {
        RoutingId(self.0.clone())
    }
}

impl Clone for ProfileId {
    fn clone(&self) -> (res: Self)
        ensures
            res == *self,
    {
        ProfileId(self.0.clone())
    }
}

impl Clone for MerchantId {
    fn clone(&self) -> (res: Self)
        ensures
            res == *self,
    {
        MerchantId(self.0.clone())
    }
}

impl Clone for MerchantConnectorAccountId {
    fn clone(&self) -> (res: Self)
        ensures
            res == *self,
    {
        MerchantConnectorAccountId(self.0.clone())
    }
}

impl PartialEq for RoutingId {
    fn eq(&self, other: &Self) -> (res: bool) {
        self.0 == other.0
    }
}

impl PartialEqSpecImpl for RoutingId {
    open spec fn obeys_eq_spec() -> bool {
        true
    }

    open spec fn eq_spec(&self, other: &Self) -> bool {
        self@ == other@
    }
}

impl PartialEq for ProfileId {
    fn eq(&self, other: &Self) -> (res: bool) {
        self.0 == other.0
    }
}

impl PartialEqSpecImpl for ProfileId {
    open spec fn obeys_eq_spec() -> bool {
        true
    }

    open spec fn eq_spec(&self, other: &Self) -> bool {
        self@ == other@
    }
}

impl PartialEq for MerchantId {
    fn eq(&self, other: &Self) -> (res: bool) {
        self.0 == other.0
    }
}

impl PartialEqSpecImpl for MerchantId {
    open spec fn obeys_eq_spec() -> bool {
        true
    }

    open spec fn eq_spec(&self, other: &Self) -> bool {
        self@ == other@
    }
}

impl PartialEq for MerchantConnectorAccountId {
    fn eq(&self, other: &Self) -> (res: bool) {
        self.0 == other.0
    }
}

impl PartialEqSpecImpl for MerchantConnectorAccountId {
    open spec fn obeys_eq_spec() -> bool {
        true
    }

    open spec fn eq_spec(&self, other: &Self) -> bool {
        self@ == other@
    }
}

/// The text of an optional merchant connector account id.
pub open spec fn mca_text(id: Option<MerchantConnectorAccountId>) -> Option<Seq<char>> {
    match id {
        Some(i) => Some(i@),
        None => None,
    }
}

/// Whether two optional merchant connector account ids name the same account.
pub fn same_mca(
    a: &Option<MerchantConnectorAccountId>,
    b: &Option<MerchantConnectorAccountId>,
) -> (res: bool)
    ensures
        res == (mca_text(*a) == mca_text(*b)),
{
    match (a, b) {
        (Some(x), Some(y)) => x.0 == y.0,
        (None, None) => true,
        _ => false,
    }
}

/// A copy of an optional merchant connector account id.
pub fn clone_mca(a: &Option<MerchantConnectorAccountId>) -> (res: Option<
    MerchantConnectorAccountId,
>)
    ensures
        res == *a,
{
    match a {
        Some(x) => Some(x.clone()),
        None => None,
    }
}

/// A copy of an optional routing id.
pub fn clone_routing_id(a: &Option<RoutingId>) -> (res: Option<RoutingId>)
    ensures
        res == *a,
{
    match a {
        Some(x) => Some(x.clone()),
        None => None,
    }
}

} // verus!
