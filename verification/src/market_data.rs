//! Identifier namespace owned by the market-data / alert-engine collaborator.

use crate::ids::Id;
use vstd::prelude::*;

verus! {

/// Identifier of one price alert.  A distinct nominal type over the shared
/// token representation, so alert identifiers cannot be confused with trade
/// or order identifiers.
#[derive(Debug)]
pub struct AlertId(pub Id);

impl View for AlertId {
    type V = Seq<char>;

    closed spec fn view(&self) -> Seq<char> {
        self.0@
    }
}

impl AlertId {
    pub fn new() -> (r: Self)
        ensures
            r@.len() == 21,
    {
        AlertId(Id::new())
    }
}

impl Clone for AlertId {
    fn clone(&self) -> (r: Self)
        ensures
            r == *self,
    {
        AlertId(self.0.clone())
    }
}

impl PartialEq for AlertId {
    fn eq(&self, other: &AlertId) -> (r: bool) {
        self.0 == other.0
    }
}

impl vstd::std_specs::cmp::PartialEqSpecImpl for AlertId {
    open spec fn obeys_eq_spec() -> bool {
        true
    }

    open spec fn eq_spec(&self, other: &AlertId) -> bool {
        self@ == other@
    }
}

} // verus!
