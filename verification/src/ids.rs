//! Opaque, globally-unique, printable identifier tokens.

use vstd::prelude::*;

verus! {

/// Relies on nanoid::format with the default URL-safe 64-character alphabet:
/// it pushes exactly `size` randomly chosen characters of that alphabet, so
/// the result is always a fresh 21-character token.  The value itself is
/// random, so nothing beyond its length is promised.
#[verifier::external_body]
fn fresh_token() -> (r: String)
    ensures
        r@.len() == 21,
{
    nanoid::format(nanoid::rngs::default, &nanoid::alphabet::SAFE, 21)
}

/// A one-sided price condition: crossing the level from below (`High`) or
/// from above (`Low`).  Levels are plain integers counting the instrument's
/// smallest representable price increment.
#[derive(Debug, Clone, Copy, PartialEq, Eq, Structural)]
pub enum AlertSet {
    High(u64),
    Low(u64),
}

/// An opaque, equality-comparable, printable token used to name trades,
/// orders and alerts.  The raw text is the token's rendering.
#[derive(Debug)]
pub struct Id(pub String);

impl View for Id {
    type V = Seq<char>;

    closed spec fn view(&self) -> Seq<char> {
        self.0@
    }
}

impl Id {
    /// Generates a fresh token; uniqueness rests on the negligible collision
    /// probability of 21 random characters from a 64-character alphabet.
    pub fn new() -> (r: Self)
        ensures
            r@.len() == 21,
    {
        Id(fresh_token())
    }

    /// The token's textual rendering: the raw token itself.
    pub fn text(&self) -> (r: String)
        ensures
            r@ == self@,
    {
        self.0.clone()
    }
}

impl Clone for Id {
    fn clone(&self) -> (r: Self)
        ensures
            r == *self,
    {
        Id(self.0.clone())
    }
}

impl PartialEq for Id {
    fn eq(&self, other: &Id) -> (r: bool) {
        self.0 == other.0
    }
}

impl vstd::std_specs::cmp::PartialEqSpecImpl for Id {
    open spec fn obeys_eq_spec() -> bool {
        true
    }

    open spec fn eq_spec(&self, other: &Id) -> bool {
        self@ == other@
    }
}

impl Default for Id {
    fn default() -> (r: Self)
        ensures
            r@.len() == 21,
    {
        Id::new()
    }
}

} // verus!
