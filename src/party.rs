use vstd::prelude::*;
use vstd::std_specs::cmp::PartialEqSpec;
use crate::cake::{label_of, Cake};
use crate::text::{bool_of, bool_text, decimal_of, decimal_text};

verus! {

/// An order for a party: where it eats, how many come, and which cake.
///
/// Two parties compare equal when their cakes do; the other fields play no
/// part in `==`.
#[derive(Debug)]
pub struct Party {
    pub at_restaurant: bool,
    pub num_people: u8,
    pub cake: Cake,
}

/// The pretty-printed form of a party: its name, then one indented line per
/// field, then a closing brace.
pub open spec fn party_text(p: Party) -> Seq<char> {
    "Party {\n    at_restaurant: "@ + bool_of(p.at_restaurant) + ",\n    num_people: "@
        + decimal_of(p.num_people as nat) + ",\n    cake: "@ + label_of(p.cake) + ",\n}"@
}

impl Default for Party {
    /// A chocolate cake for eight, eaten at the restaurant.
    fn default() -> (r: Self)
        ensures
            r.at_restaurant,
            r.num_people == 8,
            r.cake == Cake::Chocolate,
    {
        Self { at_restaurant: true, num_people: 8, cake: Cake::Chocolate }
    }
}

impl PartialEq for Party {
    fn eq(&self, other: &Self) -> (r: bool)
        ensures
            r == (self.cake == other.cake),
    {
        self.cake == other.cake
    }
}

impl vstd::std_specs::cmp::PartialEqSpecImpl for Party {
    open spec fn obeys_eq_spec() -> bool {
        true
    }

    open spec fn eq_spec(&self, other: &Party) -> bool {
        self.cake == other.cake
    }
}

impl From<&Party> for Cake {
    /// The cake of a party, read without taking the party.
    fn from(value: &Party) -> (r: Self)
        ensures
            r == value.cake,
    {
        value.cake.clone()
    }
}

impl vstd::std_specs::convert::FromSpecImpl<&Party> for Cake {
    open spec fn obeys_from_spec() -> bool {
        true
    }

    open spec fn from_spec(value: &Party) -> Cake {
        value.cake
    }
}

impl Party {
    /// This party written out over several lines, one field to a line.
    pub fn describe(&self) -> (r: String)
        ensures
            r@ == party_text(*self),
    {
        let mut s = String::from_str("Party {\n    at_restaurant: ");
        s.append(bool_text(self.at_restaurant));
        s.append(",\n    num_people: ");
        let n = decimal_text(self.num_people);
        s.append(n.as_str());
        s.append(",\n    cake: ");
        let c = self.cake.label();
        s.append(c.as_str());
        s.append(",\n}");
        s
    }

    /// A new party that copies this one, except for each field given as
    /// `Some`, which takes the given value.
    pub fn overriding(
        &self,
        at_restaurant: Option<bool>,
        num_people: Option<u8>,
        cake: Option<Cake>,
    ) -> (r: Party)
        ensures
            r.at_restaurant == match at_restaurant {
                Some(v) => v,
                None => self.at_restaurant,
            },
            r.num_people == match num_people {
                Some(v) => v,
                None => self.num_people,
            },
            r.cake == match cake {
                Some(v) => v,
                None => self.cake,
            },
    {
        Party {
            at_restaurant: match at_restaurant {
                Some(v) => v,
                None => self.at_restaurant,
            },
            num_people: match num_people {
                Some(v) => v,
                None => self.num_people,
            },
            cake: match cake {
                Some(v) => v,
                None => self.cake,
            },
        }
    }
}

/// Party equality is an equivalence relation, and it depends on the cakes
/// alone: replacing either party by one with the same cake and any other
/// place or size leaves the answer unchanged.
pub proof fn lemma_party_eq_by_cake(a: Party, b: Party, c: Party, a2: Party, b2: Party)
    requires
        a2.cake == a.cake,
        b2.cake == b.cake,
    ensures
        a.eq_spec(&a),
        a.eq_spec(&b) == b.eq_spec(&a),
        a.eq_spec(&b) && b.eq_spec(&c) ==> a.eq_spec(&c),
        a.eq_spec(&b) == (a.cake == b.cake),
        a2.eq_spec(&b2) == a.eq_spec(&b),
{
}

} // verus!
