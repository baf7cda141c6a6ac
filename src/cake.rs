use vstd::prelude::*;

verus! {

/// The flavor of a cake. Variants carry no data, so a copy is the value itself.
#[derive(Debug, Clone, Copy, PartialEq, Eq, Structural)]
pub enum Cake {
    Chocolate,
    MapleBacon,
    Spice,
}

/// The label that names a flavor when it is printed.
pub open spec fn label_of(c: Cake) -> Seq<char> {
    match c {
        Cake::Chocolate => "Chocolate"@,
        Cake::MapleBacon => "MapleBacon"@,
        Cake::Spice => "Spice"@,
    }
}

impl Cake {
    /// The printed name of this flavor.
    pub fn label(&self) -> (r: String)
        ensures
            r@ == label_of(*self),
    {
        match self {
            Cake::Chocolate => String::from_str("Chocolate"),
            Cake::MapleBacon => String::from_str("MapleBacon"),
            Cake::Spice => String::from_str("Spice"),
        }
    }
}

} // verus!
