use vstd::prelude::*;
use vstd::std_specs::cmp::PartialEqSpec;
use vstd::std_specs::convert::IntoSpec;
use crate::cake::{label_of, Cake};
use crate::party::{party_text, Party};

verus! {

/// The line that admires a cake.
pub open spec fn admire_text(c: Cake) -> Seq<char> {
    "What a nice "@ + label_of(c) + " cake! 🎂"@
}

/// The line that greets each flavor in its own way.
pub open spec fn reaction_text(c: Cake) -> Seq<char> {
    match c {
        Cake::Chocolate => "The name's Chocolate. Dark...Chocolate."@,
        Cake::MapleBacon => "Dreams do come true!"@,
        Cake::Spice => "Great, let's spice it up!"@,
    }
}

/// The block that shows the default party.
pub open spec fn default_party_text() -> Seq<char> {
    "The default Party is\n"@ + party_text(
        Party { at_restaurant: true, num_people: 8, cake: Cake::Chocolate },
    )
}

/// The line that names the cake of one's own party.
pub open spec fn favorite_text(c: Cake) -> Seq<char> {
    "Yes! My party has my favorite "@ + label_of(c) + " cake!"@
}

/// The line said when two parties are equal.
pub open spec fn same_party_text() -> Seq<char> {
    "Your party is just like mine!"@
}

/// The line that names the cake one smells.
pub open spec fn smell_text(c: Cake) -> Seq<char> {
    "Hmm...something smells like a "@ + label_of(c) + " cake!"@
}

/// The line said as a cake is eaten, and dropped.
pub open spec fn eating_text(c: Cake) -> Seq<char> {
    "Yum! I'm eating this cake: "@ + label_of(c) + ". Oops, I dropped it on the floor."@
}

/// The lines of the walk through cakes and parties, in order: a spice cake
/// is admired and greeted, the default party is shown, a maple bacon party
/// built from it is named, compared with a party of 235 away from the
/// restaurant that has the same cake, smelled, and eaten.
pub open spec fn run_script() -> Seq<Seq<char>> {
    let cake = Cake::Spice;
    let party = Party { at_restaurant: true, num_people: 8, cake: Cake::MapleBacon };
    let other = Party { at_restaurant: false, num_people: 235, cake: Cake::MapleBacon };
    seq![
        admire_text(cake),
        reaction_text(cake),
        default_party_text(),
        favorite_text(party.cake),
    ] + (if party.eq_spec(&other) {
        seq![same_party_text()]
    } else {
        Seq::empty()
    }) + seq![smell_text(party.cake), eating_text(party.cake)]
}

/// A line that admires `cake`.
pub fn admire_cake(cake: Cake) -> (r: String)
    ensures
        r@ == admire_text(cake),
{
    let mut s = String::from_str("What a nice ");
    let l = cake.label();
    s.append(l.as_str());
    s.append(" cake! 🎂");
    s
}

/// A line that greets `cake`, one for each flavor.
pub fn reaction_line(cake: Cake) -> (r: String)
    ensures
        r@ == reaction_text(cake),
{
    match cake {
        Cake::Chocolate => String::from_str("The name's Chocolate. Dark...Chocolate."),
        Cake::MapleBacon => String::from_str("Dreams do come true!"),
        Cake::Spice => String::from_str("Great, let's spice it up!"),
    }
}

/// A line that names the cake `item` turns into; any value that converts
/// into a `Cake` will do.
pub fn smell_cake<T: Into<Cake>>(item: T) -> (r: String)
    ensures
        T::obeys_into_spec() ==> r@ == smell_text(item.into_spec()),
{
    let cake: Cake = item.into();
    let mut s = String::from_str("Hmm...something smells like a ");
    let l = cake.label();
    s.append(l.as_str());
    s.append(" cake!");
    s
}

/// The line said when `mine` equals `theirs`, or `None` when it does not.
pub fn compare_parties(mine: &Party, theirs: &Party) -> (r: Option<String>)
    ensures
        r is Some <==> mine.cake == theirs.cake,
        r matches Some(s) ==> s@ == same_party_text(),
{
    if mine == theirs {
        Some(String::from_str("Your party is just like mine!"))
    } else {
        None
    }
}

/// The lines of the walk through cakes and parties, in the order they are
/// shown.
pub fn run() -> (lines: Vec<String>)
    ensures
        lines@.len() == run_script().len(),
        forall|i: int| 0 <= i < lines@.len() ==> #[trigger] lines@[i]@ == run_script()[i],
{
    let cake = Cake::Spice;
    let mut lines: Vec<String> = Vec::new();
    lines.push(admire_cake(cake));
    lines.push(reaction_line(cake));

    let mut shown = String::from_str("The default Party is\n");
    let d = Party::default().describe();
    shown.append(d.as_str());
    lines.push(shown);

    let party = Party::default().overriding(None, None, Some(Cake::MapleBacon));
    let mut favorite = String::from_str("Yes! My party has my favorite ");
    let l = party.cake.label();
    favorite.append(l.as_str());
    favorite.append(" cake!");
    lines.push(favorite);

    let other_party = Party { at_restaurant: false, num_people: 235, cake: Cake::MapleBacon };
    if let Some(same) = compare_parties(&party, &other_party) {
        lines.push(same);
    }

    lines.push(smell_cake(&party));

    let mut eating = String::from_str("Yum! I'm eating this cake: ");
    eating.append(l.as_str());
    eating.append(". Oops, I dropped it on the floor.");
    lines.push(eating);

    lines
}

} // verus!
