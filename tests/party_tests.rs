use cake_party::script::{admire_cake, compare_parties, reaction_line, run, smell_cake};
use cake_party::text::{bool_text, decimal_text};
use cake_party::{Cake, Party};

fn party(at_restaurant: bool, num_people: u8, cake: Cake) -> Party {
    Party { at_restaurant, num_people, cake }
}

#[test]
fn equal_when_cakes_match_despite_other_fields() {
    let a = party(true, 8, Cake::MapleBacon);
    let b = party(false, 235, Cake::MapleBacon);
    assert!(a == b);
    assert!(b == a);
}

#[test]
fn unequal_when_cakes_differ_despite_other_fields() {
    let a = party(true, 8, Cake::MapleBacon);
    let b = party(true, 8, Cake::Chocolate);
    assert!(a != b);
    assert!(b != a);
}

#[test]
fn equality_is_reflexive() {
    let a = party(false, 0, Cake::Spice);
    assert!(a == a);
}

#[test]
fn default_party_is_chocolate_for_eight_at_restaurant() {
    let d = Party::default();
    assert!(d.at_restaurant);
    assert_eq!(d.num_people, 8);
    assert_eq!(d.cake, Cake::Chocolate);
}

#[test]
fn overriding_cake_keeps_other_fields() {
    let base = Party::default();
    let p = base.overriding(None, None, Some(Cake::MapleBacon));
    assert!(p.at_restaurant);
    assert_eq!(p.num_people, 8);
    assert_eq!(p.cake, Cake::MapleBacon);
}

#[test]
fn overriding_size_and_place_keeps_cake() {
    let base = party(true, 12, Cake::Spice);
    let p = base.overriding(Some(false), Some(255), None);
    assert!(!p.at_restaurant);
    assert_eq!(p.num_people, 255);
    assert_eq!(p.cake, Cake::Spice);
}

#[test]
fn overriding_nothing_copies_everything() {
    let base = party(false, 3, Cake::Chocolate);
    let p = base.overriding(None, None, None);
    assert_eq!(p.at_restaurant, base.at_restaurant);
    assert_eq!(p.num_people, base.num_people);
    assert_eq!(p.cake, base.cake);
}

#[test]
fn cake_from_party_leaves_party_usable() {
    let p = party(false, 235, Cake::Spice);
    let c = Cake::from(&p);
    assert_eq!(c, Cake::Spice);
    assert_eq!(p.cake, Cake::Spice);
    assert_eq!(p.num_people, 235);
    let again: Cake = (&p).into();
    assert_eq!(again, c);
}

#[test]
fn duplicated_cake_equals_original() {
    for c in [Cake::Chocolate, Cake::MapleBacon, Cake::Spice] {
        let copy = c.clone();
        assert_eq!(copy, c);
        let mut moved = c;
        moved = if moved == Cake::Spice { Cake::Chocolate } else { Cake::Spice };
        assert_ne!(moved, c);
        assert_eq!(copy, c);
    }
}

#[test]
fn cake_labels() {
    assert_eq!(Cake::Chocolate.label(), "Chocolate");
    assert_eq!(Cake::MapleBacon.label(), "MapleBacon");
    assert_eq!(Cake::Spice.label(), "Spice");
}

#[test]
fn decimal_text_values() {
    assert_eq!(decimal_text(0), "0");
    assert_eq!(decimal_text(9), "9");
    assert_eq!(decimal_text(10), "10");
    assert_eq!(decimal_text(8), "8");
    assert_eq!(decimal_text(235), "235");
    assert_eq!(decimal_text(255), "255");
    assert_eq!(decimal_text(100), "100");
}

#[test]
fn bool_text_values() {
    assert_eq!(bool_text(true), "true");
    assert_eq!(bool_text(false), "false");
}

#[test]
fn describe_default_party() {
    assert_eq!(
        Party::default().describe(),
        "Party {\n    at_restaurant: true,\n    num_people: 8,\n    cake: Chocolate,\n}"
    );
}

#[test]
fn describe_large_party() {
    assert_eq!(
        party(false, 235, Cake::MapleBacon).describe(),
        "Party {\n    at_restaurant: false,\n    num_people: 235,\n    cake: MapleBacon,\n}"
    );
}

#[test]
fn admire_names_the_cake() {
    assert_eq!(admire_cake(Cake::Spice), "What a nice Spice cake! 🎂");
}

#[test]
fn reaction_per_flavor() {
    assert_eq!(reaction_line(Cake::Chocolate), "The name's Chocolate. Dark...Chocolate.");
    assert_eq!(reaction_line(Cake::MapleBacon), "Dreams do come true!");
    assert_eq!(reaction_line(Cake::Spice), "Great, let's spice it up!");
}

#[test]
fn smell_converts_party_to_its_cake() {
    let p = party(true, 2, Cake::MapleBacon);
    assert_eq!(smell_cake(&p), "Hmm...something smells like a MapleBacon cake!");
    assert_eq!(smell_cake(Cake::Chocolate), "Hmm...something smells like a Chocolate cake!");
}

#[test]
fn compare_parties_with_same_cake() {
    let mine = party(true, 8, Cake::MapleBacon);
    let theirs = party(false, 235, Cake::MapleBacon);
    assert_eq!(compare_parties(&mine, &theirs), Some(String::from("Your party is just like mine!")));
}

#[test]
fn compare_parties_with_chocolate_is_silent() {
    let mine = party(true, 8, Cake::MapleBacon);
    let theirs = party(false, 235, Cake::Chocolate);
    assert_eq!(compare_parties(&mine, &theirs), None);
}

#[test]
fn run_produces_every_line_in_order() {
    let lines = run();
    assert_eq!(
        lines,
        vec![
            String::from("What a nice Spice cake! 🎂"),
            String::from("Great, let's spice it up!"),
            String::from(
                "The default Party is\nParty {\n    at_restaurant: true,\n    num_people: 8,\n    cake: Chocolate,\n}"
            ),
            String::from("Yes! My party has my favorite MapleBacon cake!"),
            String::from("Your party is just like mine!"),
            String::from("Hmm...something smells like a MapleBacon cake!"),
            String::from("Yum! I'm eating this cake: MapleBacon. Oops, I dropped it on the floor."),
        ]
    );
}
