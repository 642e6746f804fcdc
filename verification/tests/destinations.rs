use cargo_nav::{Destination, Link};

#[test]
fn names_and_shorthands_are_read_in_any_case() {
    let cases = [
        ("c", Destination::C),
        ("C", Destination::C),
        ("crate", Destination::Crate),
        ("Crate", Destination::Crate),
        ("CRATE", Destination::Crate),
        ("h", Destination::H),
        ("homepage", Destination::Homepage),
        ("HomePage", Destination::Homepage),
        ("d", Destination::D),
        ("D", Destination::D),
        ("documentation", Destination::Documentation),
        ("DOCUMENTATION", Destination::Documentation),
        ("r", Destination::R),
        ("repository", Destination::Repository),
        ("rEPOSITORY", Destination::Repository),
    ];
    for (text, destination) in cases {
        assert_eq!(Destination::parse(text), Some(destination));
    }
}

#[test]
fn other_texts_name_no_destination() {
    for text in [
        "", " ", "x", "cr", "crates", "crate ", " c", "docs", "home", "repo", "hd", "ç", "ｃ",
        "\u{212a}", "c\u{301}", "homepag\u{e9}",
    ] {
        assert_eq!(Destination::parse(text), None);
    }
}

#[test]
fn every_listed_name_is_read_back() {
    let all = [
        Destination::C,
        Destination::Crate,
        Destination::H,
        Destination::Homepage,
        Destination::D,
        Destination::Documentation,
        Destination::R,
        Destination::Repository,
    ];
    let names = Destination::variants();
    assert_eq!(
        names,
        ["C", "Crate", "H", "Homepage", "D", "Documentation", "R", "Repository"]
    );
    for (name, destination) in names.iter().zip(all) {
        assert_eq!(destination.name(), *name);
        assert_eq!(Destination::parse(name), Some(destination));
        assert_eq!(Destination::parse(&name.to_lowercase()), Some(destination));
        assert_eq!(Destination::parse(&name.to_uppercase()), Some(destination));
    }
}

#[test]
fn shorthands_stand_for_the_long_names() {
    assert_eq!(Destination::C.target(), Link::Crate);
    assert_eq!(Destination::Crate.target(), Link::Crate);
    assert_eq!(Destination::H.target(), Link::Homepage);
    assert_eq!(Destination::Homepage.target(), Link::Homepage);
    assert_eq!(Destination::D.target(), Link::Documentation);
    assert_eq!(Destination::Documentation.target(), Link::Documentation);
    assert_eq!(Destination::R.target(), Link::Repository);
    assert_eq!(Destination::Repository.target(), Link::Repository);
}

#[test]
fn labels_are_lower_case_nouns() {
    assert_eq!(Link::Crate.label(), "crate");
    assert_eq!(Link::Homepage.label(), "homepage");
    assert_eq!(Link::Documentation.label(), "documentation");
    assert_eq!(Link::Repository.label(), "repository");
}

#[test]
fn the_crate_page_is_the_default() {
    assert_eq!(Destination::default(), Destination::C);
    assert_eq!(Destination::default().target(), Link::Crate);
    assert_eq!(Destination::parse("c"), Some(Destination::default()));
}
