//! The kinds of link a caller can ask for, and the names they go by.

use vstd::prelude::*;
use crate::text::{eq_ignore_ascii_case, folded, same_ignoring_case};

verus! {

/// One of the four links of a crate.
#[derive(Clone, Copy, Debug, PartialEq, Eq, Structural)]
pub enum Link {
    /// The crate's own page on crates.io.
    Crate,
    Homepage,
    Documentation,
    Repository,
}

/// What the caller asks to open. Every link has a long name and a
/// one-letter shorthand; both mean the same link.
#[derive(Clone, Copy, Debug, PartialEq, Eq, Structural)]
pub enum Destination {
    C,
    Crate,
    H,
    Homepage,
    D,
    Documentation,
    R,
    Repository,
}

impl Destination {
    /// The link that this destination stands for.
    pub open spec fn link(self) -> Link {
        match self {
            Destination::C | Destination::Crate => Link::Crate,
            Destination::H | Destination::Homepage => Link::Homepage,
            Destination::D | Destination::Documentation => Link::Documentation,
            Destination::R | Destination::Repository => Link::Repository,
        }
    }

    /// The name under which this destination is written.
    pub open spec fn spec_name(self) -> Seq<char> {
        match self {
            Destination::C => "C"@,
            Destination::Crate => "Crate"@,
            Destination::H => "H"@,
            Destination::Homepage => "Homepage"@,
            Destination::D => "D"@,
            Destination::Documentation => "Documentation"@,
            Destination::R => "R"@,
            Destination::Repository => "Repository"@,
        }
    }

    /// Every destination, in the order in which they are listed to the user.
    pub open spec fn all() -> Seq<Destination> {
        seq![
            Destination::C,
            Destination::Crate,
            Destination::H,
            Destination::Homepage,
            Destination::D,
            Destination::Documentation,
            Destination::R,
            Destination::Repository,
        ]
    }

    /// The destination that `text` names, letter case aside, if any.
    pub open spec fn named(text: Seq<char>) -> Option<Destination> {
        if same_ignoring_case(text, Destination::C.spec_name()) {
            Some(Destination::C)
        } else if same_ignoring_case(text, Destination::Crate.spec_name()) {
            Some(Destination::Crate)
        } else if same_ignoring_case(text, Destination::H.spec_name()) {
            Some(Destination::H)
        } else if same_ignoring_case(text, Destination::Homepage.spec_name()) {
            Some(Destination::Homepage)
        } else if same_ignoring_case(text, Destination::D.spec_name()) {
            Some(Destination::D)
        } else if same_ignoring_case(text, Destination::Documentation.spec_name()) {
            Some(Destination::Documentation)
        } else if same_ignoring_case(text, Destination::R.spec_name()) {
            Some(Destination::R)
        } else if same_ignoring_case(text, Destination::Repository.spec_name()) {
            Some(Destination::Repository)
        } else {
            None
        }
    }

    /// The link that this destination stands for.
    pub fn target(&self) -> (r: Link)
        ensures
            r == self.link(),
    {
        match self {
            Destination::C | Destination::Crate => Link::Crate,
            Destination::H | Destination::Homepage => Link::Homepage,
            Destination::D | Destination::Documentation => Link::Documentation,
            Destination::R | Destination::Repository => Link::Repository,
        }
    }

    /// The name under which this destination is written.
    pub fn name(&self) -> (r: &'static str)
        ensures
            r@ == self.spec_name(),
    {
        match self {
            Destination::C => "C",
            Destination::Crate => "Crate",
            Destination::H => "H",
            Destination::Homepage => "Homepage",
            Destination::D => "D",
            Destination::Documentation => "Documentation",
            Destination::R => "R",
            Destination::Repository => "Repository",
        }
    }

    /// The names of all destinations, in listing order.
    pub fn variants() -> (r: [&'static str; 8])
        ensures
            forall|i: int| 0 <= i < 8 ==> (#[trigger] r@[i])@ == Destination::all()[i].spec_name(),
    {
        ["C", "Crate", "H", "Homepage", "D", "Documentation", "R", "Repository"]
    }

    /// Reads a destination from its name or shorthand, in any letter case.
    /// Anything else names no destination.
    pub fn parse(text: &str) -> (r: Option<Destination>)
        ensures
            r == Destination::named(text@),
    {
        if eq_ignore_ascii_case(text, "C") {
            Some(Destination::C)
        } else if eq_ignore_ascii_case(text, "Crate") {
            Some(Destination::Crate)
        } else if eq_ignore_ascii_case(text, "H") {
            Some(Destination::H)
        } else if eq_ignore_ascii_case(text, "Homepage") {
            Some(Destination::Homepage)
        } else if eq_ignore_ascii_case(text, "D") {
            Some(Destination::D)
        } else if eq_ignore_ascii_case(text, "Documentation") {
            Some(Destination::Documentation)
        } else if eq_ignore_ascii_case(text, "R") {
            Some(Destination::R)
        } else if eq_ignore_ascii_case(text, "Repository") {
            Some(Destination::Repository)
        } else {
            None
        }
    }
}

/// Every destination has a name of its own: no two names are the same,
/// letter case aside.
pub proof fn lemma_names_differ(a: Destination, b: Destination)
    requires
        same_ignoring_case(a.spec_name(), b.spec_name()),
    ensures
        a == b,
{
    reveal_names();
    let x = a.spec_name();
    let y = b.spec_name();
    assert(x.len() == y.len());
    assert(folded(x[0]) == folded(y[0]));
}

/// A destination is read back from its own name.
pub proof fn lemma_name_is_read_back(destination: Destination)
    ensures
        Destination::named(destination.spec_name()) == Some(destination),
{
    assert forall|other: Destination|
        same_ignoring_case(destination.spec_name(), other.spec_name()) implies other
        == destination by {
        lemma_names_differ(destination, other);
    }
}

/// Letter case makes no difference to the destination that a text names.
pub proof fn lemma_case_makes_no_difference(a: Seq<char>, b: Seq<char>)
    requires
        same_ignoring_case(a, b),
    ensures
        Destination::named(a) == Destination::named(b),
{
    assert forall|d: Destination|
        same_ignoring_case(a, d.spec_name()) == same_ignoring_case(b, d.spec_name()) by {
        let n = d.spec_name();
        if same_ignoring_case(a, n) {
            assert forall|i: int| 0 <= i < b.len() implies folded(#[trigger] b[i]) == folded(
                n[i],
            ) by {
                assert(folded(a[i]) == folded(b[i]));
                assert(folded(a[i]) == folded(n[i]));
            }
        }
        if same_ignoring_case(b, n) {
            assert forall|i: int| 0 <= i < a.len() implies folded(#[trigger] a[i]) == folded(
                n[i],
            ) by {
                assert(folded(a[i]) == folded(b[i]));
                assert(folded(b[i]) == folded(n[i]));
            }
        }
    }
}

/// A shorthand and the long name beside it stand for the same link, and the
/// four pairs stand for four different links.
pub proof fn lemma_shorthands(a: Destination, b: Destination)
    ensures
        a.link() == b.link() <==> folded(a.spec_name()[0]) == folded(b.spec_name()[0]),
{
    reveal_names();
}

/// Makes the letters of the eight names known.
proof fn reveal_names()
    ensures
        Destination::C.spec_name() == seq!['C'],
        Destination::Crate.spec_name() == seq!['C', 'r', 'a', 't', 'e'],
        Destination::H.spec_name() == seq!['H'],
        Destination::Homepage.spec_name() == seq!['H', 'o', 'm', 'e', 'p', 'a', 'g', 'e'],
        Destination::D.spec_name() == seq!['D'],
        Destination::Documentation.spec_name() == seq![
            'D',
            'o',
            'c',
            'u',
            'm',
            'e',
            'n',
            't',
            'a',
            't',
            'i',
            'o',
            'n',
        ],
        Destination::R.spec_name() == seq!['R'],
        Destination::Repository.spec_name() == seq![
            'R',
            'e',
            'p',
            'o',
            's',
            'i',
            't',
            'o',
            'r',
            'y',
        ],
{
    reveal_strlit("C");
    reveal_strlit("Crate");
    reveal_strlit("H");
    reveal_strlit("Homepage");
    reveal_strlit("D");
    reveal_strlit("Documentation");
    reveal_strlit("R");
    reveal_strlit("Repository");
    assert(Destination::C.spec_name() =~= seq!['C']);
    assert(Destination::Crate.spec_name() =~= seq!['C', 'r', 'a', 't', 'e']);
    assert(Destination::H.spec_name() =~= seq!['H']);
    assert(Destination::Homepage.spec_name() =~= seq!['H', 'o', 'm', 'e', 'p', 'a', 'g', 'e']);
    assert(Destination::D.spec_name() =~= seq!['D']);
    assert(Destination::Documentation.spec_name() =~= seq![
        'D',
        'o',
        'c',
        'u',
        'm',
        'e',
        'n',
        't',
        'a',
        't',
        'i',
        'o',
        'n',
    ]);
    assert(Destination::R.spec_name() =~= seq!['R']);
    assert(Destination::Repository.spec_name() =~= seq![
        'R',
        'e',
        'p',
        'o',
        's',
        'i',
        't',
        'o',
        'r',
        'y',
    ]);
}

impl Default for Destination {
    /// The crate's own page is what is opened when nothing else is asked for.
    fn default() -> (r: Destination)
        ensures
            r == Destination::C,
    {
        Destination::C
    }
}

} // verus!
