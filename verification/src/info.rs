//! What the registry publishes about one crate.

use vstd::prelude::*;
use crate::text::{join, joined, views};

verus! {

/// The links of one crate, as the registry lists them.
#[derive(Clone, Debug, PartialEq, Eq)]
pub struct CrateInfo {
    pub name: String,
    pub homepage: Option<String>,
    pub documentation: Option<String>,
    pub repository: Option<String>,
}

/// A [`CrateInfo`] as plain text values.
pub struct CrateInfoView {
    pub name: Seq<char>,
    pub homepage: Option<Seq<char>>,
    pub documentation: Option<Seq<char>>,
    pub repository: Option<Seq<char>>,
}

/// The view of an optional string.
pub open spec fn opt_view(s: Option<String>) -> Option<Seq<char>> {
    match s {
        Some(t) => Some(t@),
        None => None,
    }
}

impl CrateInfoView {
    /// Every crate has a name: it is never empty. The links are free: each
    /// may be there or not, whatever the others do.
    pub open spec fn well_formed(self) -> bool {
        self.name.len() > 0
    }
}

impl View for CrateInfo {
    type V = CrateInfoView;

    open spec fn view(&self) -> CrateInfoView {
        CrateInfoView {
            name: self.name@,
            homepage: opt_view(self.homepage),
            documentation: opt_view(self.documentation),
            repository: opt_view(self.repository),
        }
    }
}

/// The crate's own page on crates.io, which exists for every name.
pub open spec fn crate_page(name: Seq<char>) -> Seq<char> {
    "https://crates.io/crates/"@ + name
}

/// One `Label: link` entry if the link is set, nothing otherwise.
pub open spec fn entry(label: Seq<char>, link: Option<Seq<char>>) -> Seq<Seq<char>> {
    match link {
        Some(l) => seq![label + ": "@ + l],
        None => seq![],
    }
}

/// The entries of the links that are set: homepage, then documentation,
/// then repository.
pub open spec fn entries(info: CrateInfoView) -> Seq<Seq<char>> {
    entry("Homepage"@, info.homepage) + entry("Documentation"@, info.documentation) + entry(
        "Repository"@,
        info.repository,
    )
}

/// The sentence shown for a crate that lists no link at all.
pub open spec fn no_links_text(name: Seq<char>) -> Seq<char> {
    "no links found for crate '"@ + name + "'; check "@ + crate_page(name)
}

/// The one-line summary of a crate's links.
pub open spec fn summary_text(info: CrateInfoView) -> Seq<char> {
    if entries(info).len() == 0 {
        no_links_text(info.name)
    } else {
        joined(entries(info), ", "@)
    }
}

/// The summary lists the links that are set in the order homepage,
/// documentation, repository, and leaves out the others. A crate with no
/// link at all gets the sentence that names it.
pub proof fn lemma_summary_order(info: CrateInfoView)
    ensures
        summary_text(info) == match (info.homepage, info.documentation, info.repository) {
            (None, None, None) => no_links_text(info.name),
            (Some(h), None, None) => "Homepage: "@ + h,
            (None, Some(d), None) => "Documentation: "@ + d,
            (None, None, Some(r)) => "Repository: "@ + r,
            (Some(h), Some(d), None) => "Homepage: "@ + h + ", "@ + ("Documentation: "@ + d),
            (Some(h), None, Some(r)) => "Homepage: "@ + h + ", "@ + ("Repository: "@ + r),
            (None, Some(d), Some(r)) => "Documentation: "@ + d + ", "@ + ("Repository: "@ + r),
            (Some(h), Some(d), Some(r)) => "Homepage: "@ + h + ", "@ + ("Documentation: "@ + d)
                + ", "@ + ("Repository: "@ + r),
        },
{
    let parts = entries(info);
    let sep = ", "@;
    lemma_labels();
    match (info.homepage, info.documentation, info.repository) {
        (None, None, None) => {
            assert(parts =~= seq![]);
        },
        (Some(h), None, None) => {
            assert(parts =~= seq!["Homepage: "@ + h]);
        },
        (None, Some(d), None) => {
            assert(parts =~= seq!["Documentation: "@ + d]);
        },
        (None, None, Some(r)) => {
            assert(parts =~= seq!["Repository: "@ + r]);
        },
        (Some(h), Some(d), None) => {
            assert(parts =~= seq!["Homepage: "@ + h, "Documentation: "@ + d]);
            lemma_joined_two("Homepage: "@ + h, "Documentation: "@ + d, sep);
        },
        (Some(h), None, Some(r)) => {
            assert(parts =~= seq!["Homepage: "@ + h, "Repository: "@ + r]);
            lemma_joined_two("Homepage: "@ + h, "Repository: "@ + r, sep);
        },
        (None, Some(d), Some(r)) => {
            assert(parts =~= seq!["Documentation: "@ + d, "Repository: "@ + r]);
            lemma_joined_two("Documentation: "@ + d, "Repository: "@ + r, sep);
        },
        (Some(h), Some(d), Some(r)) => {
            assert(parts =~= seq![
                "Homepage: "@ + h,
                "Documentation: "@ + d,
                "Repository: "@ + r,
            ]);
            assert(parts.drop_last() =~= seq!["Homepage: "@ + h, "Documentation: "@ + d]);
            lemma_joined_two("Homepage: "@ + h, "Documentation: "@ + d, sep);
        },
    }
}

/// A label followed by its colon, letter by letter.
proof fn lemma_labels()
    ensures
        forall|l: Seq<char>| #[trigger] ("Homepage"@ + ": "@ + l) == "Homepage: "@ + l,
        forall|l: Seq<char>| #[trigger] ("Documentation"@ + ": "@ + l) == "Documentation: "@ + l,
        forall|l: Seq<char>| #[trigger] ("Repository"@ + ": "@ + l) == "Repository: "@ + l,
{
    reveal_strlit(": ");
    reveal_strlit("Homepage");
    reveal_strlit("Homepage: ");
    reveal_strlit("Documentation");
    reveal_strlit("Documentation: ");
    reveal_strlit("Repository");
    reveal_strlit("Repository: ");
    assert("Homepage"@ + ": "@ =~= "Homepage: "@);
    assert("Documentation"@ + ": "@ =~= "Documentation: "@);
    assert("Repository"@ + ": "@ =~= "Repository: "@);
}

/// Two parts joined are the first, the separator and the second.
proof fn lemma_joined_two(a: Seq<char>, b: Seq<char>, sep: Seq<char>)
    ensures
        joined(seq![a, b], sep) == a + sep + b,
{
    assert(seq![a, b].drop_last() =~= seq![a]);
    assert(joined(seq![a], sep) == a);
    assert(seq![a, b].last() == b);
}

/// Appends the entry for `link` under `label` to `parts`, if the link is set.
fn push_entry(parts: &mut Vec<String>, label: &str, link: &Option<String>)
    ensures
        views(final(parts)@) == views(old(parts)@) + entry(label@, opt_view(*link)),
{
    match link {
        Some(l) => {
            let mut text = String::from_str(label);
            text.append(": ");
            text.append(l.as_str());
            parts.push(text);
            assert(views(parts@) =~= views(old(parts)@) + entry(label@, opt_view(*link)));
        },
        None => {
            assert(views(parts@) =~= views(old(parts)@) + entry(label@, opt_view(*link)));
        },
    }
}

/// The address of the crate's own page on crates.io.
pub fn crate_url(name: &str) -> (r: String)
    ensures
        r@ == crate_page(name@),
{
    let mut url = String::from_str("https://crates.io/crates/");
    url.append(name);
    url
}

impl CrateInfo {
    /// Lists every link that is set as `Label: link`, separated by `, `, in
    /// the order homepage, documentation, repository. A crate without any
    /// link gets a sentence that names it and points to its crates.io page.
    pub fn summary(&self) -> (r: String)
        ensures
            r@ == summary_text(self@),
    {
        let mut parts: Vec<String> = Vec::new();
        assert(views(parts@) =~= Seq::<Seq<char>>::empty());
        push_entry(&mut parts, "Homepage", &self.homepage);
        push_entry(&mut parts, "Documentation", &self.documentation);
        push_entry(&mut parts, "Repository", &self.repository);
        assert(views(parts@) =~= entries(self@));
        if parts.len() == 0 {
            let mut text = String::from_str("no links found for crate '");
            text.append(self.name.as_str());
            text.append("'; check ");
            let url = crate_url(self.name.as_str());
            text.append(url.as_str());
            assert(text@ =~= no_links_text(self.name@));
            text
        } else {
            join(&parts, ", ")
        }
    }
}

} // verus!
