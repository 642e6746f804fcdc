//! Choosing the link to open from what the registry published.

use vstd::prelude::*;
use crate::destination::{Destination, Link};
use crate::info::{crate_page, crate_url, CrateInfo, CrateInfoView};

verus! {

/// Why no link could be chosen.
#[derive(Clone, Debug, PartialEq, Eq)]
pub enum ResolveError {
    /// The crate does not list the link that was asked for. Holds the
    /// link's label: `homepage`, `documentation` or `repository`.
    MissingLink(String),
}

/// The lower-case noun by which a link is called in messages.
pub open spec fn label_text(link: Link) -> Seq<char> {
    match link {
        Link::Crate => "crate"@,
        Link::Homepage => "homepage"@,
        Link::Documentation => "documentation"@,
        Link::Repository => "repository"@,
    }
}

/// The address behind `link`, where the crate has one. The crate's own page
/// is made from its name, the others are taken as the registry lists them.
pub open spec fn address(info: CrateInfoView, link: Link) -> Option<Seq<char>> {
    match link {
        Link::Crate => Some(crate_page(info.name)),
        Link::Homepage => info.homepage,
        Link::Documentation => info.documentation,
        Link::Repository => info.repository,
    }
}

/// What a missing-link error says to the user.
pub open spec fn missing_link_text(label: Seq<char>) -> Seq<char> {
    "The "@ + label + " link isn't set for that crate."@
}

impl Link {
    /// The lower-case noun by which this link is called in messages.
    pub fn label(&self) -> (r: &'static str)
        ensures
            r@ == label_text(*self),
    {
        match self {
            Link::Crate => "crate",
            Link::Homepage => "homepage",
            Link::Documentation => "documentation",
            Link::Repository => "repository",
        }
    }
}

impl ResolveError {
    /// The label of the link that is missing.
    pub open spec fn spec_label(self) -> Seq<char> {
        match self {
            ResolveError::MissingLink(label) => label@,
        }
    }

    /// The sentence that tells the user which link is not set.
    pub fn message(&self) -> (r: String)
        ensures
            r@ == missing_link_text(self.spec_label()),
    {
        match self {
            ResolveError::MissingLink(label) => {
                let mut text = String::from_str("The ");
                text.append(label.as_str());
                text.append(" link isn't set for that crate.");
                text
            },
        }
    }
}

/// Hands out a copy of the link if it is set, and the missing-link error
/// under `label` if it is not.
fn require(link: &Option<String>, label: &str) -> (r: Result<String, ResolveError>)
    ensures
        match *link {
            Some(l) => r matches Ok(u) && u@ == l@,
            None => r matches Err(e) && e.spec_label() == label@,
        },
{
    match link {
        Some(l) => Ok(l.clone()),
        None => Err(ResolveError::MissingLink(String::from_str(label))),
    }
}

/// Determines which address to open for `destination`.
///
/// The crate's own page is always there. Any other link is returned exactly
/// as the registry lists it, and where the crate does not list it the error
/// carries the label of the link that is missing.
pub fn determine_link(info: &CrateInfo, destination: &Destination) -> (r: Result<
    String,
    ResolveError,
>)
    ensures
        destination.link() == Link::Crate ==> (r matches Ok(u) && u@ == crate_page(info@.name)),
        address(info@, destination.link()) matches Some(a) ==> (r matches Ok(u) && u@ == a),
        address(info@, destination.link()) is None ==> (r matches Err(e) && e.spec_label()
            == label_text(destination.link())),
{
    let link = destination.target();
    match link {
        Link::Crate => Ok(crate_url(info.name.as_str())),
        Link::Homepage => require(&info.homepage, link.label()),
        Link::Documentation => require(&info.documentation, link.label()),
        Link::Repository => require(&info.repository, link.label()),
    }
}

} // verus!
