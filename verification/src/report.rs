//! From the command line to the link to open, and what the user is told
//! when there is none.

use vstd::prelude::*;
use crate::destination::Destination;
use crate::fetch::FetchError;
use crate::info::{summary_text, CrateInfo, CrateInfoView};
use crate::link::{address, determine_link, label_text, missing_link_text, ResolveError};
use crate::text::same_text;

verus! {

/// Why no link was opened. One invocation asks once, chooses once and opens
/// once; whichever of the three goes wrong ends it.
#[derive(Clone, Debug, PartialEq, Eq)]
pub enum Failure {
    /// The registry gave no information about the crate of this name.
    Fetch { crate_name: String, cause: FetchError },
    /// The crate does not list the link asked for; `summary` says which
    /// links it does list.
    Resolve { error: ResolveError, summary: String },
    /// The browser could not be started.
    Dispatch,
}

/// A [`Failure`] as plain text values.
pub enum FailureModel {
    Fetch { crate_name: Seq<char>, cause: FetchError },
    Resolve { label: Seq<char>, summary: Seq<char> },
    Dispatch,
}

impl View for Failure {
    type V = FailureModel;

    open spec fn view(&self) -> FailureModel {
        match *self {
            Failure::Fetch { crate_name, cause } => FailureModel::Fetch {
                crate_name: crate_name@,
                cause,
            },
            Failure::Resolve { error, summary } => FailureModel::Resolve {
                label: error.spec_label(),
                summary: summary@,
            },
            Failure::Dispatch => FailureModel::Dispatch,
        }
    }
}

/// The arguments with the leading program name dropped where the program
/// was started as a subcommand, `cargo nav ...`: then `nav` stands second.
pub open spec fn without_subcommand(args: Seq<String>) -> Seq<String> {
    if args.len() > 1 && args[1]@ == "nav"@ {
        args.skip(1)
    } else {
        args
    }
}

/// What the user is told first about a failure.
pub open spec fn failure_text(failure: FailureModel) -> Seq<char> {
    match failure {
        FailureModel::Fetch { crate_name, .. } => "Could not find crate information for '"@
            + crate_name + "'."@,
        FailureModel::Resolve { label, .. } => missing_link_text(label),
        FailureModel::Dispatch => "Could not open the link"@,
    }
}

/// What the user is told about a failure, line by line: the message, and
/// for a link that is not set the summary of the links that are.
pub open spec fn failure_lines(failure: FailureModel) -> Seq<Seq<char>> {
    match failure {
        FailureModel::Resolve { summary, .. } => seq![failure_text(failure), summary],
        _ => seq![failure_text(failure)],
    }
}

/// The link to open after the registry was asked, or the failure that ends
/// the invocation.
pub open spec fn chosen(
    crate_name: Seq<char>,
    destination: Destination,
    fetched: Result<CrateInfoView, FetchError>,
) -> Result<Seq<char>, FailureModel> {
    match fetched {
        Err(cause) => Err(FailureModel::Fetch { crate_name, cause }),
        Ok(info) => match address(info, destination.link()) {
            Some(url) => Ok(url),
            None => Err(
                FailureModel::Resolve {
                    label: label_text(destination.link()),
                    summary: summary_text(info),
                },
            ),
        },
    }
}

/// One line of the log: the bare message for what is told to the user, and
/// the message behind its origin and level for everything else.
pub open spec fn log_text(
    plain: bool,
    target: Seq<char>,
    level: Seq<char>,
    message: Seq<char>,
) -> Seq<char> {
    if plain {
        message
    } else {
        "["@ + target + "] "@ + level + " "@ + message
    }
}

/// Drops the leading program name where the program was started as
/// `cargo nav ...`, so that both ways of starting it read the same.
pub fn strip_subcommand(args: Vec<String>) -> (r: Vec<String>)
    ensures
        r@ == without_subcommand(args@),
{
    let mut args = args;
    if args.len() > 1 && same_text(args[1].as_str(), "nav") {
        let ghost before = args@;
        args.remove(0);
        assert(args@ =~= before.skip(1));
    }
    args
}

/// Chooses the link to open from what the registry answered about
/// `crate_name`. A failed fetch ends here under the crate's name; a link
/// that is not set ends here with the summary of the links that are.
pub fn choose_link(
    crate_name: &str,
    destination: &Destination,
    fetched: Result<CrateInfo, FetchError>,
) -> (r: Result<String, Failure>)
    ensures
        match chosen(
            crate_name@,
            *destination,
            match fetched {
                Ok(info) => Ok(info@),
                Err(e) => Err(e),
            },
        ) {
            Ok(url) => r matches Ok(found) && found@ == url,
            Err(failure) => r matches Err(found) && found@ == failure,
        },
{
    match fetched {
        Err(cause) => Err(Failure::Fetch { crate_name: String::from_str(crate_name), cause }),
        Ok(info) => match determine_link(&info, destination) {
            Ok(url) => Ok(url),
            Err(error) => Err(Failure::Resolve { error, summary: info.summary() }),
        },
    }
}

impl Failure {
    /// What the user is told first.
    pub fn message(&self) -> (r: String)
        ensures
            r@ == failure_text(self@),
    {
        match self {
            Failure::Fetch { crate_name, .. } => {
                let mut text = String::from_str("Could not find crate information for '");
                text.append(crate_name.as_str());
                text.append("'.");
                text
            },
            Failure::Resolve { error, .. } => error.message(),
            Failure::Dispatch => String::from_str("Could not open the link"),
        }
    }

    /// Everything the user is told, line by line.
    pub fn lines(&self) -> (r: Vec<String>)
        ensures
            crate::text::views(r@) == failure_lines(self@),
    {
        let mut lines: Vec<String> = Vec::new();
        lines.push(self.message());
        match self {
            Failure::Resolve { summary, .. } => {
                lines.push(summary.clone());
            },
            _ => {},
        }
        assert(crate::text::views(lines@) =~= failure_lines(self@));
        lines
    }
}

/// The status with which the program ends: 0 after the link was opened, 1
/// after any failure.
pub fn exit_status(outcome: &Result<(), Failure>) -> (r: i32)
    ensures
        r == if outcome is Ok { 0i32 } else { 1i32 },
{
    match outcome {
        Ok(_) => 0,
        Err(_) => 1,
    }
}

/// Lays out one line of the log. With `plain` the message stands alone;
/// otherwise it follows its origin in brackets and its level.
pub fn log_line(plain: bool, target: &str, level: &str, message: &str) -> (r: String)
    ensures
        r@ == log_text(plain, target@, level@, message@),
{
    if plain {
        String::from_str(message)
    } else {
        let mut line = String::from_str("[");
        line.append(target);
        line.append("] ");
        line.append(level);
        line.append(" ");
        line.append(message);
        line
    }
}

} // verus!
