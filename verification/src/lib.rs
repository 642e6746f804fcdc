//! Resolve a crate name to one of its published links.
//!
//! The registry's answer for a crate is decoded into a [`CrateInfo`], and
//! [`determine_link`] picks the link that a [`Destination`] asks for.

pub mod destination;
pub mod fetch;
pub mod info;
pub mod json;
pub mod link;
pub mod report;
pub mod text;

pub use destination::{Destination, Link};
pub use fetch::{
    check_status, crate_info_from_document, crate_info_from_json, decode, get_api_url, is_success,
    read_response, request_url, user_agent, FetchError,
};
pub use info::{crate_url, CrateInfo, CrateInfoView};
pub use link::{determine_link, ResolveError};
pub use report::{choose_link, exit_status, log_line, strip_subcommand, Failure};
