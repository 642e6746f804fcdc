//! Asking the registry about a crate: the request to make, and what its
//! answer means.

use vstd::prelude::*;
use serde_json::Value;
use crate::info::{opt_view, CrateInfo, CrateInfoView};
use crate::json::{as_str, from_slice, get, is_null, json_document, json_kind, member, JsonKind};
use crate::text::{decimal, decimal_string};

verus! {

/// Why the registry's answer gave no crate information.
#[derive(Clone, Copy, Debug, PartialEq, Eq, Structural)]
pub enum FetchError {
    /// The request did not get through or no answer came back.
    Transport,
    /// The registry answered with a status outside 200..=299.
    BadStatus(u16),
    /// The answer arrived but is not the JSON of a crate.
    Decode,
}

/// Whether an HTTP status code reports success.
pub open spec fn success(status: u16) -> bool {
    200 <= status < 300
}

/// The address to ask for `name` below `base_url`.
pub open spec fn request_address(base_url: Seq<char>, name: Seq<char>) -> Seq<char> {
    base_url + "/"@ + name
}

/// What a fetch error says, for those who ask for the cause.
pub open spec fn fetch_error_text(error: FetchError) -> Seq<char> {
    match error {
        FetchError::Transport => "Could not reach the crates.io API"@,
        FetchError::BadStatus(status) => "Got bad status "@ + decimal(status as nat)
            + " from crates.io API"@,
        FetchError::Decode => "Could not read the answer of the crates.io API"@,
    }
}

/// The text of a member that must be a string, and not an empty one.
pub open spec fn required_text(value: Value, key: Seq<char>) -> Option<Seq<char>> {
    match member(value, key) {
        Some(found) => match json_kind(found) {
            JsonKind::Text(text) => if text.len() > 0 {
                Some(text)
            } else {
                None
            },
            _ => None,
        },
        None => None,
    }
}

/// The text of a member that may be left out. A missing member and `null`
/// both mean that there is none; a member of any other kind than a string is
/// a fault, for which the outer `None` stands.
pub open spec fn optional_text(value: Value, key: Seq<char>) -> Option<Option<Seq<char>>> {
    match member(value, key) {
        Some(found) => match json_kind(found) {
            JsonKind::Text(text) => Some(Some(text)),
            JsonKind::Null => Some(None),
            _ => None,
        },
        None => Some(None),
    }
}

/// The crate that a JSON object describes: it needs a `name` that is not
/// empty, may have `homepage`, `documentation` and `repository`, and
/// whatever else it holds is passed over.
pub open spec fn described(value: Value) -> Option<CrateInfoView> {
    match (
        required_text(value, "name"@),
        optional_text(value, "homepage"@),
        optional_text(value, "documentation"@),
        optional_text(value, "repository"@),
    ) {
        (Some(name), Some(homepage), Some(documentation), Some(repository)) => Some(
            CrateInfoView { name, homepage, documentation, repository },
        ),
        _ => None,
    }
}

/// The crate in a registry answer, which wraps it under the key `crate`.
pub open spec fn unwrapped(document: Value) -> Option<CrateInfoView> {
    match member(document, "crate"@) {
        Some(inner) => described(inner),
        None => None,
    }
}

/// The crate that the bytes of an answer decode to.
pub open spec fn decoded(body: Seq<u8>) -> Option<CrateInfoView> {
    match json_document(body) {
        Some(document) => unwrapped(document),
        None => None,
    }
}

/// What an answer with this status and body amounts to.
pub open spec fn outcome(status: u16, body: Seq<u8>) -> Result<CrateInfoView, FetchError> {
    if !success(status) {
        Err(FetchError::BadStatus(status))
    } else {
        match decoded(body) {
            Some(info) => Ok(info),
            None => Err(FetchError::Decode),
        }
    }
}

/// Whether `r` is `expected`, with the crate taken by its view.
pub open spec fn agrees(
    r: Result<CrateInfo, FetchError>,
    expected: Option<CrateInfoView>,
) -> bool {
    match expected {
        Some(info) => r matches Ok(found) && found@ == info,
        None => r == Err::<CrateInfo, FetchError>(FetchError::Decode),
    }
}

/// A bad status and a body that does not decode give errors of different
/// kinds: the first is a bad-status error whatever the body holds, the
/// second a decode error.
pub proof fn lemma_bad_status_is_not_decode(
    bad: u16,
    any_body: Seq<u8>,
    good: u16,
    malformed: Seq<u8>,
)
    requires
        !success(bad),
        success(good),
        decoded(malformed) is None,
    ensures
        outcome(bad, any_body) == Err::<CrateInfoView, FetchError>(FetchError::BadStatus(bad)),
        outcome(good, malformed) == Err::<CrateInfoView, FetchError>(FetchError::Decode),
        outcome(bad, any_body) != outcome(good, malformed),
{
}

/// A member under a key that the library does not know makes no difference
/// to the crate that an object describes.
pub proof fn lemma_unknown_member_is_passed_over(
    plain: Value,
    extended: Value,
    key: Seq<char>,
    extra: Value,
)
    requires
        json_kind(plain) matches JsonKind::Object(members) && json_kind(extended)
            == JsonKind::Object(members.insert(key, extra)),
        key != "name"@,
        key != "homepage"@,
        key != "documentation"@,
        key != "repository"@,
    ensures
        described(extended) == described(plain),
{
}

/// A member beside `crate` in a registry answer makes no difference to the
/// crate in it.
pub proof fn lemma_unknown_sibling_is_passed_over(
    plain: Value,
    extended: Value,
    key: Seq<char>,
    extra: Value,
)
    requires
        json_kind(plain) matches JsonKind::Object(members) && json_kind(extended)
            == JsonKind::Object(members.insert(key, extra)),
        key != "crate"@,
    ensures
        unwrapped(extended) == unwrapped(plain),
{
}

/// The root of the crates.io API for crates.
pub fn get_api_url() -> (r: String)
    ensures
        r@ == "https://crates.io/api/v1/crates"@,
{
    String::from_str("https://crates.io/api/v1/crates")
}

/// The name under which requests are made, so that the registry can tell
/// where they come from.
pub fn user_agent() -> (r: &'static str)
    ensures
        r@ == "cargo-nav (https://github.com/celeo/cargo-nav)"@,
{
    "cargo-nav (https://github.com/celeo/cargo-nav)"
}

/// The address to ask for `crate_name` below `base_url`. The name is put in
/// as it is, also where it is empty.
pub fn request_url(base_url: &str, crate_name: &str) -> (r: String)
    ensures
        r@ == request_address(base_url@, crate_name@),
{
    let mut url = String::from_str(base_url);
    url.append("/");
    url.append(crate_name);
    url
}

/// Whether an HTTP status code reports success: 200 up to 299.
pub fn is_success(status: u16) -> (r: bool)
    ensures
        r == success(status),
{
    200 <= status && status < 300
}

/// Turns a status that does not report success into the bad-status error
/// that carries it.
pub fn check_status(status: u16) -> (r: Result<(), FetchError>)
    ensures
        r == if success(status) {
            Ok::<(), FetchError>(())
        } else {
            Err::<(), FetchError>(FetchError::BadStatus(status))
        },
{
    if is_success(status) {
        Ok(())
    } else {
        Err(FetchError::BadStatus(status))
    }
}

impl FetchError {
    /// What went wrong, in words. A bad status is told with its number.
    pub fn message(&self) -> (r: String)
        ensures
            r@ == fetch_error_text(*self),
    {
        match self {
            FetchError::Transport => String::from_str("Could not reach the crates.io API"),
            FetchError::BadStatus(status) => {
                let mut text = String::from_str("Got bad status ");
                let number = decimal_string(*status);
                text.append(number.as_str());
                text.append(" from crates.io API");
                text
            },
            FetchError::Decode => String::from_str(
                "Could not read the answer of the crates.io API",
            ),
        }
    }
}

/// Reads the member under `key`, which may be left out or `null`.
fn optional_member(value: &Value, key: &str) -> (r: Result<Option<String>, FetchError>)
    ensures
        match optional_text(*value, key@) {
            Some(text) => r matches Ok(found) && opt_view(found) == text,
            None => r == Err::<Option<String>, FetchError>(FetchError::Decode),
        },
{
    match get(value, key) {
        None => Ok(None),
        Some(found) => {
            if is_null(found) {
                Ok(None)
            } else {
                match as_str(found) {
                    Some(text) => Ok(Some(String::from_str(text))),
                    None => Err(FetchError::Decode),
                }
            }
        },
    }
}

/// Reads a crate from the JSON object that describes it.
///
/// The object must have a string under `name` that is not empty.
/// `homepage`, `documentation` and `repository` may each be a string, `null`
/// or left out, and a string is taken as it is. Other members are passed
/// over. Anything else is a decode error.
pub fn crate_info_from_json(value: &Value) -> (r: Result<CrateInfo, FetchError>)
    ensures
        agrees(r, described(*value)),
        r matches Ok(info) ==> info@.well_formed(),
{
    let name = match get(value, "name") {
        Some(found) => match as_str(found) {
            Some(text) => {
                if text.is_empty() {
                    return Err(FetchError::Decode);
                }
                String::from_str(text)
            },
            None => { return Err(FetchError::Decode); },
        },
        None => { return Err(FetchError::Decode); },
    };
    let homepage = match optional_member(value, "homepage") {
        Ok(found) => found,
        Err(e) => { return Err(e); },
    };
    let documentation = match optional_member(value, "documentation") {
        Ok(found) => found,
        Err(e) => { return Err(e); },
    };
    let repository = match optional_member(value, "repository") {
        Ok(found) => found,
        Err(e) => { return Err(e); },
    };
    Ok(CrateInfo { name, homepage, documentation, repository })
}

/// Reads the crate out of a decoded registry answer: the object under the
/// key `crate`.
pub fn crate_info_from_document(document: &Value) -> (r: Result<CrateInfo, FetchError>)
    ensures
        agrees(r, unwrapped(*document)),
        r matches Ok(info) ==> info@.well_formed(),
{
    match get(document, "crate") {
        Some(inner) => crate_info_from_json(inner),
        None => Err(FetchError::Decode),
    }
}

/// Decodes the body of a registry answer.
pub fn decode(body: &[u8]) -> (r: Result<CrateInfo, FetchError>)
    ensures
        agrees(r, decoded(body@)),
        r matches Ok(info) ==> info@.well_formed(),
{
    match from_slice(body) {
        Ok(document) => crate_info_from_document(&document),
        Err(_) => Err(FetchError::Decode),
    }
}

/// Turns the registry's answer into crate information.
///
/// A status outside 200..=299 is a bad-status error with that status,
/// whatever the body holds. With a good status the body must decode.
pub fn read_response(status: u16, body: &[u8]) -> (r: Result<CrateInfo, FetchError>)
    ensures
        match outcome(status, body@) {
            Ok(info) => r matches Ok(found) && found@ == info,
            Err(e) => r == Err::<CrateInfo, FetchError>(e),
        },
        r matches Ok(info) ==> info@.well_formed(),
{
    match check_status(status) {
        Ok(_) => decode(body),
        Err(e) => Err(e),
    }
}

} // verus!
