//! The HTTP endpoints of local servers, checked and normalised by the `url`
//! crate.

use vstd::prelude::*;
use crate::text::{decimal, decimal_string};

verus! {

/// The serialisation (`Url::as_str`) of the URL that `url::Url::parse` makes
/// of `text`, or `None` where it rejects `text`.
pub uninterp spec fn parsed_url(text: Seq<char>) -> Option<Seq<char>>;

/// Calls `url::Url::parse` on `text` and gives back the serialisation of the
/// result (`Url::as_str`). The contract claims only that this is a function of
/// `text`, named `parsed_url`: URL parsing follows the WHATWG URL standard,
/// which is not restated here.
#[verifier::external_body]
fn parse_url(text: &str) -> (r: Option<String>)
    ensures
        r is Some <==> parsed_url(text@) is Some,
        r matches Some(s) ==> s@ == parsed_url(text@)->0,
{
    match url::Url::parse(text) {
        Ok(u) => Some(u.as_str().to_string()),
        Err(_) => None,
    }
}

/// The URL `http://<host>:<port><path>` as text.
pub open spec fn http_url_text(host: Seq<char>, port: u16, path: Seq<char>) -> Seq<char> {
    "http://"@ + host + ":"@ + decimal(port as nat) + path
}

/// Builds `http://<host>:<port><path>` (see [`http_url_text`]).
pub fn http_url(host: &str, port: u16, path: &str) -> (r: String)
    ensures
        r@ == http_url_text(host@, port, path@),
{
    let mut r = String::from_str("http://");
    r.append(host);
    r.append(":");
    let digits = decimal_string(port as u64);
    r.append(digits.as_str());
    r.append(path);
    r
}

/// Whether the `url` crate accepts `text`.
pub open spec fn url_accepted(text: Seq<char>) -> bool {
    parsed_url(text) is Some
}

/// The normalised URL for `text`, which the `url` crate must accept.
pub fn checked_url(text: &str) -> (r: String)
    requires
        url_accepted(text@),
    ensures
        r@ == parsed_url(text@)->0,
{
    match parse_url(text) {
        Some(s) => s,
        None => String::new(),
    }
}

/// The normalised URL for `text`, or `None` where the `url` crate rejects it.
pub fn try_checked_url(text: &str) -> (r: Option<String>)
    ensures
        r is Some <==> url_accepted(text@),
        r matches Some(s) ==> s@ == parsed_url(text@)->0,
{
    match parse_url(text) {
        Some(_) => Some(checked_url(text)),
        None => None,
    }
}

} // verus!
