//! The edge server's address, as configured by a user.
use vstd::prelude::*;
use crate::text::{has_prefix, starts_with};

verus! {

#[verifier::external_type_specification]
#[verifier::external_body]
pub struct ExUrl(url::Url);

#[verifier::external_type_specification]
#[verifier::external_body]
pub struct ExParseError(url::ParseError);

/// Whether `url::Url::parse` accepts the text `s`.
pub uninterp spec fn url_accepts(s: Seq<char>) -> bool;

/// Relies on url::Url::parse: it accepts or refuses a text by the text alone.
#[verifier::external_body]
fn parse_url(s: &str) -> (r: Result<url::Url, url::ParseError>)
    ensures
        r is Ok == url_accepts(s@),
{
    url::Url::parse(s)
}

/// Why an edge server address cannot be used.
#[derive(Clone, Copy, Debug, PartialEq, Eq, Structural)]
pub enum EndpointError {
    /// The address, with its scheme, is not a URL.
    InvalidUrl,
}

/// `raw` with `http://` put in front, unless it already starts with `http`.
pub open spec fn with_scheme(raw: Seq<char>) -> Seq<char> {
    if starts_with(raw, "http"@) {
        raw
    } else {
        "http://"@ + raw
    }
}

/// An address as written by a user, with the `http://` scheme supplied
/// where it starts with anything but `http`.
pub fn with_default_scheme(raw: &str) -> (r: String)
    requires
        raw@.len() < usize::MAX,
    ensures
        r@ == with_scheme(raw@),
{
    if has_prefix(raw, "http") {
        raw.to_owned()
    } else {
        let mut full = "http://".to_owned();
        full.append(raw);
        full
    }
}

/// The edge server URL from the address `raw`: `raw` with its scheme
/// supplied, parsed as a URL.
pub fn edge_server_url(raw: &str) -> (r: Result<url::Url, EndpointError>)
    requires
        raw@.len() < usize::MAX,
    ensures
        r is Ok == url_accepts(with_scheme(raw@)),
        r is Err ==> r == Err::<url::Url, EndpointError>(EndpointError::InvalidUrl),
{
    let full = with_default_scheme(raw);
    match parse_url(full.as_str()) {
        Ok(u) => Ok(u),
        Err(_) => Err(EndpointError::InvalidUrl),
    }
}

} // verus!
