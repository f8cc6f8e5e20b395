//! A parsed URI, held as the two things that the funding protocol reads from
//! it: its scheme and its text.
//!
//! Parsing is done by the `http` crate. What it makes of a text is named by
//! `parsed_uri`; the wrapper at the end of this file is the only place where
//! the crate is called, and its contract is believed, not proved.

use vstd::prelude::*;
use crate::text::view_of;

verus! {

/// What funding reads of a URI.
#[derive(Clone, PartialEq, Eq, Debug)]
pub struct Uri {
    /// The scheme, where the URI has one (`http`, `https`, ...).
    pub scheme: Option<String>,
    /// The URI as text: scheme, authority, path and query.
    pub text: String,
}

/// The mathematical value of a `Uri`.
pub struct UriView {
    pub scheme: Option<Seq<char>>,
    pub text: Seq<char>,
}

impl View for Uri {
    type V = UriView;

    open spec fn view(&self) -> UriView {
        UriView { scheme: view_of(self.scheme), text: self.text@ }
    }
}

/// What `http::Uri::from_str` makes of `text`: `None` where it rejects it,
/// else the scheme that `scheme_str` reports and the text that the URI
/// displays as.
pub uninterp spec fn parsed_uri(text: Seq<char>) -> Option<UriView>;

impl Uri {
    /// Parses `s`. `None` where `s` is not a URI.
    pub fn parse(s: &str) -> (r: Option<Uri>)
        ensures
            match r {
                Some(uri) => parsed_uri(s@) == Some(uri@),
                None => parsed_uri(s@) is None,
            },
    {
        match parse_uri(s) {
            Ok(uri) => Some(uri),
            Err(_) => None,
        }
    }
}

/// The error of `http`'s URI parser. Nothing is read from it.
#[verifier::external_type_specification]
#[verifier::external_body]
pub struct ExInvalidUri(http::uri::InvalidUri);

/// Calls `http::Uri::from_str` and, on the URI it returns, `scheme_str` and
/// `to_string`. Believed: whether the text is accepted, and the scheme and
/// the text of the result, are functions of the input text alone.
#[verifier::external_body]
fn parse_uri(s: &str) -> (r: Result<Uri, http::uri::InvalidUri>)
    ensures
        match r {
            Ok(uri) => parsed_uri(s@) == Some(uri@),
            Err(_) => parsed_uri(s@) is None,
        },
{
    s.parse::<http::Uri>().map(
        |uri| Uri { scheme: uri.scheme_str().map(|scheme| scheme.to_owned()), text: uri.to_string() },
    )
}

} // verus!
