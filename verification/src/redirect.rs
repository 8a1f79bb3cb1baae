//! Redirection urls, parsed and serialized by the `url` crate.

use vstd::prelude::*;

verus! {

/// The serialization of the absolute url that `url::Url::parse` reads from `input`, or `None`
/// where that parse fails.
pub uninterp spec fn url_parse(input: Seq<char>) -> Option<Seq<char>>;

/// Declares `url::ParseError` so that it can stand in signatures; nothing is known of it.
#[verifier::external_type_specification]
#[verifier::external_body]
pub struct ExUrlParseError(url::ParseError);

/// Calls `url::Url::parse(input)` and hands back the parsed url's serialization.
/// Trusted: the result depends on `input` alone and is named `url_parse`; the parser does not panic.
#[verifier::external_body]
fn parse_url(input: &str) -> (r: Result<String, url::ParseError>)
    ensures
        match r {
            Ok(text) => url_parse(input@) == Some(text@),
            Err(_) => url_parse(input@) is None,
        },
{
    match url::Url::parse(input) {
        Ok(parsed) => Ok(String::from(parsed)),
        Err(e) => Err(e),
    }
}

/// The input given to [`RedirectUri::parse`] is not an absolute url.
#[derive(Debug, Clone, Copy, PartialEq, Eq)]
pub struct InvalidUrl;

/// An absolute url, held as its serialization.
pub struct RedirectUri {
    serialization: String,
}

impl View for RedirectUri {
    type V = Seq<char>;

    closed spec fn view(&self) -> Seq<char> {
        self.serialization@
    }
}

impl RedirectUri {
    /// Parses an absolute url.
    pub fn parse(input: &str) -> (r: Result<RedirectUri, InvalidUrl>)
        ensures
            match r {
                Ok(uri) => url_parse(input@) == Some(uri@),
                Err(_) => url_parse(input@) is None,
            },
    {
        match parse_url(input) {
            Ok(serialization) => Ok(RedirectUri { serialization }),
            Err(_) => Err(InvalidUrl),
        }
    }

    /// The serialization of this url.
    pub fn as_str(&self) -> (r: &str)
        ensures
            r@ == self@,
    {
        self.serialization.as_str()
    }

    /// Exact comparison of two urls by their serializations.
    pub fn matches(&self, other: &RedirectUri) -> (r: bool)
        ensures
            r == (self@ == other@),
    {
        self.serialization == other.serialization
    }
}

impl Clone for RedirectUri {
    fn clone(&self) -> (r: RedirectUri)
        ensures
            r@ == self@,
    {
        RedirectUri { serialization: self.serialization.clone() }
    }
}

} // verus!
