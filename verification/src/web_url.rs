//! URLs as the mangadex API requests use them, parsed and resolved by
//! `reqwest::Url` (the `url` crate's type, which reqwest re-exports).
//!
//! What the logic reads of a URL is its serialization, so a `WebUrl` holds
//! the parsed value together with that text. Two `reqwest::Url` values with
//! the same serialization are equal (its `PartialEq` compares the
//! serialization alone), so what is computed from one depends on that text
//! alone.

use vstd::prelude::*;

verus! {

#[verifier::external_type_specification]
#[verifier::external_body]
pub struct ExUrl(reqwest::Url);

/// The serialization of the URL that `reqwest::Url::parse` makes of `input`,
/// or `None` where it refuses `input`.
pub uninterp spec fn url_parse_text(input: Seq<char>) -> Option<Seq<char>>;

/// The serialization of the URL that `reqwest::Url::join` makes of `input`
/// resolved against the URL whose serialization is `base`, or `None` where
/// it refuses `input`.
pub uninterp spec fn url_join_text(base: Seq<char>, input: Seq<char>) -> Option<Seq<char>>;

/// A parsed URL and its serialization.
pub struct WebUrl {
    url: reqwest::Url,
    text: String,
}

impl View for WebUrl {
    type V = Seq<char>;

    closed spec fn view(&self) -> Seq<char> {
        self.text@
    }
}

/// The serialization of a URL that may be absent.
pub open spec fn option_url_text(u: Option<WebUrl>) -> Option<Seq<char>> {
    match u {
        Some(u) => Some(u@),
        None => None,
    }
}

impl WebUrl {
    /// Calls `reqwest::Url::parse` on `input`. Trusted: the result, taken by
    /// its serialization (`Url::as_str`), is `url_parse_text(input)`, and it
    /// is `None` exactly where the parse returns an error.
    #[verifier::external_body]
    pub(crate) fn parse(input: &str) -> (parsed: Option<WebUrl>)
        ensures
            option_url_text(parsed) == url_parse_text(input@),
    {
        match reqwest::Url::parse(input) {
            Ok(url) => Some(WebUrl { text: url.as_str().to_string(), url }),
            Err(_) => None,
        }
    }

    /// Calls `reqwest::Url::join` on this URL and `input`. Trusted: the
    /// result, taken by its serialization, is `url_join_text` of this URL's
    /// serialization and `input`, and it is `None` exactly where the join
    /// returns an error.
    #[verifier::external_body]
    pub(crate) fn join(&self, input: &str) -> (joined: Option<WebUrl>)
        ensures
            option_url_text(joined) == url_join_text(self@, input@),
    {
        match self.url.join(input) {
            Ok(url) => Some(WebUrl { text: url.as_str().to_string(), url }),
            Err(_) => None,
        }
    }

    /// The serialization of this URL.
    pub fn to_text(&self) -> (text: String)
        ensures
            text@ == self@,
    {
        self.text.clone()
    }
}

} // verus!
