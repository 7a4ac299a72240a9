//! The records that the mangadex API answers with, and the URLs of the
//! requests that ask for them.

use std::collections::HashMap;
use vstd::prelude::*;
use crate::web_url::{WebUrl, url_parse_text, url_join_text, option_url_text};

verus! {

/// A manga, as the manga endpoint describes it.
#[derive(Debug)]
pub struct Manga {
    pub title: String,
}

/// One chapter of a manga, as the manga endpoint lists it.
#[derive(Debug)]
pub struct Chapter {
    pub volume: String,
    pub chapter: String,
    pub lang_code: String,
    pub group_name: String,
}

/// The answer of the manga endpoint: the manga and its chapters, keyed by
/// chapter id.
#[derive(Debug)]
pub struct MangaData {
    pub manga: Manga,
    pub chapter: HashMap<String, Chapter>,
}

/// The answer of the chapter endpoint: where the chapter's pages are served.
#[derive(Debug)]
pub struct ChapterData {
    pub id: u32,
    pub hash: String,
    pub manga_id: u32,
    pub server: String,
    pub page_array: Vec<String>,
}

/// The URL that manga ids are resolved against.
pub const MANGA_API_BASE: &'static str = "https://mangadex.org/api/manga/";

/// The URL that chapter ids are resolved against.
pub const CHAPTER_API_BASE: &'static str = "https://mangadex.org/api/chapter/";

/// Why no request URL could be made.
#[derive(Debug, Clone, Copy, PartialEq, Eq, Structural)]
pub enum ApiUrlError {
    /// The base URL does not parse as an absolute URL.
    InvalidBase,
    /// The id does not resolve to a URL against the base.
    InvalidId,
}

/// A URL result taken by the URL's text.
pub open spec fn result_text(r: Result<String, ApiUrlError>) -> Result<Seq<char>, ApiUrlError> {
    match r {
        Ok(s) => Ok(s@),
        Err(e) => Err(e),
    }
}

/// The outcome of parsing the base URL and then resolving the id against
/// it, given what each step gave (`None` for a refusal).
pub open spec fn spec_url_outcome(
    parsed_base: Option<Seq<char>>,
    joined: Option<Seq<char>>,
) -> Result<Seq<char>, ApiUrlError> {
    match parsed_base {
        None => Err(ApiUrlError::InvalidBase),
        Some(_) => match joined {
            None => Err(ApiUrlError::InvalidId),
            Some(url) => Ok(url),
        },
    }
}

/// The request URL for `id` at the endpoint whose base URL is `base`: `id`
/// resolved against the parsed `base`.
pub open spec fn spec_api_url(base: Seq<char>, id: Seq<char>) -> Result<Seq<char>, ApiUrlError> {
    match url_parse_text(base) {
        None => Err(ApiUrlError::InvalidBase),
        Some(b) => spec_url_outcome(Some(b), url_join_text(b, id)),
    }
}

/// The text of an optional string.
pub open spec fn option_text(s: Option<String>) -> Option<Seq<char>> {
    match s {
        Some(s) => Some(s@),
        None => None,
    }
}

/// Decides the request URL from what parsing the base (`parsed_base`) and
/// resolving the id against it (`joined`) gave: an error for the first step
/// that refused, the resolved URL otherwise.
pub fn url_outcome(parsed_base: Option<String>, joined: Option<String>) -> (r: Result<
    String,
    ApiUrlError,
>)
    ensures
        result_text(r) == spec_url_outcome(option_text(parsed_base), option_text(joined)),
        parsed_base is None ==> r == Err::<String, ApiUrlError>(ApiUrlError::InvalidBase),
        parsed_base is Some && joined is None ==> r == Err::<String, ApiUrlError>(
            ApiUrlError::InvalidId,
        ),
        parsed_base is Some && joined is Some ==> (r matches Ok(url) && url@ == joined->0@),
{
    match parsed_base {
        None => Err(ApiUrlError::InvalidBase),
        Some(_) => match joined {
            None => Err(ApiUrlError::InvalidId),
            Some(url) => Ok(url),
        },
    }
}

/// The request URL for `id` at the endpoint whose base URL is `base`.
pub fn api_url(base: &str, id: &str) -> (r: Result<String, ApiUrlError>)
    ensures
        result_text(r) == spec_api_url(base@, id@),
        url_parse_text(base@) is None ==> r == Err::<String, ApiUrlError>(
            ApiUrlError::InvalidBase,
        ),
        forall|b: Seq<char>|
            url_parse_text(base@) == Some(b) && url_join_text(b, id@) is None ==> r == Err::<
                String,
                ApiUrlError,
            >(ApiUrlError::InvalidId),
        forall|b: Seq<char>, u: Seq<char>|
            url_parse_text(base@) == Some(b) && url_join_text(b, id@) == Some(u) ==> (r matches Ok(
                url,
            ) && url@ == u),
{
    match WebUrl::parse(base) {
        None => url_outcome(None, None),
        Some(base_url) => {
            let joined = match base_url.join(id) {
                Some(url) => Some(url.to_text()),
                None => None,
            };
            url_outcome(Some(base_url.to_text()), joined)
        },
    }
}

/// The URL that asks the API for the manga with id `manga`.
pub fn manga_data_url(manga: &str) -> (r: Result<String, ApiUrlError>)
    ensures
        result_text(r) == spec_api_url(MANGA_API_BASE@, manga@),
        url_parse_text(MANGA_API_BASE@) is None ==> r == Err::<String, ApiUrlError>(
            ApiUrlError::InvalidBase,
        ),
        forall|b: Seq<char>|
            url_parse_text(MANGA_API_BASE@) == Some(b) && url_join_text(b, manga@) is None ==> r == Err::<
                String,
                ApiUrlError,
            >(ApiUrlError::InvalidId),
        forall|b: Seq<char>, u: Seq<char>|
            url_parse_text(MANGA_API_BASE@) == Some(b) && url_join_text(b, manga@) == Some(u) ==> (r matches Ok(
                url,
            ) && url@ == u),
{
    api_url(MANGA_API_BASE, manga)
}

/// The URL that asks the API for the chapter with id `chapter`.
pub fn chapter_data_url(chapter: &str) -> (r: Result<String, ApiUrlError>)
    ensures
        result_text(r) == spec_api_url(CHAPTER_API_BASE@, chapter@),
        url_parse_text(CHAPTER_API_BASE@) is None ==> r == Err::<String, ApiUrlError>(
            ApiUrlError::InvalidBase,
        ),
        forall|b: Seq<char>|
            url_parse_text(CHAPTER_API_BASE@) == Some(b) && url_join_text(b, chapter@) is None ==> r == Err::<
                String,
                ApiUrlError,
            >(ApiUrlError::InvalidId),
        forall|b: Seq<char>, u: Seq<char>|
            url_parse_text(CHAPTER_API_BASE@) == Some(b) && url_join_text(b, chapter@) == Some(u) ==> (r matches Ok(
                url,
            ) && url@ == u),
{
    api_url(CHAPTER_API_BASE, chapter)
}

/// Deciding the outcome keeps the resolved URL unchanged: when both steps
/// succeed the outcome is that URL, and otherwise it is the error of the
/// first step that refused.
pub proof fn lemma_url_outcome_keeps_the_resolved_url(
    parsed_base: Option<Seq<char>>,
    joined: Option<Seq<char>>,
)
    ensures
        parsed_base is None ==> spec_url_outcome(parsed_base, joined) == Err::<
            Seq<char>,
            ApiUrlError,
        >(ApiUrlError::InvalidBase),
        parsed_base is Some && joined is None ==> spec_url_outcome(parsed_base, joined) == Err::<
            Seq<char>,
            ApiUrlError,
        >(ApiUrlError::InvalidId),
        forall|b: Seq<char>, u: Seq<char>|
            parsed_base == Some(b) && joined == Some(u) ==> spec_url_outcome(parsed_base, joined)
                == Ok::<Seq<char>, ApiUrlError>(u),
{
}

/// A request URL is exactly the id resolved against the parsed base: the
/// URL that the join gives, unchanged, when both steps succeed; an error
/// naming the step that refused otherwise.
pub proof fn lemma_api_url_is_the_resolved_id(base: Seq<char>, id: Seq<char>)
    ensures
        url_parse_text(base) is None ==> spec_api_url(base, id) == Err::<Seq<char>, ApiUrlError>(
            ApiUrlError::InvalidBase,
        ),
        forall|b: Seq<char>|
            url_parse_text(base) == Some(b) && url_join_text(b, id) is None ==> spec_api_url(
                base,
                id,
            ) == Err::<Seq<char>, ApiUrlError>(ApiUrlError::InvalidId),
        forall|b: Seq<char>, u: Seq<char>|
            url_parse_text(base) == Some(b) && url_join_text(b, id) == Some(u) ==> spec_api_url(
                base,
                id,
            ) == Ok::<Seq<char>, ApiUrlError>(u),
{
}

} // verus!
