//! Where the library leaves its own code: the calls into `scraper`, `url`
//! and the parts of the standard library that come without a specification.
//!
//! What is said of each call here is taken on trust. A result that could
//! only be stated by writing the other crate's algorithm down again gets a
//! name instead, and the contract says that the call returns what the name
//! stands for.

use crate::html::MAX_DOCUMENT_LENGTH;
use crate::state::AppSettings;
use crate::text::white_space;
use scraper::Html;
use scraper::Selector;
use std::sync::Arc;
use url::Url;
use vstd::prelude::*;

verus! {

/// The lower-case form of `s` under Unicode's case mapping.
pub uninterp spec fn lowercase(s: Seq<char>) -> Seq<char>;

/// The serialization of the absolute URL that `text` denotes; `None` where
/// `text` denotes none.
pub uninterp spec fn url_serialization(text: Seq<char>) -> Option<Seq<char>>;

/// What `scraper` selects from a document: for each element of the parsed
/// `document` that the CSS selector `selector` matches, as `Html::select`
/// yields them, the text nodes below it, as `ElementRef::text` yields them.
/// Where `selector` is no CSS selector, the message of the selector's error.
pub uninterp spec fn selected_text(document: Seq<char>, selector: Seq<char>) -> Result<
    Seq<Seq<Seq<char>>>,
    Seq<char>,
>;

/// `char::is_whitespace`: true exactly for the characters with the Unicode
/// `White_Space` property, which `white_space` lists.
#[verifier::external_body]
pub(crate) fn is_white_space(c: char) -> (r: bool)
    ensures
        r == white_space(c),
{
    c.is_whitespace()
}

/// `str::to_lowercase`: the lower-case form of the whole string.
#[verifier::external_body]
pub(crate) fn to_lowercase(s: &str) -> (r: String)
    ensures
        r@ == lowercase(s@),
{
    s.to_lowercase()
}

/// `Arc::clone`: a second handle on the same settings.
#[verifier::external_body]
pub(crate) fn share(settings: &Arc<AppSettings>) -> (shared: Arc<AppSettings>)
    ensures
        shared == *settings,
{
    Arc::clone(settings)
}

/// `url::Url::parse` on `text`, and the parsed URL turned into its
/// serialization by `String::from`. Nothing is claimed of the outcome but
/// that it depends on `text` alone.
#[verifier::external_body]
pub(crate) fn serialize_url(text: &str) -> (r: Option<String>)
    ensures
        match r {
            Some(address) => url_serialization(text@) == Some(address@),
            None => url_serialization(text@) is None,
        },
{
    match Url::parse(text) {
        Ok(url) => Some(String::from(url)),
        Err(_) => None,
    }
}

/// `scraper::Html::parse_document` on `document`, `scraper::Selector::parse`
/// on `selector`, then `Html::select`, and `ElementRef::text` on each
/// element that it yields. Nothing is claimed of the outcome but that it
/// depends on the two strings alone.
///
/// The parser keeps the document and every text node in buffers whose
/// length is a `u32`, and panics where one would grow past that. A
/// character takes at most four bytes, in the document and in the text
/// made from it, so within `MAX_DOCUMENT_LENGTH` characters no buffer
/// passes 2^29 bytes. The one selector that the library uses is admitted.
#[verifier::external_body]
pub(crate) fn select_text(document: &str, selector: &str) -> (r: Result<Vec<Vec<String>>, String>)
    requires
        document@.len() <= MAX_DOCUMENT_LENGTH,
        selector@ == "body"@,
    ensures
        match r {
            Ok(groups) => selected_text(document@, selector@) == Ok::<_, Seq<char>>(
                groups.deep_view(),
            ),
            Err(message) => selected_text(document@, selector@) == Err::<Seq<Seq<Seq<char>>>, _>(
                message@,
            ),
        },
{
    let selector = Selector::parse(selector).map_err(|e| e.to_string())?;
    let html = Html::parse_document(document);
    Ok(html.select(&selector).map(|element| element.text().map(String::from).collect()).collect())
}

} // verus!
