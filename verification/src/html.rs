//! Reduces an HTML document to the visible text of its body.

use crate::outside::select_text;
use crate::outside::selected_text;
use vstd::prelude::*;

verus! {

/// `parts` written one after the other with `separator` between neighbours.
pub open spec fn joined(parts: Seq<Seq<char>>, separator: Seq<char>) -> Seq<char>
    decreases parts.len(),
{
    if parts.len() == 0 {
        Seq::empty()
    } else if parts.len() == 1 {
        parts[0]
    } else {
        joined(parts.drop_last(), separator) + separator + parts.last()
    }
}

/// The longest document, in characters, that is parsed: 2^27. A longer
/// one is refused, for the parser cannot hold it.
pub const MAX_DOCUMENT_LENGTH: usize = 134_217_728;

/// Why a document beyond `MAX_DOCUMENT_LENGTH` yields no text.
pub open spec fn too_long() -> Seq<char> {
    "document too long"@
}

/// The text of the body of `html`: the text nodes below its `body`
/// elements, one element after the other, joined by single spaces. A
/// document beyond `MAX_DOCUMENT_LENGTH` has none.
pub open spec fn extracted_text(html: Seq<char>) -> Result<Seq<char>, Seq<char>> {
    if html.len() > MAX_DOCUMENT_LENGTH {
        Err(too_long())
    } else {
        match selected_text(html, "body"@) {
            Ok(groups) => Ok(joined(groups.flatten(), " "@)),
            Err(message) => Err(message),
        }
    }
}

/// Why a document yielded no text.
#[derive(Debug)]
pub struct ParseError {
    pub message: String,
}

/// The strings of all `groups`, one group after the other.
pub fn flatten_text(groups: Vec<Vec<String>>) -> (parts: Vec<String>)
    ensures
        parts.deep_view() == groups.deep_view().flatten(),
{
    let ghost all = groups.deep_view();
    let mut groups = groups;
    let mut parts: Vec<String> = Vec::new();
    let mut i: usize = 0;
    assert(parts.deep_view() =~= all.take(0).flatten());
    while i < groups.len()
        invariant
            i <= groups.len(),
            groups.len() == all.len(),
            parts.deep_view() == all.take(i as int).flatten(),
            forall|j: int| i <= j < groups.len() ==> (#[trigger] groups@[j]).deep_view() == all[j],
        decreases groups.len() - i,
    {
        let ghost before = parts.deep_view();
        parts.append(&mut groups[i]);
        proof {
            assert(parts.deep_view() =~= before + all[i as int]);
            assert(all.take(i + 1) =~= all.take(i as int).push(all[i as int]));
            all.take(i as int).lemma_flatten_push(all[i as int]);
        }
        i = i + 1;
    }
    assert(all.take(i as int) =~= all);
    parts
}

/// Joins `parts` with `separator` between neighbours.
pub fn join_text(parts: &Vec<String>, separator: &str) -> (text: String)
    ensures
        text@ == joined(parts.deep_view(), separator@),
{
    let ghost views = parts.deep_view();
    let mut text = String::new();
    let mut i: usize = 0;
    while i < parts.len()
        invariant
            i <= parts.len(),
            views == parts.deep_view(),
            text@ == joined(views.take(i as int), separator@),
        decreases parts.len() - i,
    {
        let ghost before = views.take(i as int);
        let ghost after = views.take(i + 1);
        assert(after.drop_last() == before);
        assert(after.last() == parts@[i as int]@);
        if i > 0 {
            text.append(separator);
        }
        text.append(parts[i].as_str());
        i = i + 1;
    }
    assert(views.take(i as int) == views);
    text
}

/// Extracts the visible text of the body of `html`. A document of more
/// than `MAX_DOCUMENT_LENGTH` characters is refused without being parsed.
pub fn parse_html(html: &str) -> (r: Result<String, ParseError>)
    ensures
        match r {
            Ok(text) => extracted_text(html@) == Ok::<_, Seq<char>>(text@),
            Err(e) => extracted_text(html@) == Err::<Seq<char>, _>(e.message@),
        },
        html@.len() > MAX_DOCUMENT_LENGTH ==> r is Err,
{
    if html.unicode_len() > MAX_DOCUMENT_LENGTH {
        return Err(ParseError { message: String::from_str("document too long") });
    }
    match select_text(html, "body") {
        Ok(groups) => Ok(join_text(&flatten_text(groups), " ")),
        Err(message) => Err(ParseError { message }),
    }
}

} // verus!
