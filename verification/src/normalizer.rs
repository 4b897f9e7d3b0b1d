//! From the status and body of an answer to the translated text.

use vstd::prelude::*;
use crate::classic::{
    classic_returns_second_segment, classic_text, extract_classic, joined, quote_segments,
};
use crate::compact::{compact_text, extract_compact, first_element, first_element_text, without_quotes};
use crate::errors::{outcome, Failure, TranslatorErrors};
use crate::json::{json_document, json_element};
use crate::text::{blank, is_blank, is_blank_char, is_quote_free};
use crate::variant::Variant;

verus! {

/// The statuses that count as success.
pub open spec fn is_success(status: int) -> bool {
    200 <= status <= 299
}

/// What an answer comes to. The status is looked at first, and on failure
/// the body is not looked at. A blank body holds no translation in either
/// grammar. Otherwise the variant's grammar reads the body.
pub open spec fn normalized(variant: Variant, status: int, body: Seq<char>) -> Result<
    Seq<char>,
    Failure,
> {
    if !is_success(status) {
        Err(Failure::InvalidResponse)
    } else if is_blank(body) {
        Err(Failure::FailedParsing)
    } else {
        match variant {
            Variant::Classic => classic_text(body),
            Variant::Compact => compact_text(first_element_text(body)),
        }
    }
}

/// Tells whether a status lies in 200..=299.
pub fn status_is_success(status: u16) -> (r: bool)
    ensures
        r == is_success(status as int),
{
    200 <= status && status <= 299
}

/// Turns the status and body of an answer into the translated text, or into
/// the failure that says why there is none.
pub fn normalize(variant: Variant, status: u16, body: &str) -> (r: Result<String, TranslatorErrors>)
    ensures
        outcome(r) == normalized(variant, status as int, body@),
        !is_success(status as int) ==> outcome(r) == Err::<Seq<char>, Failure>(
            Failure::InvalidResponse,
        ),
        r is Ok ==> r.unwrap()@.len() > 0,
{
    if !status_is_success(status) {
        return Err(TranslatorErrors::InvalidResponse);
    }
    if blank(body) {
        return Err(TranslatorErrors::FailedParsing);
    }
    match variant {
        Variant::Classic => extract_classic(body),
        Variant::Compact => extract_compact(first_element(body)),
    }
}

/// The status decides before the body is read: outside 200..=299 the answer
/// is an invalid response, whatever the variant and the body.
pub proof fn status_gate(variant: Variant, status: int, body: Seq<char>)
    requires
        !is_success(status),
    ensures
        normalized(variant, status, body) == Err::<Seq<char>, Failure>(Failure::InvalidResponse),
{
}

/// A body that is empty or blank does not parse, in either grammar.
pub proof fn blank_body_fails(variant: Variant, status: int, body: Seq<char>)
    requires
        is_success(status),
        is_blank(body),
    ensures
        normalized(variant, status, body) == Err::<Seq<char>, Failure>(Failure::FailedParsing),
{
}

/// No answer comes to an empty translation.
pub proof fn translation_is_never_empty(variant: Variant, status: int, body: Seq<char>)
    ensures
        normalized(variant, status, body) is Ok ==> normalized(variant, status, body)->Ok_0.len()
            > 0,
{
}

/// A successful classic answer whose body is two or more pieces without a
/// quote, joined by quotes, comes to its second piece, provided that piece
/// is not empty.
pub proof fn classic_gives_second_segment(status: int, segments: Seq<Seq<char>>)
    requires
        is_success(status),
        segments.len() >= 2,
        forall|i: int| 0 <= i < segments.len() ==> is_quote_free(#[trigger] segments[i]),
        segments[1].len() > 0,
    ensures
        normalized(Variant::Classic, status, joined(segments)) == Ok::<Seq<char>, Failure>(
            segments[1],
        ),
{
    let body = joined(segments);
    classic_returns_second_segment(segments);
    let k = segments[0].len() as int;
    assert(body[k] == '"');
    assert(!is_blank_char(body[k]));
}

/// A successful classic answer whose body has fewer than two pieces does
/// not parse.
pub proof fn classic_without_second_segment_fails(status: int, body: Seq<char>)
    requires
        is_success(status),
        quote_segments(body).len() < 2,
    ensures
        normalized(Variant::Classic, status, body) == Err::<Seq<char>, Failure>(
            Failure::FailedParsing,
        ),
{
}

/// A successful compact answer whose body is a JSON array comes to the text
/// of the array's first element with every quote taken out, provided
/// something is left of it.
pub proof fn compact_gives_first_element(status: int, body: Seq<char>, element: Seq<char>)
    requires
        is_success(status),
        !is_blank(body),
        first_element_text(body) == Some(element),
        without_quotes(element).len() > 0,
    ensures
        normalized(Variant::Compact, status, body) == Ok::<Seq<char>, Failure>(
            without_quotes(element),
        ),
{
}

/// A successful compact answer whose body is no JSON, or whose JSON has no
/// first element, does not parse.
pub proof fn compact_without_first_element_fails(status: int, body: Seq<char>)
    requires
        is_success(status),
        json_document(body) is None || json_element(json_document(body)->Some_0, 0) is None,
    ensures
        normalized(Variant::Compact, status, body) == Err::<Seq<char>, Failure>(
            Failure::FailedParsing,
        ),
{
}

} // verus!
