//! The compact grammar: the body is a JSON array whose first element, written
//! out and freed of quotes, is the translated text.

use vstd::prelude::*;
use vstd::std_specs::iter::IteratorSpec;
use crate::errors::{outcome, Failure, TranslatorErrors};
use crate::json::{element_at, json_document, json_element, json_text, parse_document, render};
use crate::text::{is_quote, is_quote_free};

verus! {

/// A text with every quote taken out and all else left in place.
pub open spec fn without_quotes(s: Seq<char>) -> Seq<char> {
    s.filter(|c: char| !is_quote(c))
}

/// The first element of the array that a body holds, as JSON text; `None`
/// where the body is no JSON or holds no such element.
pub open spec fn first_element_text(body: Seq<char>) -> Option<Seq<char>> {
    match json_document(body) {
        None => None,
        Some(doc) => match json_element(doc, 0) {
            None => None,
            Some(element) => Some(json_text(element)),
        },
    }
}

/// What the compact grammar makes of the first element: its text without
/// quotes, unless there is no element or nothing is left of it.
pub open spec fn compact_text(element: Option<Seq<char>>) -> Result<Seq<char>, Failure> {
    match element {
        None => Err(Failure::FailedParsing),
        Some(text) => if without_quotes(text).len() == 0 {
            Err(Failure::FailedParsing)
        } else {
            Ok(without_quotes(text))
        },
    }
}

/// Taking the quotes out goes character by character.
pub proof fn lemma_without_quotes_push(s: Seq<char>, c: char)
    ensures
        without_quotes(s.push(c)) == if is_quote(c) {
            without_quotes(s)
        } else {
            without_quotes(s).push(c)
        },
{
    reveal(Seq::filter);
    assert(s.push(c).drop_last() =~= s);
}

/// Nothing that is left is a quote.
pub proof fn lemma_without_quotes_is_quote_free(s: Seq<char>)
    ensures
        is_quote_free(without_quotes(s)),
    decreases s.len(),
{
    reveal(Seq::filter);
    if s.len() > 0 {
        lemma_without_quotes_is_quote_free(s.drop_last());
    }
}

/// Copies a text, leaving out each quote.
pub fn strip_quotes(s: &str) -> (r: String)
    ensures
        r@ == without_quotes(s@),
        is_quote_free(r@),
{
    broadcast use vstd::string::group_string_axioms;

    let mut it = s.chars();
    let mut kept = String::new();
    let ghost mut seen: int = 0;
    proof {
        reveal(Seq::filter);
        assert(without_quotes(s@.take(0)) =~= Seq::<char>::empty());
    }
    loop
        invariant_except_break
            0 <= seen <= s@.len(),
            it.remaining() == s@.skip(seen),
            kept@ == without_quotes(s@.take(seen)),
        ensures
            kept@ == without_quotes(s@),
        decreases s@.len() - seen,
    {
        match it.next() {
            None => {
                assert(s@.take(seen) =~= s@);
                break ;
            },
            Some(c) => {
                proof {
                    assert(c == s@[seen]);
                    assert(s@.skip(seen).drop_first() =~= s@.skip(seen + 1));
                    assert(s@.take(seen + 1) =~= s@.take(seen).push(c));
                    lemma_without_quotes_push(s@.take(seen), c);
                }
                if c != '"' {
                    kept.push(c);
                }
                proof {
                    seen = seen + 1;
                }
            },
        }
    }
    proof {
        lemma_without_quotes_is_quote_free(s@);
    }
    kept
}

/// Finishes the compact grammar on the text of the first element, if the
/// body had one.
pub fn extract_compact(element: Option<String>) -> (r: Result<String, TranslatorErrors>)
    ensures
        outcome(r) == compact_text(
            match element {
                Some(text) => Some(text@),
                None => None,
            },
        ),
{
    match element {
        None => Err(TranslatorErrors::FailedParsing),
        Some(text) => {
            let bare = strip_quotes(text.as_str());
            if bare.as_str().is_empty() {
                Err(TranslatorErrors::FailedParsing)
            } else {
                Ok(bare)
            }
        },
    }
}

/// Reads a body as JSON and writes out the first element of its array.
/// A body that is no JSON has none, nor has one that is not an array or is
/// an empty one.
pub fn first_element(body: &str) -> (r: Option<String>)
    ensures
        match r {
            Some(text) => first_element_text(body@) == Some(text@),
            None => first_element_text(body@).is_none(),
        },
{
    match parse_document(body) {
        Err(_) => None,
        Ok(doc) => match element_at(&doc, 0) {
            None => None,
            Some(element) => Some(render(element)),
        },
    }
}

} // verus!
