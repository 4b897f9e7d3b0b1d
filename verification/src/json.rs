//! The JSON reader that the compact grammar relies on. Nothing in this file
//! is proved: each function states what `serde_json` is taken to do.

use vstd::prelude::*;

verus! {

/// A parsed JSON document. Its inside is not visible to proofs.
#[verifier::external_type_specification]
#[verifier::external_body]
pub struct ExValue(serde_json::Value);

/// The reason why a text is no JSON. Its inside is not visible to proofs.
#[verifier::external_type_specification]
#[verifier::external_body]
pub struct ExError(serde_json::Error);

/// The document that `serde_json::from_str` makes of a text; `None` where it
/// rejects the text.
pub uninterp spec fn json_document(text: Seq<char>) -> Option<serde_json::Value>;

/// What `serde_json::Value::get` finds at a position: the element there
/// where the document is an array that reaches so far, else `None`.
pub uninterp spec fn json_element(doc: serde_json::Value, index: int) -> Option<serde_json::Value>;

/// The compact JSON text that `to_string` writes a document out as.
pub uninterp spec fn json_text(doc: serde_json::Value) -> Seq<char>;

/// Calls `serde_json::from_str` for a `serde_json::Value`. Taken on trust:
/// the outcome depends on the text alone, so it is `Ok` exactly where the
/// text has a document, and then holds that document.
#[verifier::external_body]
pub(crate) fn parse_document(text: &str) -> (r: Result<serde_json::Value, serde_json::Error>)
    ensures
        r is Ok <==> json_document(text@) is Some,
        r is Ok ==> json_document(text@) == Some(r->Ok_0),
{
    serde_json::from_str::<serde_json::Value>(text)
}

/// Calls `serde_json::Value::get` with a position. Taken on trust: the
/// outcome depends on the document and the position alone.
#[verifier::external_body]
pub(crate) fn element_at<'a>(doc: &'a serde_json::Value, index: usize) -> (r: Option<
    &'a serde_json::Value,
>)
    ensures
        r is Some <==> json_element(*doc, index as int) is Some,
        r is Some ==> json_element(*doc, index as int) == Some(*r->Some_0),
{
    doc.get(index)
}

/// Calls `to_string` on a `serde_json::Value`, which writes the document as
/// compact JSON. Taken on trust: the text depends on the document alone.
#[verifier::external_body]
pub(crate) fn render(doc: &serde_json::Value) -> (r: String)
    ensures
        r@ == json_text(*doc),
{
    doc.to_string()
}

} // verus!
