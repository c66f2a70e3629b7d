//! JSON text for lists of strings and lists of records. String literals are
//! written by `serde_json`; the brackets and commas around them are written
//! here.

use vstd::prelude::*;
use crate::text::{join, join_with, texts};

verus! {

/// The JSON string literal that `serde_json::to_string` writes for the text
/// `s`: quotes around it, and escapes inside it where JSON requires them.
pub uninterp spec fn json_text(s: Seq<char>) -> Seq<char>;

/// Writes `s` as a JSON string literal with `serde_json::to_string`. The
/// contract names its output. Serializing a string into memory cannot fail:
/// the serializer's only errors for a string are those of the sink.
#[verifier::external_body]
pub(crate) fn json_string(s: &str) -> (json: String)
    ensures
        json@ == json_text(s@),
{
    serde_json::to_string(s).unwrap_or_default()
}

/// A JSON array whose elements are the given JSON texts.
pub open spec fn json_array(elements: Seq<Seq<char>>) -> Seq<char> {
    seq!['['] + join_with(elements, ',') + seq![']']
}

/// The JSON string literals of `items`.
pub open spec fn json_texts(items: Seq<Seq<char>>) -> Seq<Seq<char>> {
    Seq::new(items.len(), |i: int| json_text(items[i]))
}

/// A JSON array of string literals.
pub open spec fn json_strings(items: Seq<Seq<char>>) -> Seq<char> {
    json_array(json_texts(items))
}

/// Writes a JSON array around elements that are JSON texts already.
pub fn array_text(elements: &Vec<String>) -> (json: String)
    ensures
        json@ == json_array(texts(elements@)),
{
    let mut json = String::new();
    json.push('[');
    let inner = join(elements, ',');
    json.push_str(inner.as_str());
    json.push(']');
    json
}

/// Writes a list of strings as a JSON array of string literals.
pub fn strings_text(items: &Vec<String>) -> (json: String)
    ensures
        json@ == json_strings(texts(items@)),
{
    let mut elements: Vec<String> = Vec::new();
    let mut i: usize = 0;
    while i < items.len()
        invariant
            i <= items.len(),
            elements.len() == i,
            forall|k: int| 0 <= k < i ==> (#[trigger] elements[k])@ == json_text(items[k]@),
        decreases items.len() - i,
    {
        elements.push(json_string(items[i].as_str()));
        i += 1;
    }
    assert(texts(elements@) =~= json_texts(texts(items@)));
    array_text(&elements)
}

} // verus!
