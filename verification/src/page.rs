//! Annotation pages: one server-paginated chunk of search results, a JSON
//! document whose `items` field must be an array of (otherwise opaque)
//! annotation records. This module extracts that array and reports a
//! malformed page, carrying the offending document, where it is absent.

use vstd::prelude::*;

use crate::error::Error;

verus! {

/// Relies on serde_json::Value as the representation of an annotation or of
/// a whole page: an opaque JSON document whose inner structure the library
/// never interprets beyond the wrappers below.
#[verifier::external_type_specification]
#[verifier::external_body]
pub struct ExValue(serde_json::Value);

/// What `serde_json::Value::get` returns for a document and a string key: a
/// function of the two alone (`Some` exactly for an object holding the key).
pub uninterp spec fn spec_json_get(v: serde_json::Value, key: Seq<char>) -> Option<
    serde_json::Value,
>;

/// What `serde_json::Value::as_array` returns: the element sequence, for an
/// array document and no other, as a function of the document alone.
pub uninterp spec fn spec_json_as_array(v: serde_json::Value) -> Option<Seq<serde_json::Value>>;

/// What the `Debug` rendering of a document looks like: a function of the
/// document alone.
pub uninterp spec fn spec_json_debug(v: serde_json::Value) -> Seq<char>;

/// The `items` array of a page document, if the document carries one: the
/// field looked up by key, read as an array.
pub open spec fn spec_page_items(page: serde_json::Value) -> Option<Seq<serde_json::Value>> {
    match spec_json_get(page, "items"@) {
        Some(field) => spec_json_as_array(field),
        None => None,
    }
}

/// Relies on serde_json::Value::get with a string key: `Some` exactly where
/// the value is a JSON object with that key, `None` otherwise; never panics.
#[verifier::external_body]
fn json_get<'a>(v: &'a serde_json::Value, key: &str) -> (r: Option<&'a serde_json::Value>)
    ensures
        match r {
            Some(field) => spec_json_get(*v, key@) == Some(*field),
            None => spec_json_get(*v, key@) is None,
        },
{
    v.get(key)
}

/// Relies on serde_json::Value::as_array: `Some` of the element vector
/// exactly where the value is a JSON array; never panics.
#[verifier::external_body]
fn json_as_array<'a>(v: &'a serde_json::Value) -> (r: Option<&'a Vec<serde_json::Value>>)
    ensures
        match r {
            Some(arr) => spec_json_as_array(*v) == Some(arr@),
            None => spec_json_as_array(*v) is None,
        },
{
    v.as_array()
}

/// Relies on the `Debug` rendering of serde_json::Value, for diagnostics: a
/// text that depends on the document alone.
#[verifier::external_body]
pub(crate) fn json_debug(v: &serde_json::Value) -> (r: String)
    ensures
        r@ == spec_json_debug(*v),
{
    format!("{:?}", v)
}

/// Relies on serde_json's `Clone` for Value: a structural copy, equal to the
/// original document.
#[verifier::external_body]
fn json_clone(v: &serde_json::Value) -> (r: serde_json::Value)
    ensures
        r == *v,
{
    v.clone()
}

/// Copies a borrowed vector of annotations element by element.
fn clone_items(items: &Vec<serde_json::Value>) -> (r: Vec<serde_json::Value>)
    ensures
        r@ == items@,
{
    let mut out: Vec<serde_json::Value> = Vec::new();
    let mut i: usize = 0;
    while i < items.len()
        invariant
            i <= items@.len(),
            out@ == items@.take(i as int),
        decreases items@.len() - i,
    {
        out.push(json_clone(&items[i]));
        i = i + 1;
        proof {
            assert(out@ =~= items@.take(i as int));
        }
    }
    proof {
        assert(out@ =~= items@);
    }
    out
}

/// Extracts the `items` array of an annotation page: exactly the sequence
/// `spec_page_items` names, in its order. A page whose body lacks an `items`
/// field, or whose `items` is not an array, is malformed — and only such a
/// page is: the error carries the page exactly as it was handed in.
pub fn page_items(page: serde_json::Value) -> (r: Result<Vec<serde_json::Value>, Error>)
    ensures
        r matches Ok(items) ==> spec_page_items(page) == Some(items@),
        r is Err <==> spec_page_items(page) is None,
        r is Err ==> r == Err::<Vec<serde_json::Value>, Error>(
            Error::MalformedAnnotationPage(page),
        ),
{
    let extracted: Option<Vec<serde_json::Value>> = match json_get(&page, "items") {
        Some(field) => match json_as_array(field) {
            Some(arr) => Some(clone_items(arr)),
            None => None,
        },
        None => None,
    };
    match extracted {
        Some(items) => Ok(items),
        None => Err(Error::MalformedAnnotationPage(page)),
    }
}

} // verus!
