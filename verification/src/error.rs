//! The error taxonomy of the library: a missing search location, a malformed
//! annotation page (carrying the offending document for diagnostics), and a
//! transport failure reported by the HTTP layer.

use vstd::prelude::*;

use crate::page::json_debug;
use crate::page::spec_json_debug;

verus! {

/// Everything that can go wrong in a call against the annotation repository.
#[derive(Debug)]
pub enum Error {
    /// The search-creation response carried no usable `Location` header.
    UrlNotFound,
    /// A fetched page's body holds no `items` array; the offending document
    /// rides along for diagnostics.
    MalformedAnnotationPage(serde_json::Value),
    /// A network, HTTP-status or body-decoding failure, rendered as text by
    /// the transport that encountered it.
    ReqError(String),
}

impl Error {
    /// A human-readable description of the error. A malformed-page report
    /// is a fixed prefix followed by the offending document's rendering.
    pub fn message(&self) -> (r: String)
        ensures
            *self is UrlNotFound ==> r@ == "URL not found"@,
            self matches Error::ReqError(m) ==> r@ == m@,
            self matches Error::MalformedAnnotationPage(json) ==> r@
                == "Malformed annotation page: "@ + spec_json_debug(*json),
    {
        match self {
            Error::UrlNotFound => String::from_str("URL not found"),
            Error::MalformedAnnotationPage(json) => {
                let rendered = json_debug(json);
                String::from_str("Malformed annotation page: ").concat(rendered.as_str())
            },
            Error::ReqError(m) => m.clone(),
        }
    }
}

} // verus!
