//! The shape of an HTTP response as the pipeline produces it: a status code,
//! a list of headers, and a body that is either text or raw bytes. The
//! surrounding server turns a value of this type into its own response type
//! without looking inside the body.

use vstd::prelude::*;

verus! {

/// A response body: plain text for confirmations and error messages, raw
/// bytes for a retrieved image.
#[derive(Debug, PartialEq, Eq)]
pub enum HttpBody {
    Text(String),
    Bytes(Vec<u8>),
}

/// An HTTP response, ready to be written to the wire by the server.
#[derive(Debug, PartialEq, Eq)]
pub struct HttpResponse {
    pub status: u16,
    pub headers: Vec<(String, String)>,
    pub body: HttpBody,
}

} // verus!
