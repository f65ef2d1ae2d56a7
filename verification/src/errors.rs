//! The error taxonomy of the pipeline, and its fixed mapping to HTTP
//! responses: failures of the multipart body, the image bytes and the store
//! answer 400 with the failure's text, while byte-stream buffering and
//! transport-level failures answer 500.

use vstd::prelude::*;
use vstd::string::StringExecFns;
use crate::response::{HttpBody, HttpResponse};

verus! {

/// Every failure a request can end in. Each variant that carries a `String`
/// carries the display text of the underlying failure; `EmptyBodyError` has a
/// fixed text of its own.
#[derive(Debug, PartialEq, Eq)]
pub enum ApiError {
    /// The store failed to serve a read, the key being absent included.
    StorageReadError(String),
    /// The store failed to accept a write.
    StorageWriteError(String),
    /// The store failed to carry out a delete.
    StorageDeleteError(String),
    /// The uploaded bytes were not a valid image in any supported encoding.
    DecodeError(String),
    /// Re-encoding the decoded image as JPEG failed.
    EncodeError(String),
    /// The multipart body could not be read.
    MultipartError(String),
    /// The multipart body held no bytes.
    EmptyBodyError,
    /// A fetched object's byte stream could not be buffered.
    ByteConversionError(String),
    /// The HTTP response itself could not be constructed.
    TransportError(String),
}

/// The status code each failure answers with: 400 for everything the client
/// or the store caused, 500 for failures of the byte-stream buffering and of
/// the transport itself.
pub open spec fn error_status(e: ApiError) -> u16 {
    match e {
        ApiError::StorageReadError(_) => 400,
        ApiError::StorageWriteError(_) => 400,
        ApiError::StorageDeleteError(_) => 400,
        ApiError::DecodeError(_) => 400,
        ApiError::EncodeError(_) => 400,
        ApiError::MultipartError(_) => 400,
        ApiError::EmptyBodyError => 400,
        ApiError::ByteConversionError(_) => 500,
        ApiError::TransportError(_) => 500,
    }
}

/// The text each failure answers with: a fixed prefix naming the stage,
/// followed by the failure's own text.
pub open spec fn error_body(e: ApiError) -> Seq<char> {
    match e {
        ApiError::StorageReadError(m) => "Error while getting image: "@ + m@,
        ApiError::StorageWriteError(m) => "Error while inserting image: "@ + m@,
        ApiError::StorageDeleteError(m) => "Error while deleting object: "@ + m@,
        ApiError::DecodeError(m) => "Error while manipulating image bytes: "@ + m@,
        ApiError::EncodeError(m) => "Error while manipulating image bytes: "@ + m@,
        ApiError::MultipartError(m) => "Error while getting data from multipart: "@ + m@,
        ApiError::EmptyBodyError => "Body is empty"@,
        ApiError::ByteConversionError(m) => "Error while converting byte stream: "@ + m@,
        ApiError::TransportError(m) => "HTTP error: "@ + m@,
    }
}

impl ApiError {
    /// The response a failed request is answered with: the status from
    /// `error_status`, no headers, and the text from `error_body`.
    pub fn into_response(self) -> (r: HttpResponse)
        ensures
            r.status == error_status(self),
            r.headers@.len() == 0,
            r.body matches HttpBody::Text(t) && t@ == error_body(self),
    {
        let (status, text): (u16, String) = match self {
            ApiError::StorageReadError(m) => (
                400,
                String::from_str("Error while getting image: ").concat(m.as_str()),
            ),
            ApiError::StorageWriteError(m) => (
                400,
                String::from_str("Error while inserting image: ").concat(m.as_str()),
            ),
            ApiError::StorageDeleteError(m) => (
                400,
                String::from_str("Error while deleting object: ").concat(m.as_str()),
            ),
            ApiError::DecodeError(m) => (
                400,
                String::from_str("Error while manipulating image bytes: ").concat(m.as_str()),
            ),
            ApiError::EncodeError(m) => (
                400,
                String::from_str("Error while manipulating image bytes: ").concat(m.as_str()),
            ),
            ApiError::MultipartError(m) => (
                400,
                String::from_str("Error while getting data from multipart: ").concat(m.as_str()),
            ),
            ApiError::EmptyBodyError => (400, String::from_str("Body is empty")),
            ApiError::ByteConversionError(m) => (
                500,
                String::from_str("Error while converting byte stream: ").concat(m.as_str()),
            ),
            ApiError::TransportError(m) => (
                500,
                String::from_str("HTTP error: ").concat(m.as_str()),
            ),
        };
        HttpResponse { status, headers: Vec::new(), body: HttpBody::Text(text) }
    }
}

} // verus!
