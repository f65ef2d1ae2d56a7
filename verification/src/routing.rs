//! The three request handlers' decisions, and the mapping of a successful
//! result to its HTTP response. Each handler is a function from the request's
//! plain values — the multipart fields, the key, the store's answer — to the
//! typed result; the surrounding server performs the store calls and hands
//! their outcomes in.

use vstd::prelude::*;
use vstd::string::StringExecFns;
use crate::errors::{ApiError, error_status};
use crate::normalize::{normalize, normalized_jpeg, loaded, jpeg_encoded, guesses_jpeg};
use crate::response::{HttpBody, HttpResponse};

verus! {

/// A handler's successful result: a bare key as confirmation of an upload or
/// a delete, or a key together with the retrieved bytes.
#[derive(Debug, PartialEq, Eq)]
pub enum Image {
    Filename(String),
    File(String, Vec<u8>),
}

/// The outcome of asking the store for an object: the buffered bytes, a
/// failed read (the key being absent included), or a read whose byte stream
/// could not be buffered.
#[derive(Debug)]
pub enum GetResult {
    Got(Vec<u8>),
    GetFailed(String),
    BodyFailed(String),
}

/// The one key every upload is stored under.
pub open spec fn upload_key() -> Seq<char> {
    "my_file.jpeg"@
}

/// Whether some multipart field yielded any bytes.
pub open spec fn some_field_has_bytes(fields: Seq<Vec<u8>>) -> bool {
    exists|j: int| 0 <= j < fields.len() && #[trigger] fields[j]@.len() > 0
}

/// Whether an upload of these multipart fields is accepted: some field
/// yielded bytes, and the retained field — the last one — normalizes to
/// JPEG.
pub open spec fn upload_accepts(fields: Seq<Vec<u8>>) -> bool {
    &&& some_field_has_bytes(fields)
    &&& normalized_jpeg(fields.last()@) is Some
}

/// Decide an upload from the multipart fields' bytes.
///
/// A body in which no field yielded any bytes — no field at all, or every
/// field zero-byte — is refused as empty. Otherwise the last field observed
/// wins, earlier fields are discarded, and the retained bytes are handed to
/// the normalizer as they are; on success the fixed upload key is returned
/// with the canonical bytes, ready for the store.
pub fn upload_image(fields: Vec<Vec<u8>>) -> (r: Result<(String, Vec<u8>), ApiError>)
    ensures
        r is Ok <==> upload_accepts(fields@),
        !some_field_has_bytes(fields@) ==> r == Err::<(String, Vec<u8>), ApiError>(
            ApiError::EmptyBodyError,
        ),
        some_field_has_bytes(fields@) && loaded(fields@.last()@) is None ==> r is Err
            && r->Err_0 is DecodeError,
        some_field_has_bytes(fields@) && loaded(fields@.last()@) is Some && jpeg_encoded(
            loaded(fields@.last()@)->Some_0,
        ) is None ==> r is Err && r->Err_0 is EncodeError,
        r is Ok ==> r->Ok_0.0@ == upload_key() && r->Ok_0.1@ == normalized_jpeg(
            fields@.last()@,
        )->Some_0 && loaded(r->Ok_0.1@) is Some && guesses_jpeg(r->Ok_0.1@),
{
    let mut fields = fields;
    let mut saw_bytes = false;
    let mut i: usize = 0;
    while i < fields.len()
        invariant
            i <= fields@.len(),
            saw_bytes <==> exists|j: int| 0 <= j < i && #[trigger] fields@[j]@.len() > 0,
        decreases fields@.len() - i,
    {
        if fields[i].len() > 0 {
            saw_bytes = true;
        }
        i = i + 1;
    }
    if !saw_bytes {
        return Err(ApiError::EmptyBodyError);
    }
    let data = match fields.pop() {
        Some(d) => d,
        None => {
            return Err(ApiError::EmptyBodyError);
        },
    };
    let jpeg = match normalize(data) {
        Ok(j) => j,
        Err(e) => {
            return Err(e);
        },
    };
    Ok((String::from_str("my_file.jpeg"), jpeg))
}

/// What storing the normalized bytes is answered with: the key as plain
/// confirmation, or the store's failure as a write error.
pub open spec fn upload_outcome(filename: String, stored: Result<(), String>) -> Result<
    Image,
    ApiError,
> {
    match stored {
        Ok(_) => Ok(Image::Filename(filename)),
        Err(m) => Err(ApiError::StorageWriteError(m)),
    }
}

/// Answer for the store's reply to the upload's write.
pub fn upload_finish(filename: String, stored: Result<(), String>) -> (r: Result<
    Image,
    ApiError,
>)
    ensures
        r == upload_outcome(filename, stored),
{
    match stored {
        Ok(_) => Ok(Image::Filename(filename)),
        Err(m) => Err(ApiError::StorageWriteError(m)),
    }
}

/// What a retrieval is answered with: the fetched bytes untouched — no
/// re-validation, no re-encoding — or the failure under its own variant.
pub open spec fn retrieve_outcome(filename: String, fetched: GetResult) -> Result<
    Image,
    ApiError,
> {
    match fetched {
        GetResult::Got(bytes) => Ok(Image::File(filename, bytes)),
        GetResult::GetFailed(m) => Err(ApiError::StorageReadError(m)),
        GetResult::BodyFailed(m) => Err(ApiError::ByteConversionError(m)),
    }
}

/// Answer for the store's reply to a retrieval.
pub fn retrieve_image(filename: String, fetched: GetResult) -> (r: Result<Image, ApiError>)
    ensures
        r == retrieve_outcome(filename, fetched),
{
    match fetched {
        GetResult::Got(bytes) => Ok(Image::File(filename, bytes)),
        GetResult::GetFailed(m) => Err(ApiError::StorageReadError(m)),
        GetResult::BodyFailed(m) => Err(ApiError::ByteConversionError(m)),
    }
}

/// What a delete is answered with: the key as confirmation, or the store's
/// failure as a delete error.
pub open spec fn delete_outcome(filename: String, deleted: Result<(), String>) -> Result<
    Image,
    ApiError,
> {
    match deleted {
        Ok(_) => Ok(Image::Filename(filename)),
        Err(m) => Err(ApiError::StorageDeleteError(m)),
    }
}

/// Answer for the store's reply to a delete.
pub fn delete_image(filename: String, deleted: Result<(), String>) -> (r: Result<Image, ApiError>)
    ensures
        r == delete_outcome(filename, deleted),
{
    match deleted {
        Ok(_) => Ok(Image::Filename(filename)),
        Err(m) => Err(ApiError::StorageDeleteError(m)),
    }
}

/// The status a handler's result is answered with: 200 on success, else the
/// failure's own status.
pub open spec fn result_status(r: Result<Image, ApiError>) -> u16 {
    match r {
        Ok(_) => 200,
        Err(e) => error_status(e),
    }
}

/// The `Content-Disposition` value a retrieved object is served with.
pub open spec fn content_disposition_of(name: Seq<char>) -> Seq<char> {
    "attachment; filename=\""@ + name + "\""@
}

impl Image {
    /// The response a successful request is answered with: always 200. A bare
    /// key becomes a plain-text body; retrieved bytes are served untouched,
    /// as a JPEG attachment named after the key.
    pub fn into_response(self) -> (r: HttpResponse)
        ensures
            r.status == 200,
            self matches Image::Filename(name) ==> r.headers@.len() == 0 && (r.body matches
                HttpBody::Text(t) && t == name),
            self matches Image::File(name, data) ==> r.headers@.len() == 2 && r.headers@[0].0@
                == "Content-Disposition"@ && r.headers@[0].1@ == content_disposition_of(name@)
                && r.headers@[1].0@ == "Content-Type"@ && r.headers@[1].1@ == "image/jpeg"@ && (
            r.body matches HttpBody::Bytes(b) && b == data),
    {
        match self {
            Image::Filename(name) => HttpResponse {
                status: 200,
                headers: Vec::new(),
                body: HttpBody::Text(name),
            },
            Image::File(name, data) => {
                let disposition = String::from_str("attachment; filename=\"").concat(
                    name.as_str(),
                ).concat("\"");
                let mut headers: Vec<(String, String)> = Vec::new();
                headers.push((String::from_str("Content-Disposition"), disposition));
                headers.push((String::from_str("Content-Type"), String::from_str("image/jpeg")));
                HttpResponse { status: 200, headers, body: HttpBody::Bytes(data) }
            },
        }
    }
}

/// Law: a retrieval serves the stored bytes untouched — no re-validation, no
/// re-encoding — so what an upload wrote under its key comes back from the
/// store exactly as stored.
pub proof fn lemma_retrieval_passes_bytes_through(filename: String, bytes: Vec<u8>)
    ensures
        retrieve_outcome(filename, GetResult::Got(bytes)) == Ok::<Image, ApiError>(
            Image::File(filename, bytes),
        ),
{
}

/// Law: a delete is always answered with 200 or 400, never a server error —
/// whatever the store said, success or failure, a key that never existed
/// included.
pub proof fn lemma_delete_never_server_error(filename: String, deleted: Result<(), String>)
    ensures
        result_status(delete_outcome(filename, deleted)) == 200 || result_status(
            delete_outcome(filename, deleted),
        ) == 400,
{
}

/// Law: a retrieval the store refuses — a key that was never written
/// included — is answered with the read failure, mapped to status 400.
pub proof fn lemma_retrieve_failure_is_client_error(filename: String, m: String)
    ensures
        retrieve_outcome(filename, GetResult::GetFailed(m)) == Err::<Image, ApiError>(
            ApiError::StorageReadError(m),
        ),
        result_status(retrieve_outcome(filename, GetResult::GetFailed(m))) == 400,
{
}

/// Law: the empty-body refusal is a client error with its fixed text, so an
/// upload without bytes is answered 400 and never a key.
pub proof fn lemma_empty_body_is_client_error()
    ensures
        error_status(ApiError::EmptyBodyError) == 400,
        crate::errors::error_body(ApiError::EmptyBodyError) == "Body is empty"@,
{
}

} // verus!
