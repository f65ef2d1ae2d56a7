//! An HTTP gateway for image blobs: uploads are normalized to JPEG and written
//! to a remote object store; retrieval and deletion address the store by key.
//! This crate holds the request-to-storage pipeline itself — field selection,
//! image normalization, the handler decisions and the mapping of results and
//! errors to HTTP responses — each with a proved contract. The surrounding
//! process (routing, the store's network client, multipart reading) lives
//! outside and hands the pipeline plain values.

use vstd::prelude::*;

pub mod errors;
pub mod normalize;
pub mod response;
pub mod routing;

verus! {

/// Body of the liveness route: a fixed greeting.
pub fn hello_world() -> (r: &'static str)
    ensures
        r@ == "Hello, world!"@,
{
    "Hello, world!"
}

} // verus!
