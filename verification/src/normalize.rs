//! Image normalization: an uploaded payload of any supported encoding is
//! decoded and re-encoded to the one canonical encoding, JPEG, before it is
//! stored. The decoding and encoding themselves are done by the `image`
//! crate; what they return is named here, and `normalize` is proved to pass
//! exactly those bytes on and to sort every failure into the right variant.

use vstd::prelude::*;
use crate::errors::ApiError;

verus! {

#[verifier::external_type_specification]
#[verifier::external_body]
pub struct ExDynamicImage(image::DynamicImage);

/// What `image::load_from_memory` returns on `b`: the decoded image, or
/// `None` where `b` is not a valid image in any encoding it supports.
pub uninterp spec fn loaded(b: Seq<u8>) -> Option<image::DynamicImage>;

/// What `DynamicImage::write_to` with `ImageFormat::Jpeg` writes for `img`:
/// the JPEG bytes, or `None` where the image cannot be encoded as JPEG.
pub uninterp spec fn jpeg_encoded(img: image::DynamicImage) -> Option<Seq<u8>>;

/// Whether the image's pixel buffer fits the allocation budget that
/// `image::Limits::default` puts on decoding. Every image the decoder hands
/// out fits it, since decoding reserved that buffer under the budget; an
/// image built some other way need not.
pub uninterp spec fn fits_decode_budget(img: image::DynamicImage) -> bool;

/// Whether `image::guess_format` answers `ImageFormat::Jpeg` on `b`: its
/// magic-byte table matches JPEG exactly when the stream opens with the
/// three bytes `FF D8 FF`, and no earlier entry of the table matches such a
/// stream.
pub open spec fn guesses_jpeg(b: Seq<u8>) -> bool {
    b.len() >= 3 && b[0] == 0xff && b[1] == 0xd8 && b[2] == 0xff
}

/// The canonical bytes for a payload: the image decoded from `b`, re-encoded
/// as JPEG; `None` where decoding or encoding fails.
pub open spec fn normalized_jpeg(b: Seq<u8>) -> Option<Seq<u8>> {
    match loaded(b) {
        Some(img) => jpeg_encoded(img),
        None => None,
    }
}

/// Relies on `image::load_from_memory`: it guesses the encoding from the
/// bytes' magic numbers and decodes them under the crate's default
/// allocation budget, which the decoded pixel buffer therefore fits. The
/// call consults the crate's process-global decoding-hook registries before
/// its built-in table; this program registers no hook, so the result depends
/// on the bytes alone. The error is handed back as its display text.
#[verifier::external_body]
fn decode_bytes(data: &Vec<u8>) -> (r: Result<image::DynamicImage, String>)
    ensures
        r is Ok <==> loaded(data@) is Some,
        r is Ok ==> loaded(data@) == Some(r->Ok_0),
        r is Ok ==> fits_decode_budget(r->Ok_0),
{
    image::load_from_memory(data).map_err(|e| e.to_string())
}

/// Relies on `DynamicImage::write_to` with `ImageFormat::Jpeg`: it writes one
/// complete JPEG stream for the image into the buffer, so its result depends
/// on the image alone. The stream opens with the JPEG magic bytes. For an
/// image within the decoder's default allocation budget the stream also
/// decodes back, since its pixel buffer is no larger than the image's own.
/// The error is handed back as its display text.
#[verifier::external_body]
fn encode_jpeg(img: &image::DynamicImage) -> (r: Result<Vec<u8>, String>)
    ensures
        r is Ok <==> jpeg_encoded(*img) is Some,
        r is Ok ==> jpeg_encoded(*img) == Some(r->Ok_0@),
        r is Ok ==> guesses_jpeg(r->Ok_0@),
        r is Ok && fits_decode_budget(*img) ==> loaded(r->Ok_0@) is Some,
{
    let mut buf: Vec<u8> = Vec::new();
    match img.write_to(std::io::Cursor::new(&mut buf), image::ImageFormat::Jpeg) {
        Ok(()) => Ok(buf),
        Err(e) => Err(e.to_string()),
    }
}

/// Decode a payload of unknown encoding and re-encode it as JPEG.
///
/// Succeeds exactly on payloads that decode and re-encode, and then returns
/// the canonical JPEG bytes, which decode again and are recognized as JPEG.
/// A payload that is no valid image fails with `DecodeError`; one whose
/// decoded image cannot be written as JPEG fails with `EncodeError`.
pub fn normalize(raw: Vec<u8>) -> (r: Result<Vec<u8>, ApiError>)
    ensures
        r is Ok <==> normalized_jpeg(raw@) is Some,
        r is Ok ==> r->Ok_0@ == normalized_jpeg(raw@)->Some_0,
        r is Ok ==> loaded(r->Ok_0@) is Some && guesses_jpeg(r->Ok_0@),
        loaded(raw@) is None ==> r is Err && r->Err_0 is DecodeError,
        loaded(raw@) is Some && jpeg_encoded(loaded(raw@)->Some_0) is None ==> r is Err
            && r->Err_0 is EncodeError,
{
    let img = match decode_bytes(&raw) {
        Ok(img) => img,
        Err(m) => {
            return Err(ApiError::DecodeError(m));
        },
    };
    match encode_jpeg(&img) {
        Ok(buf) => Ok(buf),
        Err(m) => Err(ApiError::EncodeError(m)),
    }
}

} // verus!
