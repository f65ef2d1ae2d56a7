use image_gateway::errors::ApiError;
use image_gateway::hello_world;
use image_gateway::normalize::normalize;
use image_gateway::response::HttpBody;
use image_gateway::routing::{
    delete_image, retrieve_image, upload_finish, upload_image, GetResult, Image,
};

fn encode_as(format: image::ImageFormat) -> Vec<u8> {
    let img = image::DynamicImage::ImageRgb8(image::RgbImage::new(1, 1));
    let mut buf: Vec<u8> = Vec::new();
    img.write_to(&mut std::io::Cursor::new(&mut buf), format).unwrap();
    buf
}

fn tiny_png() -> Vec<u8> {
    encode_as(image::ImageFormat::Png)
}

fn body_text(body: &HttpBody) -> &str {
    match body {
        HttpBody::Text(t) => t.as_str(),
        HttpBody::Bytes(_) => panic!("expected a text body"),
    }
}

fn body_bytes(body: &HttpBody) -> &[u8] {
    match body {
        HttpBody::Text(_) => panic!("expected a byte body"),
        HttpBody::Bytes(b) => b.as_slice(),
    }
}

#[test]
fn hello_world_greets() {
    assert_eq!(hello_world(), "Hello, world!");
}

#[test]
fn normalize_png_yields_jpeg() {
    let out = normalize(tiny_png()).unwrap();
    assert_eq!(image::guess_format(&out).unwrap(), image::ImageFormat::Jpeg);
    let decoded = image::load_from_memory(&out).unwrap();
    assert_eq!(decoded.width(), 1);
    assert_eq!(decoded.height(), 1);
}

#[test]
fn normalize_bmp_yields_jpeg() {
    let out = normalize(encode_as(image::ImageFormat::Bmp)).unwrap();
    assert_eq!(image::guess_format(&out).unwrap(), image::ImageFormat::Jpeg);
    assert!(image::load_from_memory(&out).is_ok());
}

#[test]
fn normalize_gif_yields_jpeg() {
    let out = normalize(encode_as(image::ImageFormat::Gif)).unwrap();
    assert_eq!(image::guess_format(&out).unwrap(), image::ImageFormat::Jpeg);
    assert!(image::load_from_memory(&out).is_ok());
}

#[test]
fn normalize_changes_the_bytes() {
    let png = tiny_png();
    let out = normalize(png.clone()).unwrap();
    assert_ne!(out, png);
}

#[test]
fn normalize_garbage_fails_with_decode_error() {
    let r = normalize(b"definitely not an image".to_vec());
    assert!(matches!(r, Err(ApiError::DecodeError(_))));
}

#[test]
fn normalize_empty_fails_with_decode_error() {
    let r = normalize(Vec::new());
    assert!(matches!(r, Err(ApiError::DecodeError(_))));
}

#[test]
fn upload_with_no_field_is_refused_as_empty() {
    let r = upload_image(Vec::new());
    assert!(matches!(r, Err(ApiError::EmptyBodyError)));
    let resp = ApiError::EmptyBodyError.into_response();
    assert_eq!(resp.status, 400);
    assert_eq!(body_text(&resp.body), "Body is empty");
}

#[test]
fn upload_with_empty_field_is_refused_as_empty() {
    let r = upload_image(vec![Vec::new()]);
    assert!(matches!(r, Err(ApiError::EmptyBodyError)));
}

#[test]
fn upload_with_only_empty_fields_is_refused_as_empty() {
    let r = upload_image(vec![Vec::new(), Vec::new()]);
    assert!(matches!(r, Err(ApiError::EmptyBodyError)));
}

#[test]
fn upload_with_empty_last_field_fails_to_decode() {
    // A field yielded bytes, so the body is not empty; the retained (last)
    // field's zero bytes go to the normalizer and fail to decode.
    let r = upload_image(vec![b"x".to_vec(), Vec::new()]);
    assert!(matches!(r, Err(ApiError::DecodeError(_))));
}

#[test]
fn upload_keeps_the_last_field() {
    let r = upload_image(vec![b"junk".to_vec(), tiny_png()]);
    assert!(r.is_ok());
    let r = upload_image(vec![tiny_png(), b"junk".to_vec()]);
    assert!(matches!(r, Err(ApiError::DecodeError(_))));
}

#[test]
fn upload_returns_the_fixed_key_and_jpeg_bytes() {
    let (key, bytes) = upload_image(vec![tiny_png()]).unwrap();
    assert_eq!(key, "my_file.jpeg");
    assert_eq!(image::guess_format(&bytes).unwrap(), image::ImageFormat::Jpeg);
}

#[test]
fn upload_round_trip_keeps_the_picture() {
    let png = tiny_png();
    let original = image::load_from_memory(&png).unwrap();
    let (key, stored) = upload_image(vec![png]).unwrap();
    // The store hands the written bytes back untouched.
    let got = retrieve_image(key, GetResult::Got(stored.clone())).unwrap();
    let retrieved = match got {
        Image::File(_, b) => b,
        Image::Filename(_) => panic!("expected the bytes back"),
    };
    assert_eq!(retrieved, stored);
    let decoded = image::load_from_memory(&retrieved).unwrap();
    assert_eq!(decoded.width(), original.width());
    assert_eq!(decoded.height(), original.height());
}

#[test]
fn scenario_upload_retrieve_delete() {
    // Upload a single field holding a valid 1x1 PNG: 200, body is the key.
    let (key, jpeg) = upload_image(vec![tiny_png()]).unwrap();
    let resp = upload_finish(key.clone(), Ok(())).unwrap().into_response();
    assert_eq!(resp.status, 200);
    assert_eq!(body_text(&resp.body), "my_file.jpeg");

    // Retrieve the key: 200, served as a JPEG attachment, a 1x1 image.
    let resp = retrieve_image(key.clone(), GetResult::Got(jpeg.clone()))
        .unwrap()
        .into_response();
    assert_eq!(resp.status, 200);
    assert_eq!(resp.headers.len(), 2);
    assert_eq!(resp.headers[0].0, "Content-Disposition");
    assert_eq!(resp.headers[0].1, "attachment; filename=\"my_file.jpeg\"");
    assert_eq!(resp.headers[1].0, "Content-Type");
    assert_eq!(resp.headers[1].1, "image/jpeg");
    let served = image::load_from_memory(body_bytes(&resp.body)).unwrap();
    assert_eq!(image::guess_format(body_bytes(&resp.body)).unwrap(), image::ImageFormat::Jpeg);
    assert_eq!(served.width(), 1);
    assert_eq!(served.height(), 1);

    // Delete the key: 200, body is the key.
    let resp = delete_image(key.clone(), Ok(())).unwrap().into_response();
    assert_eq!(resp.status, 200);
    assert_eq!(body_text(&resp.body), "my_file.jpeg");

    // Retrieve it again, the store now refusing: 400.
    let miss = retrieve_image(key, GetResult::GetFailed("NoSuchKey".to_string()));
    let resp = miss.unwrap_err().into_response();
    assert_eq!(resp.status, 400);
}

#[test]
fn retrieve_passes_foreign_bytes_through() {
    // An object written by someone else is served untouched, whatever it holds.
    let blob = b"not a jpeg at all".to_vec();
    let got = retrieve_image("odd.bin".to_string(), GetResult::Got(blob.clone())).unwrap();
    assert_eq!(got, Image::File("odd.bin".to_string(), blob));
}

#[test]
fn retrieve_missing_key_maps_to_400() {
    let r = retrieve_image("never_written".to_string(), GetResult::GetFailed("NoSuchKey".to_string()));
    let e = r.unwrap_err();
    assert!(matches!(e, ApiError::StorageReadError(_)));
    let resp = e.into_response();
    assert_eq!(resp.status, 400);
    assert_eq!(body_text(&resp.body), "Error while getting image: NoSuchKey");
}

#[test]
fn retrieve_stream_failure_maps_to_500() {
    let r = retrieve_image("k".to_string(), GetResult::BodyFailed("cut off".to_string()));
    let e = r.unwrap_err();
    assert!(matches!(e, ApiError::ByteConversionError(_)));
    assert_eq!(e.into_response().status, 500);
}

#[test]
fn delete_missing_key_never_gives_server_error() {
    // Success and storage failure both map to a defined client-side status.
    let ok = delete_image("nope".to_string(), Ok(())).unwrap().into_response();
    assert_eq!(ok.status, 200);
    let err = delete_image("nope".to_string(), Err("NoSuchKey".to_string()))
        .unwrap_err()
        .into_response();
    assert_eq!(err.status, 400);
    assert_eq!(body_text(&err.body), "Error while deleting object: NoSuchKey");
}

#[test]
fn upload_write_failure_maps_to_400() {
    let e = upload_finish("my_file.jpeg".to_string(), Err("denied".to_string())).unwrap_err();
    assert!(matches!(e, ApiError::StorageWriteError(_)));
    let resp = e.into_response();
    assert_eq!(resp.status, 400);
    assert_eq!(body_text(&resp.body), "Error while inserting image: denied");
}

#[test]
fn error_mapper_is_a_fixed_table() {
    let cases: Vec<(ApiError, u16, &str)> = vec![
        (ApiError::StorageReadError("x".to_string()), 400, "Error while getting image: x"),
        (ApiError::StorageWriteError("x".to_string()), 400, "Error while inserting image: x"),
        (ApiError::StorageDeleteError("x".to_string()), 400, "Error while deleting object: x"),
        (ApiError::DecodeError("x".to_string()), 400, "Error while manipulating image bytes: x"),
        (ApiError::EncodeError("x".to_string()), 400, "Error while manipulating image bytes: x"),
        (
            ApiError::MultipartError("x".to_string()),
            400,
            "Error while getting data from multipart: x",
        ),
        (ApiError::EmptyBodyError, 400, "Body is empty"),
        (
            ApiError::ByteConversionError("x".to_string()),
            500,
            "Error while converting byte stream: x",
        ),
        (ApiError::TransportError("x".to_string()), 500, "HTTP error: x"),
    ];
    for (e, status, text) in cases {
        let resp = e.into_response();
        assert_eq!(resp.status, status);
        assert!(resp.headers.is_empty());
        assert_eq!(body_text(&resp.body), text);
    }
}
