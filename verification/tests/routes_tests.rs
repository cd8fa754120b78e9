use media_server::buckets::{BucketEntry, Buckets};
use media_server::error::{AppError, IoErrorKind};
use media_server::image_id::parse_image_id;
use media_server::routes::delete::{delete_outcome, delete_target};
use media_server::routes::serve::{
    not_found_error, serve_next, serve_target, CachePolicy, ServeDecision, ServeStep,
};
use media_server::routes::upload::{
    check_image_content_type, field_kind, max_dimension_for, process_upload, stored_upload,
    stored_upload_with_id, upload_write, FieldKind, UploadForm, UploadResponse,
};
use media_server::image_processing::process_image;

fn buckets() -> Buckets {
    Buckets::from_entries(vec![
        BucketEntry { name: "giveaways".to_string(), max_dimension: 1000, max_age_days: Some(15) },
        BucketEntry { name: "stream-previews".to_string(), max_dimension: 800, max_age_days: None },
    ])
    .unwrap()
}

fn bad_request(r: Result<(), AppError>) -> String {
    match r {
        Err(AppError::BadRequest(m)) => m,
        other => panic!("expected a bad request, got {other:?}"),
    }
}

#[test]
fn fields_are_classified_by_name() {
    assert_eq!(field_kind(Some("bucket")), FieldKind::Bucket);
    assert_eq!(field_kind(Some("image")), FieldKind::Image);
    assert_eq!(field_kind(Some("max_dimension_override")), FieldKind::MaxDimensionOverride);
    assert_eq!(field_kind(Some("is_default")), FieldKind::IsDefault);
    assert_eq!(field_kind(Some("Image")), FieldKind::Ignored);
    assert_eq!(field_kind(None), FieldKind::Ignored);
}

#[test]
fn content_types() {
    for ct in ["image/jpeg", "image/png", "image/gif", "image/webp"] {
        assert_eq!(check_image_content_type(ct), Ok(()));
    }
    assert_eq!(
        bad_request(check_image_content_type("text/plain")),
        "unsupported image content type 'text/plain', expected one of [\"image/jpeg\", \"image/png\", \"image/gif\", \"image/webp\"]"
    );
    assert!(check_image_content_type("").is_err());
    assert!(check_image_content_type("image/PNG").is_err());
}

#[test]
fn max_dimension_override_validation() {
    let mut form = UploadForm::new();
    assert_eq!(
        bad_request(form.set_max_dimension_override("abc")),
        "max_dimension_override must be a positive integer"
    );
    assert_eq!(
        bad_request(form.set_max_dimension_override("-5")),
        "max_dimension_override must be a positive integer"
    );
    assert_eq!(
        bad_request(form.set_max_dimension_override("15")),
        "max_dimension_override must be between 16 and 4096"
    );
    assert_eq!(
        bad_request(form.set_max_dimension_override("4097")),
        "max_dimension_override must be between 16 and 4096"
    );
    assert_eq!(form.max_dimension_override, None);
    assert_eq!(form.set_max_dimension_override("512"), Ok(()));
    assert_eq!(form.max_dimension_override, Some(512));
    assert_eq!(form.set_max_dimension_override("16"), Ok(()));
    assert_eq!(form.max_dimension_override, Some(16));
}

#[test]
fn is_default_flag() {
    let mut form = UploadForm::new();
    for (text, yes) in [("true", true), (" TRUE ", true), ("True\n", true), ("1", true), (" 1 ", true),
        ("false", false), ("yes", false), ("0", false), ("", false), ("truee", false), ("t rue", false)]
    {
        form.set_is_default(text);
        assert_eq!(form.is_default, yes, "{text:?}");
    }
}

#[test]
fn override_only_shrinks() {
    assert_eq!(max_dimension_for(None, 1000), 1000);
    assert_eq!(max_dimension_for(Some(512), 1000), 512);
    assert_eq!(max_dimension_for(Some(2000), 1000), 1000);
    assert_eq!(max_dimension_for(Some(1000), 1000), 1000);
}

#[test]
fn finishing_requires_bucket_then_image() {
    let b = buckets();
    let form = UploadForm::new();
    match form.finish(&b) {
        Err(AppError::BadRequest(m)) => assert_eq!(m, "missing bucket field"),
        _ => panic!("expected missing bucket"),
    }
    let mut form = UploadForm::new();
    form.set_bucket("giveaways".to_string());
    match form.finish(&b) {
        Err(AppError::BadRequest(m)) => assert_eq!(m, "missing image field"),
        _ => panic!("expected missing image"),
    }
    let mut form = UploadForm::new();
    form.set_image(vec![1, 2, 3]);
    match form.finish(&b) {
        Err(AppError::BadRequest(m)) => assert_eq!(m, "missing bucket field"),
        _ => panic!("expected missing bucket"),
    }
    let mut form = UploadForm::new();
    form.set_bucket("unknown".to_string());
    form.set_image(vec![1]);
    assert!(matches!(form.finish(&b), Err(AppError::InvalidBucket)));
}

#[test]
fn finished_form_carries_the_effective_cap() {
    let b = buckets();
    let mut form = UploadForm::new();
    form.set_bucket("stream-previews".to_string());
    form.set_image(vec![9, 9]);
    form.set_max_dimension_override("2000").unwrap();
    form.set_is_default("true");
    let req = form.finish(&b).unwrap();
    assert_eq!(req.bucket.name, "stream-previews");
    assert_eq!(req.max_dimension, 800);
    assert_eq!(req.image, vec![9, 9]);
    assert!(req.is_default);
}

#[test]
fn regular_upload_is_stored_under_its_id() {
    let b = buckets();
    let cfg = b.get("giveaways").unwrap();
    let id = 0x019eb785_4a32_7f83_b08b_d6fa84cf86c9u128;
    let stored = stored_upload_with_id(cfg, "./storage", "https://static-media.huge.bot", false, id);
    assert_eq!(stored.path, "./storage/giveaways/019eb785-4a32-7f83-b08b-d6fa84cf86c9.webp");
    assert_eq!(
        stored.response,
        UploadResponse::Image {
            bucket: "giveaways".to_string(),
            image_id: "019eb785-4a32-7f83-b08b-d6fa84cf86c9".to_string(),
            url: "https://static-media.huge.bot/giveaways/019eb785-4a32-7f83-b08b-d6fa84cf86c9".to_string(),
        }
    );
}

#[test]
fn default_upload_overwrites_the_fallback_image() {
    let b = buckets();
    let cfg = b.get("giveaways").unwrap();
    let stored = stored_upload(cfg, "/data", "https://x", true);
    assert_eq!(stored.path, "/data/giveaways/_default.webp");
    assert_eq!(
        stored.response,
        UploadResponse::Default { bucket: "giveaways".to_string(), default_image: true }
    );
}

#[test]
fn fresh_upload_answer_names_the_written_file() {
    let b = buckets();
    let cfg = b.get("giveaways").unwrap();
    let stored = stored_upload(cfg, "/data", "https://x", false);
    match stored.response {
        UploadResponse::Image { bucket, image_id, url } => {
            assert_eq!(bucket, "giveaways");
            assert_eq!(stored.path, format!("/data/giveaways/{image_id}.webp"));
            assert_eq!(url, format!("https://x/giveaways/{image_id}"));
            let id = parse_image_id(&image_id).unwrap();
            assert_eq!(delete_target(&b, "/data", "giveaways", &image_id), Ok(stored.path.clone()));
            assert_eq!(serve_target(&b, "/data", "giveaways", &image_id).unwrap().path, stored.path);
            assert_eq!((id >> 76) & 0xF, 7);
            assert_eq!((id >> 62) & 0x3, 2);
            assert_eq!(image_id, image_id.to_lowercase());
            assert_eq!(image_id.len(), 36);
        }
        other => panic!("expected an image response, got {other:?}"),
    }
}

#[test]
fn delete_target_checks_bucket_then_id() {
    let b = buckets();
    assert_eq!(delete_target(&b, "/data", "nope", "not-a-uuid"), Err(AppError::InvalidBucket));
    assert_eq!(delete_target(&b, "/data", "giveaways", "not-a-uuid"), Err(AppError::InvalidImageId));
    assert_eq!(
        delete_target(&b, "/data", "giveaways", "550E8400E29B41D4A716446655440000"),
        Ok("/data/giveaways/550e8400-e29b-41d4-a716-446655440000.webp".to_string())
    );
}

#[test]
fn deleting_is_idempotent() {
    assert_eq!(delete_outcome(None), Ok(204));
    assert_eq!(delete_outcome(Some((IoErrorKind::NotFound, "gone".to_string()))), Ok(204));
    assert_eq!(
        delete_outcome(Some((IoErrorKind::Other, "denied".to_string()))),
        Err(AppError::Io("denied".to_string()))
    );
}

#[test]
fn serve_target_paths() {
    let b = buckets();
    let t = serve_target(&b, "/data", "stream-previews", "{550e8400-e29b-41d4-a716-446655440000}").unwrap();
    assert_eq!(t.path, "/data/stream-previews/550e8400-e29b-41d4-a716-446655440000.webp");
    assert_eq!(t.fallback_path, "/data/stream-previews/_default.webp");
    assert!(matches!(serve_target(&b, "/data", "x", "y"), Err(AppError::InvalidBucket)));
    assert!(matches!(serve_target(&b, "/data", "giveaways", "y"), Err(AppError::InvalidImageId)));
}

#[test]
fn serving_falls_back_once() {
    assert_eq!(serve_next(ServeStep::Primary, 200), ServeDecision::Respond(CachePolicy::Immutable));
    assert_eq!(serve_next(ServeStep::Primary, 304), ServeDecision::Respond(CachePolicy::Immutable));
    assert_eq!(serve_next(ServeStep::Primary, 404), ServeDecision::TryFallback);
    assert_eq!(serve_next(ServeStep::Fallback, 200), ServeDecision::Respond(CachePolicy::Short));
    assert_eq!(serve_next(ServeStep::Fallback, 404), ServeDecision::NotFound);
    assert_eq!(not_found_error(), AppError::NotFound);
    assert_eq!(CachePolicy::Immutable.header_value(), "public, max-age=31536000, immutable");
    assert_eq!(CachePolicy::Short.header_value(), "public, max-age=30");
}

fn png(width: u32, height: u32) -> Vec<u8> {
    let mut out = std::io::Cursor::new(Vec::new());
    image::RgbaImage::new(width, height).write_to(&mut out, image::ImageFormat::Png).unwrap();
    out.into_inner()
}

#[test]
fn refused_processing_writes_nothing() {
    let b = Buckets::from_entries(vec![BucketEntry {
        name: "giveaways".to_string(),
        max_dimension: 100,
        max_age_days: None,
    }])
    .unwrap();
    let mut form = UploadForm::new();
    form.set_bucket("giveaways".to_string());
    form.set_image(b"not an image".to_vec());
    let request = form.finish(&b).unwrap();
    let refusals = || [AppError::DecodeError("bad".to_string()), AppError::EncodeError("too big".to_string())];
    for (e, expected) in refusals().into_iter().zip(refusals()) {
        match upload_write(&request, Err(e), "/data", "https://x") {
            Err(got) => assert_eq!(got, expected),
            Ok(_) => panic!("a refused image must not be written"),
        }
    }
    match process_upload(&request, "/data", "https://x") {
        Err(AppError::DecodeError(m)) => assert!(!m.is_empty()),
        Err(other) => panic!("expected a decode error, got {other:?}"),
        Ok(_) => panic!("an unreadable image must not be written"),
    }
}

#[test]
fn accepted_upload_writes_the_processed_image_where_it_is_answered() {
    let b = Buckets::from_entries(vec![BucketEntry {
        name: "giveaways".to_string(),
        max_dimension: 100,
        max_age_days: None,
    }])
    .unwrap();
    let bytes = png(400, 200);
    let mut form = UploadForm::new();
    form.set_bucket("giveaways".to_string());
    form.set_image(bytes.clone());
    form.set_max_dimension_override("200").unwrap();
    let request = form.finish(&b).unwrap();
    assert_eq!(request.max_dimension, 100);
    let write = process_upload(&request, "/data", "https://x").unwrap();
    assert_eq!(write.webp, process_image(&bytes, 100).unwrap());
    let img = image::load_from_memory(&write.webp).unwrap();
    assert_eq!((img.width(), img.height()), (100, 50));
    match write.stored.response {
        UploadResponse::Image { bucket, image_id, url } => {
            assert_eq!(bucket, "giveaways");
            assert_eq!(write.stored.path, format!("/data/giveaways/{image_id}.webp"));
            assert_eq!(url, format!("https://x/giveaways/{image_id}"));
        }
        other => panic!("expected an image response, got {other:?}"),
    }

    let w = upload_write(&request, Ok(vec![1, 2, 3]), "/data", "https://x").unwrap();
    assert_eq!(w.webp, vec![1, 2, 3]);
}
