//! `GET /{bucket}/{image_id}`: which file to serve, when to fall back to
//! the bucket's fallback image, and which caching to announce.
//!
//! Serving a file (conditional requests, ranges, streaming) is done outside
//! the library; after each attempt the library decides what comes next.

use vstd::prelude::*;

use crate::buckets::Buckets;
use crate::error::AppError;
use crate::image_id::{law_image_id_text_round_trip, parse_image_id, uuid_hyphenated, uuid_text_value};
use crate::text::join_path;

verus! {

/// The files a `GET /{bucket}/{image_id}` may serve.
pub struct ServeTarget {
    /// `{storage_root}/{bucket}/{image_id}.webp`.
    pub path: String,
    /// The bucket's fallback image, `{storage_root}/{bucket}/_default.webp`.
    pub fallback_path: String,
}

/// The files to serve for a request. The bucket is checked before the id;
/// an unknown bucket is [`AppError::InvalidBucket`] and an id that is not a
/// UUID is [`AppError::InvalidImageId`].
pub fn serve_target(buckets: &Buckets, storage_root: &str, bucket: &str, image_id: &str) -> (res:
    Result<ServeTarget, AppError>)
    ensures
        (forall|i: int| 0 <= i < buckets@.len() ==> #[trigger] buckets@[i].name != bucket@) ==> (res
            matches Err(e) && e == AppError::InvalidBucket),
        (exists|i: int| 0 <= i < buckets@.len() && #[trigger] buckets@[i].name == bucket@)
            && uuid_text_value(image_id@) is None ==> (res matches Err(e) && e
            == AppError::InvalidImageId),
        (exists|i: int| 0 <= i < buckets@.len() && #[trigger] buckets@[i].name == bucket@)
            && uuid_text_value(image_id@) is Some ==> (res matches Ok(t) && t.path@ == join_path(
            join_path(storage_root@, bucket@),
            uuid_hyphenated(uuid_text_value(image_id@)->0) + ".webp"@,
        ) && t.fallback_path@ == join_path(join_path(storage_root@, bucket@), "_default.webp"@)),
{
    let config = buckets.get(bucket)?;
    let id = parse_image_id(image_id)?;
    Ok(
        ServeTarget {
            path: config.image_path(storage_root, id),
            fallback_path: config.default_image_path(storage_root),
        },
    )
}

/// Which file was just tried.
#[derive(Debug, Clone, Copy, PartialEq, Eq, Structural)]
pub enum ServeStep {
    /// The requested image.
    Primary,
    /// The bucket's fallback image.
    Fallback,
}

/// The `Cache-Control` announced with a served file.
#[derive(Debug, Clone, Copy, PartialEq, Eq, Structural)]
pub enum CachePolicy {
    /// One year, immutable: stored files are named by a fresh id and never
    /// modified in place.
    Immutable,
    /// Thirty seconds: the same id may soon resolve to a real image.
    Short,
}

/// What to do after trying a file.
#[derive(Debug, Clone, Copy, PartialEq, Eq, Structural)]
pub enum ServeDecision {
    /// Answer with the response obtained, announcing this caching.
    Respond(CachePolicy),
    /// The requested image does not exist: try the fallback image.
    TryFallback,
    /// Neither exists: answer [`AppError::NotFound`].
    NotFound,
}

/// What to do after trying a file whose response has status `status`.
pub open spec fn next_step(step: ServeStep, status: u16) -> ServeDecision {
    match step {
        ServeStep::Primary => if status == 404 {
            ServeDecision::TryFallback
        } else {
            ServeDecision::Respond(CachePolicy::Immutable)
        },
        ServeStep::Fallback => if status == 404 {
            ServeDecision::NotFound
        } else {
            ServeDecision::Respond(CachePolicy::Short)
        },
    }
}

/// Decides what to do after trying a file.
pub fn serve_next(step: ServeStep, status: u16) -> (res: ServeDecision)
    ensures
        res == next_step(step, status),
{
    match step {
        ServeStep::Primary => if status == 404 {
            ServeDecision::TryFallback
        } else {
            ServeDecision::Respond(CachePolicy::Immutable)
        },
        ServeStep::Fallback => if status == 404 {
            ServeDecision::NotFound
        } else {
            ServeDecision::Respond(CachePolicy::Short)
        },
    }
}

/// The error a request is answered with when neither file exists.
pub fn not_found_error() -> (res: AppError)
    ensures
        res == AppError::NotFound,
{
    AppError::NotFound
}

impl CachePolicy {
    /// The `Cache-Control` header value.
    pub fn header_value(&self) -> (res: &'static str)
        ensures
            *self == CachePolicy::Immutable ==> res@ == "public, max-age=31536000, immutable"@,
            *self == CachePolicy::Short ==> res@ == "public, max-age=30"@,
    {
        match self {
            CachePolicy::Immutable => "public, max-age=31536000, immutable",
            CachePolicy::Short => "public, max-age=30",
        }
    }
}

/// The fallback image is tried only after the requested image is missing,
/// at most once; a request is answered "not found" only when the fallback
/// image is missing too. Any other answer to either attempt (a 200, a 304
/// for a conditional request, a 206 for a range) is passed on: the
/// requested image cached for a year, the fallback image only briefly.
pub proof fn law_fallback_only_when_missing(status: u16)
    ensures
        next_step(ServeStep::Primary, status) == ServeDecision::TryFallback <==> status == 404,
        next_step(ServeStep::Fallback, status) != ServeDecision::TryFallback,
        next_step(ServeStep::Primary, status) != ServeDecision::NotFound,
        next_step(ServeStep::Primary, status) is Respond ==> next_step(ServeStep::Primary, status)
            == ServeDecision::Respond(CachePolicy::Immutable),
        next_step(ServeStep::Fallback, status) is Respond ==> next_step(ServeStep::Fallback, status)
            == ServeDecision::Respond(CachePolicy::Short),
        next_step(ServeStep::Fallback, status) == ServeDecision::NotFound <==> status == 404,
        status != 404 ==> next_step(ServeStep::Primary, status) == ServeDecision::Respond(
            CachePolicy::Immutable,
        ),
        status != 404 ==> next_step(ServeStep::Fallback, status) == ServeDecision::Respond(
            CachePolicy::Short,
        ),
{
}

/// What an upload writes is what a read of its answer finds: the
/// `image_id` an upload answers with, sent back as `GET` or `DELETE
/// /{bucket}/{image_id}`, resolves to the very file the upload wrote
/// (`{root}/{bucket}/{image_id}.webp`).
pub proof fn law_uploaded_image_is_found(root: Seq<char>, bucket: Seq<char>, id: u128)
    ensures
        uuid_text_value(uuid_hyphenated(id)) is Some,
        join_path(
            join_path(root, bucket),
            uuid_hyphenated(uuid_text_value(uuid_hyphenated(id))->0) + ".webp"@,
        ) == join_path(join_path(root, bucket), uuid_hyphenated(id) + ".webp"@),
{
    law_image_id_text_round_trip(id);
}

} // verus!
