//! `POST /upload`: validation of the multipart form, the effective size
//! cap, and where and under which id the processed image is stored.
//!
//! The form's fields are read one by one outside the library; each field
//! read is handed to an [`UploadForm`], which validates it and records it.

use vstd::prelude::*;

use crate::buckets::{BucketConfig, Buckets, MAX_DIMENSION, MIN_DIMENSION, valid_dimension};
use crate::error::AppError;
use crate::image_processing::{process_image, processed_webp};
use crate::image_id::{image_id_text, is_version7, new_image_id, uuid_hyphenated, uuid_text_value, law_image_id_text_round_trip};
use crate::text::{chars_of, concat_strs, decimal_at_most, join_path, parse_u32, str_eq, string_of, trim, trim_ws};

verus! {

/// The multipart fields the upload route understands.
#[derive(Debug, Clone, Copy, PartialEq, Eq, Structural)]
pub enum FieldKind {
    /// `bucket`: name of an existing bucket.
    Bucket,
    /// `image`: the image file.
    Image,
    /// `max_dimension_override`: an optional smaller size cap.
    MaxDimensionOverride,
    /// `is_default`: store the image as the bucket's fallback image.
    IsDefault,
    /// Any other field, which is ignored.
    Ignored,
}

/// The kind of a field with the given name (`None` for a nameless field).
pub open spec fn field_kind_of(name: Option<Seq<char>>) -> FieldKind {
    match name {
        Some(n) => if n == "bucket"@ {
            FieldKind::Bucket
        } else if n == "image"@ {
            FieldKind::Image
        } else if n == "max_dimension_override"@ {
            FieldKind::MaxDimensionOverride
        } else if n == "is_default"@ {
            FieldKind::IsDefault
        } else {
            FieldKind::Ignored
        },
        None => FieldKind::Ignored,
    }
}

/// Classifies a multipart field by its name.
pub fn field_kind(name: Option<&str>) -> (res: FieldKind)
    ensures
        res == field_kind_of(
            match name {
                Some(n) => Some(n@),
                None => None,
            },
        ),
{
    match name {
        None => FieldKind::Ignored,
        Some(n) => if str_eq(n, "bucket") {
            FieldKind::Bucket
        } else if str_eq(n, "image") {
            FieldKind::Image
        } else if str_eq(n, "max_dimension_override") {
            FieldKind::MaxDimensionOverride
        } else if str_eq(n, "is_default") {
            FieldKind::IsDefault
        } else {
            FieldKind::Ignored
        },
    }
}

/// Content types accepted for the `image` field, matching the enabled
/// decoders (jpeg, png, gif, webp).
pub open spec fn allowed_content_type(ct: Seq<char>) -> bool {
    ct == "image/jpeg"@ || ct == "image/png"@ || ct == "image/gif"@ || ct == "image/webp"@
}

/// The message refusing an image of content type `ct`.
pub open spec fn unsupported_type_message(ct: Seq<char>) -> Seq<char> {
    "unsupported image content type '"@ + ct
        + "', expected one of [\"image/jpeg\", \"image/png\", \"image/gif\", \"image/webp\"]"@
}

/// Message for a `max_dimension_override` that is not a number.
pub open spec fn override_not_a_number_message() -> Seq<char> {
    "max_dimension_override must be a positive integer"@
}

/// Message for a `max_dimension_override` out of range.
pub open spec fn override_out_of_range_message() -> Seq<char> {
    "max_dimension_override must be between 16 and 4096"@
}

/// Message for a form without a `bucket` field.
pub open spec fn missing_bucket_message() -> Seq<char> {
    "missing bucket field"@
}

/// Message for a form without an `image` field.
pub open spec fn missing_image_message() -> Seq<char> {
    "missing image field"@
}

/// Accepts or refuses the content type of the `image` field (the empty
/// string when the field has none).
pub fn check_image_content_type(content_type: &str) -> (res: Result<(), AppError>)
    ensures
        res is Ok <==> allowed_content_type(content_type@),
        res matches Err(e) ==> e matches AppError::BadRequest(m) && m@ == unsupported_type_message(
            content_type@,
        ),
{
    if str_eq(content_type, "image/jpeg") || str_eq(content_type, "image/png") || str_eq(
        content_type,
        "image/gif",
    ) || str_eq(content_type, "image/webp") {
        Ok(())
    } else {
        let head = concat_strs("unsupported image content type '", content_type);
        let message = concat_strs(
            head.as_str(),
            "', expected one of [\"image/jpeg\", \"image/png\", \"image/gif\", \"image/webp\"]",
        );
        Err(AppError::BadRequest(message))
    }
}

/// An `is_default` value that means yes: `true` in any ASCII case, or `1`,
/// once surrounding whitespace is trimmed.
pub open spec fn is_true_flag(t: Seq<char>) -> bool {
    ||| (t.len() == 4 && (t[0] == 't' || t[0] == 'T') && (t[1] == 'r' || t[1] == 'R') && (t[2]
        == 'u' || t[2] == 'U') && (t[3] == 'e' || t[3] == 'E'))
    ||| t == "1"@
}

/// The size cap for an upload: the override, if any, can only lower the
/// bucket's `max_dimension`, never raise it.
pub open spec fn effective_max_dimension(override_value: Option<u32>, bucket_max: u32) -> u32 {
    match override_value {
        Some(o) => if o < bucket_max {
            o
        } else {
            bucket_max
        },
        None => bucket_max,
    }
}

/// The size cap for an upload to a bucket with `bucket_max`.
pub fn max_dimension_for(override_value: Option<u32>, bucket_max: u32) -> (res: u32)
    ensures
        res == effective_max_dimension(override_value, bucket_max),
{
    match override_value {
        Some(o) => if o < bucket_max {
            o
        } else {
            bucket_max
        },
        None => bucket_max,
    }
}

/// An override can only make the output smaller than (or equal to) the
/// bucket's configured limit, never larger; and with a valid bucket and a
/// valid override, the cap stays within `MIN_DIMENSION..=MAX_DIMENSION`.
pub proof fn law_override_only_shrinks(override_value: Option<u32>, bucket_max: u32)
    ensures
        effective_max_dimension(override_value, bucket_max) <= bucket_max,
        override_value matches Some(o) ==> effective_max_dimension(override_value, bucket_max)
            <= o,
        override_value is None ==> effective_max_dimension(override_value, bucket_max)
            == bucket_max,
        valid_dimension(bucket_max) && (override_value matches Some(o) ==> valid_dimension(o))
            ==> valid_dimension(effective_max_dimension(override_value, bucket_max)),
{
}

/// With an override the cap is exactly the smaller of the override and the
/// bucket's limit: it is one of the two and exceeds neither.
pub proof fn law_override_is_the_smaller(o: u32, bucket_max: u32)
    ensures
        effective_max_dimension(Some(o), bucket_max) <= o,
        effective_max_dimension(Some(o), bucket_max) <= bucket_max,
        effective_max_dimension(Some(o), bucket_max) == o || effective_max_dimension(
            Some(o),
            bucket_max,
        ) == bucket_max,
{
}

/// The `is_default` flag says yes for exactly two spellings: `true` with
/// each letter in either case, and `1`. Every other text, such as `on`,
/// `yes` or `false`, says no.
pub proof fn law_true_flag_spellings(t: Seq<char>)
    ensures
        is_true_flag(t) <==> ((t.len() == 4 && forall|i: int|
            0 <= i < 4 ==> #[trigger] t[i] == "true"@[i] || t[i] == "TRUE"@[i]) || t == "1"@),
        is_true_flag(t) ==> t.len() == 4 || t.len() == 1,
{
    reveal_strlit("true");
    reveal_strlit("TRUE");
    reveal_strlit("1");
    if t.len() == 4 && (forall|i: int| 0 <= i < 4 ==> #[trigger] t[i] == "true"@[i] || t[i] == "TRUE"@[i]) {
        assert(t[0] == "true"@[0] || t[0] == "TRUE"@[0]);
        assert(t[1] == "true"@[1] || t[1] == "TRUE"@[1]);
        assert(t[2] == "true"@[2] || t[2] == "TRUE"@[2]);
        assert(t[3] == "true"@[3] || t[3] == "TRUE"@[3]);
    }
    if t == "1"@ {
        assert(t.len() == 1);
    }
}

/// The fields of an upload form read so far.
pub struct UploadForm {
    /// The `bucket` field, if read.
    pub bucket: Option<String>,
    /// The bytes of the `image` field, if read.
    pub image: Option<Vec<u8>>,
    /// The `max_dimension_override` field, if read.
    pub max_dimension_override: Option<u32>,
    /// Whether the `is_default` field said yes.
    pub is_default: bool,
}

/// A complete, validated upload request.
pub struct UploadRequest<'a> {
    /// The bucket to store into.
    pub bucket: &'a BucketConfig,
    /// The uploaded image bytes.
    pub image: Vec<u8>,
    /// The effective size cap.
    pub max_dimension: u32,
    /// Whether the image becomes the bucket's fallback image.
    pub is_default: bool,
}

impl UploadForm {
    /// A form with no field read yet.
    pub fn new() -> (res: UploadForm)
        ensures
            res.bucket is None,
            res.image is None,
            res.max_dimension_override is None,
            !res.is_default,
    {
        UploadForm { bucket: None, image: None, max_dimension_override: None, is_default: false }
    }

    /// Records the `bucket` field (a later one replaces an earlier one).
    pub fn set_bucket(&mut self, text: String)
        ensures
            final(self).bucket == Some(text),
            final(self).image == old(self).image,
            final(self).max_dimension_override == old(self).max_dimension_override,
            final(self).is_default == old(self).is_default,
    {
        self.bucket = Some(text);
    }

    /// Records the bytes of the `image` field, whose content type has been
    /// accepted by [`check_image_content_type`].
    pub fn set_image(&mut self, bytes: Vec<u8>)
        ensures
            final(self).image == Some(bytes),
            final(self).bucket == old(self).bucket,
            final(self).max_dimension_override == old(self).max_dimension_override,
            final(self).is_default == old(self).is_default,
    {
        self.image = Some(bytes);
    }

    /// Validates and records the `max_dimension_override` field: it must be
    /// an unsigned decimal number within `MIN_DIMENSION..=MAX_DIMENSION`.
    /// A refused value leaves the form unchanged.
    pub fn set_max_dimension_override(&mut self, text: &str) -> (res: Result<(), AppError>)
        ensures
            decimal_at_most(text@, u32::MAX as int) is None ==> (res matches Err(
                AppError::BadRequest(m),
            ) && m@ == override_not_a_number_message()),
            decimal_at_most(text@, u32::MAX as int) is Some && !(MIN_DIMENSION <= decimal_at_most(
                text@,
                u32::MAX as int,
            )->0 <= MAX_DIMENSION) ==> (res matches Err(AppError::BadRequest(m)) && m@
                == override_out_of_range_message()),
            decimal_at_most(text@, u32::MAX as int) is Some && MIN_DIMENSION <= decimal_at_most(
                text@,
                u32::MAX as int,
            )->0 <= MAX_DIMENSION ==> res is Ok && final(self).max_dimension_override == Some(
                decimal_at_most(text@, u32::MAX as int)->0 as u32,
            ),
            res is Err ==> final(self).max_dimension_override == old(self).max_dimension_override,
            final(self).bucket == old(self).bucket,
            final(self).image == old(self).image,
            final(self).is_default == old(self).is_default,
    {
        match parse_u32(text) {
            None => Err(AppError::BadRequest(string_of("max_dimension_override must be a positive integer"))),
            Some(value) => {
                if !(MIN_DIMENSION <= value && value <= MAX_DIMENSION) {
                    Err(AppError::BadRequest(string_of("max_dimension_override must be between 16 and 4096")))
                } else {
                    self.max_dimension_override = Some(value);
                    Ok(())
                }
            },
        }
    }

    /// Records the `is_default` field: yes when, trimmed of whitespace, it
    /// is `true` in any ASCII case or `1`.
    pub fn set_is_default(&mut self, text: &str)
        ensures
            final(self).is_default == is_true_flag(trim_ws(text@)),
            final(self).bucket == old(self).bucket,
            final(self).image == old(self).image,
            final(self).max_dimension_override == old(self).max_dimension_override,
    {
        let t = trim(text);
        proof {
            reveal_strlit("1");
        }
        let yes = (t.len() == 4 && (t[0] == 't' || t[0] == 'T') && (t[1] == 'r' || t[1] == 'R') && (
        t[2] == 'u' || t[2] == 'U') && (t[3] == 'e' || t[3] == 'E')) || (t.len() == 1 && t[0]
            == '1');
        proof {
            if t@.len() == 1 && t@[0] == '1' {
                assert(t@ =~= "1"@);
            }
        }
        self.is_default = yes;
    }

    /// Completes the form: the `bucket` and `image` fields are required (in
    /// that order), and the bucket must be configured. The effective size
    /// cap is the bucket's, lowered by the override if one was given.
    pub fn finish<'a>(self, buckets: &'a Buckets) -> (res: Result<UploadRequest<'a>, AppError>)
        ensures
            self.bucket is None ==> (res matches Err(AppError::BadRequest(m)) && m@
                == missing_bucket_message()),
            self.bucket is Some && self.image is None ==> (res matches Err(AppError::BadRequest(m))
                && m@ == missing_image_message()),
            self.bucket is Some && self.image is Some && (forall|i: int|
                0 <= i < buckets@.len() ==> #[trigger] buckets@[i].name != self.bucket->0@) ==> res
                == Err::<UploadRequest<'a>, AppError>(AppError::InvalidBucket),
            self.bucket is Some && self.image is Some && (exists|i: int|
                0 <= i < buckets@.len() && #[trigger] buckets@[i].name == self.bucket->0@) ==> (res matches Ok(r)
                && {
                &&& r.bucket@.name == self.bucket->0@
                &&& exists|i: int| 0 <= i < buckets@.len() && #[trigger] buckets@[i] == r.bucket@
                &&& r.image == self.image->0
                &&& r.max_dimension == effective_max_dimension(
                    self.max_dimension_override,
                    r.bucket.max_dimension,
                )
                &&& r.is_default == self.is_default
            }),
    {
        let bucket = match self.bucket {
            Some(b) => b,
            None => {
                return Err(AppError::BadRequest(string_of("missing bucket field")));
            },
        };
        let image = match self.image {
            Some(i) => i,
            None => {
                return Err(AppError::BadRequest(string_of("missing image field")));
            },
        };
        let config = buckets.get(bucket.as_str())?;
        let max_dimension = max_dimension_for(self.max_dimension_override, config.max_dimension);
        Ok(UploadRequest { bucket: config, image, max_dimension, is_default: self.is_default })
    }
}

/// JSON body returned on a successful upload.
#[derive(Debug, PartialEq, Eq)]
pub enum UploadResponse {
    /// A regular image, stored under a fresh id.
    Image {
        /// Name of the bucket the image was stored in.
        bucket: String,
        /// Identifier assigned to the stored image.
        image_id: String,
        /// Fully-qualified public URL from which the image can be fetched
        /// (`GET /{bucket}/{image_id}`).
        url: String,
    },
    /// The bucket's fallback image, stored when `is_default` is set.
    Default {
        /// Name of the bucket whose fallback image was set.
        bucket: String,
        /// Always `true`.
        default_image: bool,
    },
}

/// Where a processed upload is written, and what the client is answered.
pub struct StoredUpload {
    /// The file the processed image is written to.
    pub path: String,
    /// The response body.
    pub response: UploadResponse,
}

/// The public URL of image `image_id` in bucket `bucket`.
pub open spec fn image_url(public_base_url: Seq<char>, bucket: Seq<char>, image_id: Seq<char>) -> Seq<
    char,
> {
    public_base_url + "/"@ + bucket + "/"@ + image_id
}

/// Where a processed upload to `bucket` goes and what is answered, given
/// the id for a regular image: a fallback image overwrites
/// `{root}/{bucket}/_default.webp`; a regular image is written to
/// `{root}/{bucket}/{image_id}.webp` and answered with its id and URL.
pub fn stored_upload_with_id(
    bucket: &BucketConfig,
    storage_root: &str,
    public_base_url: &str,
    is_default: bool,
    image_id: u128,
) -> (res: StoredUpload)
    ensures
        is_default ==> res.path@ == join_path(join_path(storage_root@, bucket.name@), "_default.webp"@),
        is_default ==> (res.response matches UploadResponse::Default { bucket: b, default_image }
            && b@ == bucket.name@ && default_image),
        !is_default ==> res.path@ == join_path(
            join_path(storage_root@, bucket.name@),
            uuid_hyphenated(image_id) + ".webp"@,
        ),
        !is_default ==> (res.response matches UploadResponse::Image { bucket: b, image_id: id, url }
            && b@ == bucket.name@ && id@ == uuid_hyphenated(image_id) && url@ == image_url(
            public_base_url@,
            bucket.name@,
            uuid_hyphenated(image_id),
        )),
{
    if is_default {
        let path = bucket.default_image_path(storage_root);
        StoredUpload {
            path,
            response: UploadResponse::Default {
                bucket: string_of(bucket.name.as_str()),
                default_image: true,
            },
        }
    } else {
        let path = bucket.image_path(storage_root, image_id);
        let id_text = image_id_text(image_id);
        let a = concat_strs(public_base_url, "/");
        let b = concat_strs(a.as_str(), bucket.name.as_str());
        let c = concat_strs(b.as_str(), "/");
        let url = concat_strs(c.as_str(), id_text.as_str());
        StoredUpload {
            path,
            response: UploadResponse::Image { bucket: string_of(bucket.name.as_str()), image_id: id_text, url },
        }
    }
}

/// `stored` is a place and answer for a processed upload to the bucket
/// named `bucket_name`: a fallback image overwrites
/// `{root}/{bucket}/_default.webp`; a regular image is answered with the
/// lowercase hyphenated text of a version 7 UUID, is written to
/// `{root}/{bucket}/{id}.webp` under that text, and its URL is
/// `{base}/{bucket}/{id}`.
pub open spec fn is_stored_upload(
    bucket_name: Seq<char>,
    storage_root: Seq<char>,
    public_base_url: Seq<char>,
    is_default: bool,
    stored: StoredUpload,
) -> bool {
    if is_default {
        &&& stored.path@ == join_path(join_path(storage_root, bucket_name), "_default.webp"@)
        &&& stored.response matches UploadResponse::Default { bucket: b, default_image }
        &&& b@ == bucket_name
        &&& default_image
    } else {
        &&& stored.response matches UploadResponse::Image { bucket: b, image_id: id, url }
        &&& b@ == bucket_name
        &&& exists|v: u128| #[trigger] uuid_hyphenated(v) == id@ && is_version7(v)
        &&& uuid_text_value(id@) is Some
        &&& stored.path@ == join_path(join_path(storage_root, bucket_name), id@ + ".webp"@)
        &&& url@ == image_url(public_base_url, bucket_name, id@)
    }
}

/// Where a processed upload to `bucket` goes and what is answered; a
/// regular image gets a fresh, time-ordered id. Whatever id is drawn, it
/// is a version 7 UUID, the client is answered with its lowercase
/// hyphenated text, and the file is named after that text.
pub fn stored_upload(
    bucket: &BucketConfig,
    storage_root: &str,
    public_base_url: &str,
    is_default: bool,
) -> (res: StoredUpload)
    ensures
        is_stored_upload(bucket.name@, storage_root@, public_base_url@, is_default, res),
{
    if is_default {
        stored_upload_with_id(bucket, storage_root, public_base_url, true, 0)
    } else {
        let id = new_image_id();
        proof {
            law_image_id_text_round_trip(id);
        }
        stored_upload_with_id(bucket, storage_root, public_base_url, false, id)
    }
}

/// The one file write an accepted upload performs: the processed image
/// `webp` is written to `stored.path`, after which the client is answered
/// with `stored.response`.
pub struct UploadWrite {
    /// Where the image goes and what is answered.
    pub stored: StoredUpload,
    /// The bytes written.
    pub webp: Vec<u8>,
}

/// What a validated upload does once its image has been processed: a
/// processing error refuses the upload with that error and writes
/// nothing; a processed image is written, as `stored_upload` places it,
/// with exactly the processed bytes.
pub fn upload_write(
    request: &UploadRequest,
    processed: Result<Vec<u8>, AppError>,
    storage_root: &str,
    public_base_url: &str,
) -> (res: Result<UploadWrite, AppError>)
    ensures
        processed is Err ==> res == Err::<UploadWrite, AppError>(processed->Err_0),
        processed is Ok ==> (res matches Ok(w) && w.webp == processed->Ok_0 && is_stored_upload(
            request.bucket.name@,
            storage_root@,
            public_base_url@,
            request.is_default,
            w.stored,
        )),
{
    match processed {
        Ok(webp) => {
            let stored = stored_upload(request.bucket, storage_root, public_base_url, request.is_default);
            Ok(UploadWrite { stored, webp })
        },
        Err(e) => Err(e),
    }
}

/// Processes a validated upload's image under its size cap and decides its
/// write: an image that cannot be read or encoded refuses the upload with
/// the [`process_image`] error and writes nothing; otherwise the lossless
/// WebP of the image, capped at `request.max_dimension`, is written where
/// `stored_upload` places it.
pub fn process_upload(request: &UploadRequest, storage_root: &str, public_base_url: &str) -> (res:
    Result<UploadWrite, AppError>)
    ensures
        processed_webp(request.image@, request.max_dimension) is Ok ==> (res matches Ok(w)
            && w.webp@ == processed_webp(request.image@, request.max_dimension)->Ok_0.2
            && is_stored_upload(
            request.bucket.name@,
            storage_root@,
            public_base_url@,
            request.is_default,
            w.stored,
        )),
        processed_webp(request.image@, request.max_dimension) is Err && processed_webp(
            request.image@,
            request.max_dimension,
        )->Err_0.0 ==> (res matches Err(AppError::DecodeError(m)) && m@ == processed_webp(
            request.image@,
            request.max_dimension,
        )->Err_0.1),
        processed_webp(request.image@, request.max_dimension) is Err && !processed_webp(
            request.image@,
            request.max_dimension,
        )->Err_0.0 ==> (res matches Err(AppError::EncodeError(m)) && m@ == processed_webp(
            request.image@,
            request.max_dimension,
        )->Err_0.1),
{
    let processed = process_image(request.image.as_slice(), request.max_dimension);
    upload_write(request, processed, storage_root, public_base_url)
}

} // verus!
