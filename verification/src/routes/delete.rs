//! `DELETE /{bucket}/{image_id}`: which file to remove, and how the result
//! of removing it is answered.

use vstd::prelude::*;

use crate::buckets::Buckets;
use crate::error::{AppError, IoErrorKind};
use crate::image_id::{parse_image_id, uuid_hyphenated, uuid_text_value};
use crate::text::join_path;

verus! {

/// The file that `DELETE /{bucket}/{image_id}` removes:
/// `{storage_root}/{bucket}/{image_id}.webp`. The bucket is checked
/// before the id; an unknown bucket is [`AppError::InvalidBucket`] and an
/// id that is not a UUID is [`AppError::InvalidImageId`].
pub fn delete_target(buckets: &Buckets, storage_root: &str, bucket: &str, image_id: &str) -> (res:
    Result<String, AppError>)
    ensures
        (forall|i: int| 0 <= i < buckets@.len() ==> #[trigger] buckets@[i].name != bucket@) ==> res
            == Err::<String, AppError>(AppError::InvalidBucket),
        (exists|i: int| 0 <= i < buckets@.len() && #[trigger] buckets@[i].name == bucket@)
            && uuid_text_value(image_id@) is None ==> res == Err::<String, AppError>(
            AppError::InvalidImageId,
        ),
        (exists|i: int| 0 <= i < buckets@.len() && #[trigger] buckets@[i].name == bucket@)
            && uuid_text_value(image_id@) is Some ==> (res matches Ok(path) && path@ == join_path(
            join_path(storage_root@, bucket@),
            uuid_hyphenated(uuid_text_value(image_id@)->0) + ".webp"@,
        )),
{
    let config = buckets.get(bucket)?;
    let id = parse_image_id(image_id)?;
    Ok(config.image_path(storage_root, id))
}

/// How a removal is answered, given how it failed (`None` when it
/// succeeded): `204 No Content` on success, and also when the file does
/// not exist, so that deleting is idempotent; any other failure is an
/// [`AppError::Io`].
pub open spec fn delete_answer(failure: Option<(IoErrorKind, String)>) -> Result<u16, AppError> {
    match failure {
        None => Ok(204),
        Some((IoErrorKind::NotFound, _)) => Ok(204),
        Some((IoErrorKind::Other, message)) => Err(AppError::Io(message)),
    }
}

/// The answer to a removal, given how removing the file failed.
pub fn delete_outcome(failure: Option<(IoErrorKind, String)>) -> (res: Result<u16, AppError>)
    ensures
        res == delete_answer(failure),
{
    match failure {
        None => Ok(204),
        Some((IoErrorKind::NotFound, _)) => Ok(204),
        Some((IoErrorKind::Other, message)) => Err(AppError::from_io(IoErrorKind::Other, message)),
    }
}

/// Deleting is idempotent: removing an image that is already gone is
/// answered exactly as removing it was.
pub proof fn law_delete_is_idempotent(message: String)
    ensures
        delete_answer(Some((IoErrorKind::NotFound, message))) == delete_answer(None),
        delete_answer(None) == Ok::<u16, AppError>(204),
{
}

} // verus!
