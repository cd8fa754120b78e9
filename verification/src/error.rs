//! The error type of request handling, with the HTTP status and the
//! client-facing message that each error is answered with.

use vstd::prelude::*;

use crate::text::{concat_strs, string_of};

verus! {

/// All error conditions that can occur while handling a request.
///
/// Errors that wrap a failure of an outside library (decoding, encoding,
/// file I/O) carry that failure's message as text.
#[derive(Debug, PartialEq, Eq)]
pub enum AppError {
    /// The `{bucket}` path/form value does not match any configured bucket.
    InvalidBucket,
    /// The `{image_id}` path segment is not a valid UUID.
    InvalidImageId,
    /// The uploaded bytes could not be decoded as a supported image format.
    DecodeError(String),
    /// Re-encoding the decoded image as WebP failed.
    EncodeError(String),
    /// Any other I/O error while reading, writing or removing files.
    Io(String),
    /// The requested image file does not exist.
    NotFound,
    /// Missing or incorrect `Authorization: Bearer <token>` header.
    Unauthorized,
    /// Malformed request; the text is returned to the client.
    BadRequest(String),
}

/// What the library needs to know of a failed file operation.
#[derive(Debug, Clone, Copy, PartialEq, Eq, Structural)]
pub enum IoErrorKind {
    /// The file does not exist.
    NotFound,
    /// Any other failure.
    Other,
}

/// The HTTP status that an error is answered with.
pub open spec fn error_status(e: AppError) -> u16 {
    match e {
        AppError::InvalidBucket => 400,
        AppError::InvalidImageId => 400,
        AppError::DecodeError(_) => 400,
        AppError::EncodeError(_) => 500,
        AppError::Io(_) => 500,
        AppError::NotFound => 404,
        AppError::Unauthorized => 401,
        AppError::BadRequest(_) => 400,
    }
}

/// The message that an error is answered with (the `error` field of the
/// JSON body).
pub open spec fn error_message(e: AppError) -> Seq<char> {
    match e {
        AppError::InvalidBucket => "invalid bucket"@,
        AppError::InvalidImageId => "invalid image id"@,
        AppError::DecodeError(m) => "could not decode image: "@ + m@,
        AppError::EncodeError(m) => "could not encode image: "@ + m@,
        AppError::Io(m) => "io error: "@ + m@,
        AppError::NotFound => "not found"@,
        AppError::Unauthorized => "unauthorized"@,
        AppError::BadRequest(m) => m@,
    }
}

impl AppError {
    /// The error for a failed file operation: a missing file is
    /// [`AppError::NotFound`] (an expected outcome for reads and deletes of
    /// absent images), anything else is [`AppError::Io`].
    pub fn from_io(kind: IoErrorKind, message: String) -> (res: AppError)
        ensures
            kind == IoErrorKind::NotFound ==> res == AppError::NotFound,
            kind == IoErrorKind::Other ==> res == AppError::Io(message),
    {
        match kind {
            IoErrorKind::NotFound => AppError::NotFound,
            IoErrorKind::Other => AppError::Io(message),
        }
    }

    /// The HTTP status code this error is answered with.
    pub fn status_code(&self) -> (res: u16)
        ensures
            res == error_status(*self),
    {
        match self {
            AppError::InvalidBucket => 400,
            AppError::InvalidImageId => 400,
            AppError::DecodeError(_) => 400,
            AppError::EncodeError(_) => 500,
            AppError::Io(_) => 500,
            AppError::NotFound => 404,
            AppError::Unauthorized => 401,
            AppError::BadRequest(_) => 400,
        }
    }

    /// Whether this error is the server's fault (a 5xx status), as opposed
    /// to the client's.
    pub fn is_server_error(&self) -> (res: bool)
        ensures
            res == (500 <= error_status(*self) < 600),
    {
        let status = self.status_code();
        500 <= status && status < 600
    }

    /// The message this error is answered with.
    pub fn message(&self) -> (res: String)
        ensures
            res@ == error_message(*self),
    {
        match self {
            AppError::InvalidBucket => string_of("invalid bucket"),
            AppError::InvalidImageId => string_of("invalid image id"),
            AppError::DecodeError(m) => concat_strs("could not decode image: ", m.as_str()),
            AppError::EncodeError(m) => concat_strs("could not encode image: ", m.as_str()),
            AppError::Io(m) => concat_strs("io error: ", m.as_str()),
            AppError::NotFound => string_of("not found"),
            AppError::Unauthorized => string_of("unauthorized"),
            AppError::BadRequest(m) => string_of(m.as_str()),
        }
    }
}

/// Only encoding and I/O failures are the server's fault; every other error
/// is answered with a 4xx status.
pub proof fn law_client_errors_are_4xx(e: AppError)
    ensures
        (e is EncodeError || e is Io) <==> 500 <= error_status(e) < 600,
        !(e is EncodeError || e is Io) ==> 400 <= error_status(e) < 500,
{
}

} // verus!
