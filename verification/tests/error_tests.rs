use media_server::error::{AppError, IoErrorKind};

#[test]
fn statuses_and_messages() {
    let cases = [
        (AppError::InvalidBucket, 400, "invalid bucket"),
        (AppError::InvalidImageId, 400, "invalid image id"),
        (AppError::DecodeError("bad magic".to_string()), 400, "could not decode image: bad magic"),
        (AppError::EncodeError("too big".to_string()), 500, "could not encode image: too big"),
        (AppError::Io("disk full".to_string()), 500, "io error: disk full"),
        (AppError::NotFound, 404, "not found"),
        (AppError::Unauthorized, 401, "unauthorized"),
        (AppError::BadRequest("missing image field".to_string()), 400, "missing image field"),
    ];
    for (e, status, message) in cases {
        assert_eq!(e.status_code(), status, "{e:?}");
        assert_eq!(e.message(), message, "{e:?}");
        assert_eq!(e.is_server_error(), status >= 500, "{e:?}");
    }
}

#[test]
fn io_errors_map_not_found_to_404() {
    assert_eq!(AppError::from_io(IoErrorKind::NotFound, "gone".to_string()), AppError::NotFound);
    assert_eq!(
        AppError::from_io(IoErrorKind::Other, "permission denied".to_string()),
        AppError::Io("permission denied".to_string())
    );
}
