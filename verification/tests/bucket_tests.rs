use media_server::bucket::Bucket;
use media_server::error::AppError;

#[test]
fn bucket_names_round_trip() {
    for b in Bucket::all() {
        assert_eq!(Bucket::from_name(b.as_str()), Ok(b));
        assert_eq!(b.as_str().parse::<Bucket>(), Ok(b));
    }
    assert_eq!(Bucket::Giveaways.as_str(), "giveaways");
    assert_eq!(Bucket::StreamPreviews.as_str(), "stream-previews");
}

#[test]
fn unknown_bucket_names_are_refused() {
    assert_eq!(Bucket::from_name("Giveaways"), Err(AppError::InvalidBucket));
    assert_eq!("".parse::<Bucket>(), Err(AppError::InvalidBucket));
}
