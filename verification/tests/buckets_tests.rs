use media_server::buckets::{
    default_image_file_name, is_valid_name, BucketEntry, BucketProblem, Buckets, BucketsError,
    MAX_DIMENSION, MIN_DIMENSION, SECONDS_PER_DAY,
};
use media_server::error::AppError;

fn entry(name: &str, max_dimension: u32, max_age_days: Option<u64>) -> BucketEntry {
    BucketEntry { name: name.to_string(), max_dimension, max_age_days }
}

fn problem_of(res: Result<Buckets, BucketsError>) -> (BucketProblem, String) {
    match res {
        Err(BucketsError::InvalidBucket { problem, name, .. }) => (problem, name),
        Err(BucketsError::NoBuckets) => panic!("expected an invalid bucket, got NoBuckets"),
        Ok(_) => panic!("expected an invalid bucket, got a configuration"),
    }
}

#[test]
fn valid_names() {
    for n in ["giveaways", "stream-previews", "a", "a1-b2", "0"] {
        assert!(is_valid_name(n), "{n}");
    }
    for n in ["", "-a", "a-", "-", "A", "a_b", "a/b", "..", ".", "é", "a b"] {
        assert!(!is_valid_name(n), "{n}");
    }
}

#[test]
fn loads_the_default_configuration() {
    let buckets = Buckets::from_entries(vec![
        entry("giveaways", 1000, Some(15)),
        entry("stream-previews", 1000, Some(15)),
        entry("permanent-assets", 2000, None),
    ])
    .unwrap();
    let all = buckets.iter();
    assert_eq!(all.len(), 3);
    assert_eq!(all[0].name, "giveaways");
    assert_eq!(all[0].max_age_secs, Some(15 * 86400));
    assert_eq!(all[2].max_age_secs, None);
    assert_eq!(all[2].max_dimension, 2000);
    let g = buckets.get("stream-previews").unwrap();
    assert_eq!(g.name, "stream-previews");
    assert_eq!(g.max_dimension, 1000);
}

#[test]
fn get_unknown_bucket_is_invalid_bucket() {
    let buckets = Buckets::from_entries(vec![entry("giveaways", 1000, None)]).unwrap();
    assert_eq!(buckets.get("nope").err(), Some(AppError::InvalidBucket));
    assert_eq!(buckets.get("Giveaways").err(), Some(AppError::InvalidBucket));
    assert_eq!(buckets.get("").err(), Some(AppError::InvalidBucket));
}

#[test]
fn empty_configuration_is_refused() {
    assert!(matches!(Buckets::from_entries(vec![]), Err(BucketsError::NoBuckets)));
}

#[test]
fn invalid_name_is_refused() {
    let (p, n) = problem_of(Buckets::from_entries(vec![entry("Bad_Name", 1000, None)]));
    assert_eq!(p, BucketProblem::InvalidName);
    assert_eq!(n, "Bad_Name");
}

#[test]
fn dimension_bounds_are_inclusive() {
    assert!(Buckets::from_entries(vec![entry("a", MIN_DIMENSION, None)]).is_ok());
    assert!(Buckets::from_entries(vec![entry("a", MAX_DIMENSION, None)]).is_ok());
    let (p, _) = problem_of(Buckets::from_entries(vec![entry("a", 15, None)]));
    assert_eq!(p, BucketProblem::InvalidMaxDimension);
    match Buckets::from_entries(vec![entry("a", 4097, Some(3))]) {
        Err(BucketsError::InvalidBucket { problem, name, max_dimension, max_age_days }) => {
            assert_eq!(problem, BucketProblem::InvalidMaxDimension);
            assert_eq!(name, "a");
            assert_eq!(max_dimension, 4097);
            assert_eq!(max_age_days, Some(3));
        }
        _ => panic!("expected an invalid bucket"),
    }
}

#[test]
fn zero_max_age_is_refused() {
    let (p, _) = problem_of(Buckets::from_entries(vec![entry("a", 100, Some(0))]));
    assert_eq!(p, BucketProblem::InvalidMaxAge);
}

#[test]
fn overflowing_max_age_is_refused() {
    let largest = u64::MAX / SECONDS_PER_DAY;
    let ok = Buckets::from_entries(vec![entry("a", 100, Some(largest))]).unwrap();
    assert_eq!(ok.iter()[0].max_age_secs, Some(largest * SECONDS_PER_DAY));
    let (p, _) = problem_of(Buckets::from_entries(vec![entry("a", 100, Some(largest + 1))]));
    assert_eq!(p, BucketProblem::MaxAgeTooLarge);
}

#[test]
fn duplicate_name_is_refused() {
    let (p, n) = problem_of(Buckets::from_entries(vec![
        entry("a", 100, None),
        entry("b", 100, None),
        entry("a", 200, Some(1)),
    ]));
    assert_eq!(p, BucketProblem::DuplicateName);
    assert_eq!(n, "a");
}

#[test]
fn first_problem_wins() {
    // Entry 1 has a bad dimension, entry 2 a bad name: entry 1 is reported.
    let (p, n) = problem_of(Buckets::from_entries(vec![
        entry("ok", 100, None),
        entry("dim", 1, None),
        entry("BAD", 100, None),
    ]));
    assert_eq!(p, BucketProblem::InvalidMaxDimension);
    assert_eq!(n, "dim");
    // Within an entry, the name is checked before the dimension.
    let (p, _) = problem_of(Buckets::from_entries(vec![entry("-x", 1, Some(0))]));
    assert_eq!(p, BucketProblem::InvalidName);
}

#[test]
fn storage_layout() {
    let buckets = Buckets::from_entries(vec![entry("giveaways", 1000, None)]).unwrap();
    let b = buckets.get("giveaways").unwrap();
    assert_eq!(b.storage_dir("./storage"), "./storage/giveaways");
    assert_eq!(b.storage_dir("/data/"), "/data/giveaways");
    let id = 0x019eb785_4a32_7f83_b08b_d6fa84cf86c9u128;
    assert_eq!(
        b.image_path("./storage", id),
        "./storage/giveaways/019eb785-4a32-7f83-b08b-d6fa84cf86c9.webp"
    );
    assert_eq!(b.default_image_path("/data"), "/data/giveaways/_default.webp");
    assert_eq!(default_image_file_name(), "_default.webp");
}

#[test]
fn image_paths_are_distinct_children_of_the_bucket_directory() {
    let buckets = Buckets::from_entries(vec![entry("giveaways", 1000, None)]).unwrap();
    let b = buckets.get("giveaways").unwrap();
    let dir = b.storage_dir("/data");
    let ids = [0u128, 1, 0x019eb785_4a32_7f83_b08b_d6fa84cf86c9, u128::MAX];
    let paths: Vec<String> = ids.iter().map(|&id| b.image_path("/data", id)).collect();
    for (i, p) in paths.iter().enumerate() {
        let file = p.strip_prefix(&format!("{dir}/")).unwrap();
        assert_eq!(file.len(), 41);
        assert!(!file.contains('/'));
        assert!(file.ends_with(".webp"));
        assert_ne!(p, &b.default_image_path("/data"));
        for q in &paths[i + 1..] {
            assert_ne!(p, q);
        }
    }
}
