use media_server::buckets::{BucketEntry, Buckets};
use media_server::cleanup::{is_cleanup_candidate, is_expired};
use std::path::Path;

#[test]
fn only_webp_files_are_candidates() {
    for name in ["a.webp", "019eb785-4a32-7f83-b08b-d6fa84cf86c9.webp", "_default.webp", "..webp", "a.b.webp"] {
        assert!(is_cleanup_candidate(name), "{name}");
    }
    for name in [".webp", "webp", "a.png", "a.webp.tmp", "a.WEBP", "a.webpx", "", "."] {
        assert!(!is_cleanup_candidate(name), "{name}");
    }
}

#[test]
fn candidates_agree_with_path_extension() {
    for name in ["a.webp", ".webp", "..webp", "a.b.webp", "webp", "x.png", "a..webp", ".a.webp"] {
        let std_says = Path::new(name).extension().and_then(|e| e.to_str()) == Some("webp");
        assert_eq!(is_cleanup_candidate(name), std_says, "{name}");
    }
}

#[test]
fn expiry_is_strict() {
    let day = 86400;
    assert!(!is_expired(day, 0, day));
    assert!(is_expired(day, 1, day));
    assert!(is_expired(day + 1, 0, day));
    assert!(!is_expired(day - 1, 999_999_999, day));
    assert!(!is_expired(0, 0, day));
}

#[test]
fn permanent_buckets_are_not_swept() {
    let buckets = Buckets::from_entries(vec![
        BucketEntry { name: "giveaways".to_string(), max_dimension: 1000, max_age_days: Some(15) },
        BucketEntry { name: "permanent-assets".to_string(), max_dimension: 2000, max_age_days: None },
        BucketEntry { name: "stream-previews".to_string(), max_dimension: 1000, max_age_days: Some(1) },
    ])
    .unwrap();
    let targets = buckets.cleanup_targets("./storage");
    assert_eq!(targets.len(), 2);
    assert_eq!(targets[0].bucket, "giveaways");
    assert_eq!(targets[0].dir, "./storage/giveaways");
    assert_eq!(targets[0].max_age_secs, 15 * 86400);
    assert_eq!(targets[1].bucket, "stream-previews");
    assert_eq!(targets[1].max_age_secs, 86400);
}

#[test]
fn sweeps_remove_only_expired_webp_files() {
    let buckets = Buckets::from_entries(vec![
        BucketEntry { name: "giveaways".to_string(), max_dimension: 1000, max_age_days: Some(1) },
        BucketEntry { name: "permanent-assets".to_string(), max_dimension: 2000, max_age_days: None },
    ])
    .unwrap();
    let targets = buckets.cleanup_targets("/data");
    assert_eq!(targets.len(), 1);
    let t = &targets[0];
    assert_eq!(t.dir, "/data/giveaways");
    assert!(t.should_remove("a.webp", 86400, 1));
    assert!(t.should_remove("a.webp", 90000, 0));
    assert!(!t.should_remove("a.webp", 86400, 0));
    assert!(!t.should_remove("a.webp", 10, 0));
    assert!(!t.should_remove("a.png", 90000, 0));
    assert!(!t.should_remove(".webp", 90000, 0));
    assert!(!t.should_remove("notes.txt", 90000, 0));
}
