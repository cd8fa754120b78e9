use media_server::buckets::{BucketEntry, Buckets};
use media_server::config::{AppConfig, EnvVars, Settings, SettingsError};

fn vars() -> EnvVars {
    EnvVars {
        bind_addr: None,
        storage_dir: None,
        public_base_url: None,
        max_upload_bytes: None,
        api_token: Some("changeme".to_string()),
        buckets_config_path: None,
        cleanup_interval_secs: None,
    }
}

#[test]
fn defaults_apply_when_unset() {
    let s = Settings::from_env_vars(vars()).unwrap();
    assert_eq!(s.bind_addr, "0.0.0.0:3000");
    assert_eq!(s.storage_dir, "./storage");
    assert_eq!(s.public_base_url, "https://static-media.huge.bot");
    assert_eq!(s.max_upload_bytes, 25 * 1024 * 1024);
    assert_eq!(s.api_token, "changeme");
    assert_eq!(s.buckets_config_path, "./buckets.toml");
    assert_eq!(s.cleanup_interval_secs, 3600);
}

#[test]
fn values_are_taken_from_the_environment() {
    let mut v = vars();
    v.bind_addr = Some("127.0.0.1:8080".to_string());
    v.storage_dir = Some("/data".to_string());
    v.public_base_url = Some("https://media.example/".to_string());
    v.max_upload_bytes = Some("1024".to_string());
    v.buckets_config_path = Some("/etc/media-server/buckets.toml".to_string());
    v.cleanup_interval_secs = Some("60".to_string());
    let s = Settings::from_env_vars(v).unwrap();
    assert_eq!(s.bind_addr, "127.0.0.1:8080");
    assert_eq!(s.storage_dir, "/data");
    assert_eq!(s.public_base_url, "https://media.example");
    assert_eq!(s.max_upload_bytes, 1024);
    assert_eq!(s.buckets_config_path, "/etc/media-server/buckets.toml");
    assert_eq!(s.cleanup_interval_secs, 60);
}

#[test]
fn unparsable_numbers_fall_back_to_defaults() {
    let mut v = vars();
    v.max_upload_bytes = Some("25MB".to_string());
    v.cleanup_interval_secs = Some("-5".to_string());
    let s = Settings::from_env_vars(v).unwrap();
    assert_eq!(s.max_upload_bytes, 26214400);
    assert_eq!(s.cleanup_interval_secs, 3600);
}

#[test]
fn missing_api_token_is_refused() {
    let mut v = vars();
    v.api_token = None;
    assert!(matches!(Settings::from_env_vars(v), Err(SettingsError::MissingApiToken)));
}

#[test]
fn app_config_keeps_settings_and_buckets() {
    let s = Settings::from_env_vars(vars()).unwrap();
    let buckets = Buckets::from_entries(vec![BucketEntry {
        name: "giveaways".to_string(),
        max_dimension: 1000,
        max_age_days: Some(15),
    }])
    .unwrap();
    let c = AppConfig::new(s, buckets);
    assert_eq!(c.api_token, "changeme");
    assert_eq!(c.cleanup_interval_secs, 3600);
    assert!(c.buckets.get("giveaways").is_ok());
}
