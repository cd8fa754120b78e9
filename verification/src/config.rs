//! Application configuration: the defaults and derivations applied to the
//! environment variables read at startup.

use vstd::prelude::*;

use crate::buckets::Buckets;
use crate::text::{decimal_at_most, parse_u64, parse_usize, string_of, trim_end_char, trim_end_matches_char};

verus! {

/// Default listening address (`BIND_ADDR`).
pub open spec fn default_bind_addr() -> Seq<char> {
    "0.0.0.0:3000"@
}

/// Default storage root (`STORAGE_DIR`).
pub open spec fn default_storage_dir() -> Seq<char> {
    "./storage"@
}

/// Default public base URL (`PUBLIC_BASE_URL`).
pub open spec fn default_public_base_url() -> Seq<char> {
    "https://static-media.huge.bot"@
}

/// Default bucket configuration path (`BUCKETS_CONFIG_PATH`).
pub open spec fn default_buckets_config_path() -> Seq<char> {
    "./buckets.toml"@
}

/// Default maximum request body size in bytes (25 MiB).
pub const DEFAULT_MAX_UPLOAD_BYTES: usize = 26214400;

/// Default interval between cleanup passes, in seconds.
pub const DEFAULT_CLEANUP_INTERVAL_SECS: u64 = 3600;

/// The raw values of the environment variables the service reads; `None`
/// where a variable is unset (or not valid Unicode).
pub struct EnvVars {
    pub bind_addr: Option<String>,
    pub storage_dir: Option<String>,
    pub public_base_url: Option<String>,
    pub max_upload_bytes: Option<String>,
    pub api_token: Option<String>,
    pub buckets_config_path: Option<String>,
    pub cleanup_interval_secs: Option<String>,
}

/// Settings derived from the environment, before the bucket
/// configuration is loaded.
pub struct Settings {
    /// Address the HTTP server listens on.
    pub bind_addr: String,
    /// Root directory under which each bucket gets its own subdirectory.
    pub storage_dir: String,
    /// Base URL used to build the `url` field in upload responses, with
    /// any trailing slash stripped.
    pub public_base_url: String,
    /// Maximum accepted request body size in bytes.
    pub max_upload_bytes: usize,
    /// Bearer token required to call `/upload` and `DELETE`.
    pub api_token: String,
    /// Path of the bucket configuration file.
    pub buckets_config_path: String,
    /// How often the cleanup pass runs, in seconds.
    pub cleanup_interval_secs: u64,
}

/// Why the environment cannot configure the service.
#[derive(Debug, Clone, Copy, PartialEq, Eq, Structural)]
pub enum SettingsError {
    /// `API_TOKEN` is not set: the server must not run without it.
    MissingApiToken,
}

/// The value of a variable, or `default` when it is unset.
pub open spec fn or_default(v: Option<String>, default: Seq<char>) -> Seq<char> {
    match v {
        Some(s) => s@,
        None => default,
    }
}

/// A variable read as a number no larger than `max`, or `default` when it
/// is unset or not such a number.
pub open spec fn number_or_default(v: Option<String>, max: int, default: int) -> int {
    match v {
        Some(s) => match decimal_at_most(s@, max) {
            Some(n) => n,
            None => default,
        },
        None => default,
    }
}

fn string_or_default(v: Option<String>, default: &str) -> (res: String)
    ensures
        res@ == or_default(v, default@),
{
    match v {
        Some(s) => s,
        None => string_of(default),
    }
}

impl Settings {
    /// Derives the settings from the environment: the listening address,
    /// storage root and bucket configuration path default when unset; the
    /// public base URL defaults too and loses its trailing slashes; the
    /// body limit and cleanup interval default when unset or not a
    /// number; the API token is required.
    pub fn from_env_vars(vars: EnvVars) -> (res: Result<Settings, SettingsError>)
        ensures
            vars.api_token is None ==> res == Err::<Settings, SettingsError>(SettingsError::MissingApiToken),
            vars.api_token matches Some(token) ==> res matches Ok(s) && {
                &&& s.bind_addr@ == or_default(vars.bind_addr, default_bind_addr())
                &&& s.storage_dir@ == or_default(vars.storage_dir, default_storage_dir())
                &&& s.public_base_url@ == trim_end_char(
                    or_default(vars.public_base_url, default_public_base_url()),
                    '/',
                )
                &&& s.max_upload_bytes as int == number_or_default(
                    vars.max_upload_bytes,
                    usize::MAX as int,
                    DEFAULT_MAX_UPLOAD_BYTES as int,
                )
                &&& s.api_token@ == token@
                &&& s.buckets_config_path@ == or_default(
                    vars.buckets_config_path,
                    default_buckets_config_path(),
                )
                &&& s.cleanup_interval_secs as int == number_or_default(
                    vars.cleanup_interval_secs,
                    u64::MAX as int,
                    DEFAULT_CLEANUP_INTERVAL_SECS as int,
                )
            },
    {
        let api_token = match vars.api_token {
            Some(t) => t,
            None => {
                return Err(SettingsError::MissingApiToken);
            },
        };
        let bind_addr = string_or_default(vars.bind_addr, "0.0.0.0:3000");
        let storage_dir = string_or_default(vars.storage_dir, "./storage");
        let base = string_or_default(vars.public_base_url, "https://static-media.huge.bot");
        let public_base_url = trim_end_matches_char(base.as_str(), '/');
        let max_upload_bytes = match vars.max_upload_bytes {
            Some(v) => match parse_usize(v.as_str()) {
                Some(n) => n,
                None => DEFAULT_MAX_UPLOAD_BYTES,
            },
            None => DEFAULT_MAX_UPLOAD_BYTES,
        };
        let buckets_config_path = string_or_default(vars.buckets_config_path, "./buckets.toml");
        let cleanup_interval_secs = match vars.cleanup_interval_secs {
            Some(v) => match parse_u64(v.as_str()) {
                Some(n) => n,
                None => DEFAULT_CLEANUP_INTERVAL_SECS,
            },
            None => DEFAULT_CLEANUP_INTERVAL_SECS,
        };
        Ok(
            Settings {
                bind_addr,
                storage_dir,
                public_base_url,
                max_upload_bytes,
                api_token,
                buckets_config_path,
                cleanup_interval_secs,
            },
        )
    }
}

/// Shared, read-only application configuration.
pub struct AppConfig {
    /// Address the HTTP server listens on.
    pub bind_addr: String,
    /// Root directory under which each bucket gets its own subdirectory.
    pub storage_dir: String,
    /// Base URL used to build the `url` field in upload responses, with no
    /// trailing slash.
    pub public_base_url: String,
    /// Maximum accepted request body size in bytes.
    pub max_upload_bytes: usize,
    /// Bearer token required to call `/upload` and `DELETE`.
    pub api_token: String,
    /// Per-bucket configuration.
    pub buckets: Buckets,
    /// How often the cleanup pass sweeps each bucket, in seconds.
    pub cleanup_interval_secs: u64,
}

impl AppConfig {
    /// The configuration made of the settings and the loaded buckets.
    pub fn new(settings: Settings, buckets: Buckets) -> (res: AppConfig)
        ensures
            res.bind_addr == settings.bind_addr,
            res.storage_dir == settings.storage_dir,
            res.public_base_url == settings.public_base_url,
            res.max_upload_bytes == settings.max_upload_bytes,
            res.api_token == settings.api_token,
            res.buckets == buckets,
            res.cleanup_interval_secs == settings.cleanup_interval_secs,
    {
        AppConfig {
            bind_addr: settings.bind_addr,
            storage_dir: settings.storage_dir,
            public_base_url: settings.public_base_url,
            max_upload_bytes: settings.max_upload_bytes,
            api_token: settings.api_token,
            buckets,
            cleanup_interval_secs: settings.cleanup_interval_secs,
        }
    }
}

/// The public base URL never ends with `/`, so `{base}/{bucket}/{id}` has
/// exactly one `/` after the base.
pub proof fn law_base_url_has_no_trailing_slash(s: Seq<char>)
    ensures
        trim_end_char(s, '/').len() == 0 || trim_end_char(s, '/').last() != '/',
    decreases s.len(),
{
    if s.len() > 0 && s.last() == '/' {
        law_base_url_has_no_trailing_slash(s.drop_last());
    }
}

} // verus!
