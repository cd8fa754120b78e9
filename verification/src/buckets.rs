//! Bucket configuration: validation of the configured entries, lookup by
//! name, and the storage layout of each bucket.
//!
//! Each bucket controls two things for the images stored in it:
//! - [`BucketConfig::max_dimension`]: the maximum size (in pixels) of the
//!   longest side after resizing on upload.
//! - [`BucketConfig::max_age_secs`]: how long files live before the
//!   cleanup pass removes them. `None` means the bucket is permanent.

use vstd::prelude::*;

use crate::error::AppError;
use crate::image_id::{image_id_text, law_image_id_text_round_trip, uuid_hyphenated, uuid_text_value};
use crate::text::{chars_eq, chars_of, concat_strs, join, join_path};

verus! {

/// Smallest accepted value for `max_dimension` and `max_dimension_override`.
pub const MIN_DIMENSION: u32 = 16;

/// Largest accepted value for `max_dimension` and `max_dimension_override`.
pub const MAX_DIMENSION: u32 = 4096;

/// Number of seconds in a day, the unit of `max_age_days`.
pub const SECONDS_PER_DAY: u64 = 86400;

/// A raw, unvalidated `[[bucket]]` entry of the bucket configuration.
#[derive(Debug)]
pub struct BucketEntry {
    /// The bucket's name.
    pub name: String,
    /// Maximum length, in pixels, of the longest side of stored images.
    pub max_dimension: u32,
    /// Lifetime in days. Absent means the bucket is permanent.
    pub max_age_days: Option<u64>,
}

/// Validated configuration for a single bucket.
#[derive(Debug)]
pub struct BucketConfig {
    /// Bucket name. Used as the storage subdirectory name and as the
    /// `{bucket}` path segment in routes.
    pub name: String,
    /// Maximum length, in pixels, of the longest side of stored images.
    pub max_dimension: u32,
    /// How long, in seconds, files in this bucket live before cleanup
    /// removes them. `None` means the bucket is permanent.
    pub max_age_secs: Option<u64>,
}

/// The mathematical content of a [`BucketConfig`].
pub struct BucketModel {
    pub name: Seq<char>,
    pub max_dimension: u32,
    pub max_age_secs: Option<u64>,
}

impl View for BucketConfig {
    type V = BucketModel;

    open spec fn view(&self) -> BucketModel {
        BucketModel {
            name: self.name@,
            max_dimension: self.max_dimension,
            max_age_secs: self.max_age_secs,
        }
    }
}

/// A character allowed in a bucket name.
pub open spec fn is_name_char(c: char) -> bool {
    ('a' <= c && c <= 'z') || ('0' <= c && c <= '9') || c == '-'
}

/// A bucket name that is safe as a single filesystem path component:
/// lowercase ASCII letters, digits and hyphens only, non-empty, and not
/// starting or ending with a hyphen.
pub open spec fn valid_bucket_name(s: Seq<char>) -> bool {
    &&& s.len() > 0
    &&& s[0] != '-'
    &&& s.last() != '-'
    &&& forall|i: int| 0 <= i < s.len() ==> is_name_char(#[trigger] s[i])
}

/// A `max_dimension` within `MIN_DIMENSION..=MAX_DIMENSION`.
pub open spec fn valid_dimension(d: u32) -> bool {
    MIN_DIMENSION <= d && d <= MAX_DIMENSION
}

/// What can be wrong with a configured bucket.
#[derive(Debug, Clone, Copy, PartialEq, Eq, Structural)]
pub enum BucketProblem {
    /// The name is empty, holds a character other than a lowercase ASCII
    /// letter, a digit or a hyphen, or starts or ends with a hyphen.
    InvalidName,
    /// `max_dimension` is outside `MIN_DIMENSION..=MAX_DIMENSION`.
    InvalidMaxDimension,
    /// `max_age_days` is present but `0`.
    InvalidMaxAge,
    /// `max_age_days` is so large that its number of seconds does not fit
    /// in a `u64`.
    MaxAgeTooLarge,
    /// An earlier entry has the same name.
    DuplicateName,
}

/// Why a bucket configuration was refused.
#[derive(Debug, PartialEq, Eq)]
pub enum BucketsError {
    /// The configuration defines no bucket at all.
    NoBuckets,
    /// The first entry that is wrong, what is wrong with it, and its values.
    InvalidBucket {
        problem: BucketProblem,
        name: String,
        max_dimension: u32,
        max_age_days: Option<u64>,
    },
}

/// What is wrong with an entry by itself, checked in this order: name,
/// `max_dimension`, `max_age_days`.
pub open spec fn entry_problem(name: Seq<char>, max_dimension: u32, max_age_days: Option<u64>) -> Option<
    BucketProblem,
> {
    if !valid_bucket_name(name) {
        Some(BucketProblem::InvalidName)
    } else if !valid_dimension(max_dimension) {
        Some(BucketProblem::InvalidMaxDimension)
    } else if max_age_days == Some(0u64) {
        Some(BucketProblem::InvalidMaxAge)
    } else if max_age_days is Some && max_age_days->0 * SECONDS_PER_DAY > u64::MAX {
        Some(BucketProblem::MaxAgeTooLarge)
    } else {
        None
    }
}

/// What is wrong with entry `i` of `entries`, given the entries before it.
pub open spec fn problem_at(entries: Seq<BucketEntry>, i: int) -> Option<BucketProblem> {
    match entry_problem(entries[i].name@, entries[i].max_dimension, entries[i].max_age_days) {
        Some(p) => Some(p),
        None => if exists|j: int| 0 <= j < i && #[trigger] entries[j].name@ == entries[i].name@ {
            Some(BucketProblem::DuplicateName)
        } else {
            None
        },
    }
}

/// Entry `i` is the first one that is wrong.
pub open spec fn is_first_problem(entries: Seq<BucketEntry>, i: int) -> bool {
    &&& 0 <= i < entries.len()
    &&& problem_at(entries, i) is Some
    &&& forall|j: int| 0 <= j < i ==> #[trigger] problem_at(entries, j) is None
}

/// The lifetime in seconds of a bucket with lifetime `max_age_days` days.
pub open spec fn max_age_secs_of(max_age_days: Option<u64>) -> Option<u64> {
    match max_age_days {
        Some(d) => Some((d * SECONDS_PER_DAY) as u64),
        None => None,
    }
}

/// The bucket that a valid entry configures.
pub open spec fn model_of_entry(e: BucketEntry) -> BucketModel {
    BucketModel {
        name: e.name@,
        max_dimension: e.max_dimension,
        max_age_secs: max_age_secs_of(e.max_age_days),
    }
}

/// What every set of configured buckets satisfies: valid, distinct names,
/// dimensions in range, and lifetimes of whole days, at least one.
pub open spec fn buckets_wf(bs: Seq<BucketModel>) -> bool {
    &&& forall|i: int| 0 <= i < bs.len() ==> valid_bucket_name(#[trigger] bs[i].name)
    &&& forall|i: int| 0 <= i < bs.len() ==> valid_dimension(#[trigger] bs[i].max_dimension)
    &&& forall|i: int|
        0 <= i < bs.len() && (#[trigger] bs[i].max_age_secs) is Some ==> bs[i].max_age_secs->0
            >= SECONDS_PER_DAY && bs[i].max_age_secs->0 % SECONDS_PER_DAY == 0
    &&& forall|i: int, j: int|
        0 <= i < bs.len() && 0 <= j < bs.len() && i != j ==> #[trigger] bs[i].name
            != #[trigger] bs[j].name
}

/// Whether `s` is a valid bucket name.
pub fn is_valid_name(name: &str) -> (res: bool)
    ensures
        res == valid_bucket_name(name@),
{
    let cs = chars_of(name);
    let n = cs.len();
    if n == 0 || cs[0] == '-' || cs[n - 1] == '-' {
        return false;
    }
    let mut i: usize = 0;
    while i < n
        invariant
            i <= n,
            n == cs@.len(),
            cs@ == name@,
            forall|j: int| 0 <= j < i ==> is_name_char(#[trigger] cs@[j]),
        decreases n - i,
    {
        let c = cs[i];
        if !(('a' <= c && c <= 'z') || ('0' <= c && c <= '9') || c == '-') {
            assert(!is_name_char(cs@[i as int]));
            return false;
        }
        i += 1;
    }
    true
}

/// What is wrong with an entry by itself, if anything.
fn check_entry(entry: &BucketEntry) -> (res: Option<BucketProblem>)
    ensures
        res == entry_problem(entry.name@, entry.max_dimension, entry.max_age_days),
{
    if !is_valid_name(entry.name.as_str()) {
        return Some(BucketProblem::InvalidName);
    }
    if !(MIN_DIMENSION <= entry.max_dimension && entry.max_dimension <= MAX_DIMENSION) {
        return Some(BucketProblem::InvalidMaxDimension);
    }
    match entry.max_age_days {
        Some(days) => {
            if days == 0 {
                Some(BucketProblem::InvalidMaxAge)
            } else if days > u64::MAX / SECONDS_PER_DAY {
                Some(BucketProblem::MaxAgeTooLarge)
            } else {
                None
            }
        },
        None => None,
    }
}

/// All configured buckets, in the order in which they were configured.
///
/// Built once at startup via [`Buckets::from_entries`] and shared
/// read-only afterwards. Lookup by name is a linear scan over a handful of
/// entries; the type invariant keeps names distinct, so each name
/// identifies one bucket as a map keyed by name would, and the lookup's
/// result is proved against the sequence of buckets.
pub struct Buckets {
    configs: Vec<BucketConfig>,
}

impl View for Buckets {
    type V = Seq<BucketModel>;

    closed spec fn view(&self) -> Seq<BucketModel> {
        self.configs@.map_values(|c: BucketConfig| c@)
    }
}

impl Buckets {
    #[verifier::type_invariant]
    closed spec fn inv(self) -> bool {
        buckets_wf(self@)
    }

    /// Validates the configured entries and builds the bucket set.
    ///
    /// Refuses a configuration that defines zero buckets, and otherwise
    /// reports the first entry that is wrong (see [`problem_at`]): a bad
    /// name, a `max_dimension` out of range, a `max_age_days` of `0` (or
    /// one whose number of seconds overflows), or a name that an earlier
    /// entry already has. An invalid configuration should prevent the
    /// server from starting rather than fail later at request time.
    pub fn from_entries(entries: Vec<BucketEntry>) -> (res: Result<Buckets, BucketsError>)
        ensures
            entries@.len() == 0 ==> res == Err::<Buckets, BucketsError>(BucketsError::NoBuckets),
            entries@.len() > 0 && (forall|i: int|
                0 <= i < entries@.len() ==> #[trigger] problem_at(entries@, i) is None) ==> {
                &&& res is Ok
                &&& res->Ok_0@ == entries@.map_values(|e: BucketEntry| model_of_entry(e))
            },
            forall|i: int| #[trigger]
                is_first_problem(entries@, i) ==> {
                    &&& res matches Err(BucketsError::InvalidBucket { problem, name, max_dimension, max_age_days })
                    &&& Some(problem) == problem_at(entries@, i)
                    &&& name@ == entries@[i].name@
                    &&& max_dimension == entries@[i].max_dimension
                    &&& max_age_days == entries@[i].max_age_days
                },
            res matches Ok(b) ==> buckets_wf(b@),
    {
        if entries.len() == 0 {
            return Err(BucketsError::NoBuckets);
        }
        let mut configs: Vec<BucketConfig> = Vec::new();
        let mut i: usize = 0;
        while i < entries.len()
            invariant
                i <= entries@.len(),
                configs@.len() == i,
                forall|k: int| 0 <= k < i ==> #[trigger] problem_at(entries@, k) is None,
                forall|k: int|
                    0 <= k < i ==> (#[trigger] configs@[k])@ == model_of_entry(entries@[k]),
                buckets_wf(configs@.map_values(|c: BucketConfig| c@)),
            decreases entries@.len() - i,
        {
            let entry = &entries[i];
            let problem = check_entry(entry);
            let ghost es = entries@;
            match problem {
                Some(p) => {
                    assert(problem_at(es, i as int) == Some(p));
                    assert(is_first_problem(es, i as int));
                    proof {
                        assert forall|k: int| #[trigger] is_first_problem(es, k) implies k == i by {
                            if k < i {
                            } else if k > i {
                                assert(problem_at(es, i as int) is None);
                            }
                        }
                    }
                    return Err(
                        BucketsError::InvalidBucket {
                            problem: p,
                            name: entry.name.clone(),
                            max_dimension: entry.max_dimension,
                            max_age_days: entry.max_age_days,
                        },
                    );
                },
                None => {},
            }
            // Look for an earlier bucket with the same name.
            let name_chars = chars_of(entry.name.as_str());
            let mut j: usize = 0;
            while j < configs.len()
                invariant
                    j <= configs@.len(),
                    configs@.len() == i,
                    i < entries@.len(),
                    es == entries@,
                    *entry == entries@[i as int],
                    name_chars@ == entries@[i as int].name@,
                    entry_problem(entries@[i as int].name@, entries@[i as int].max_dimension, entries@[i as int].max_age_days) is None,
                    forall|k: int| 0 <= k < i ==> #[trigger] problem_at(entries@, k) is None,
                    forall|k: int|
                        0 <= k < i ==> (#[trigger] configs@[k])@ == model_of_entry(entries@[k]),
                    forall|k: int| 0 <= k < j ==> entries@[k].name@ != entries@[i as int].name@,
                decreases configs@.len() - j,
            {
                let other = chars_of(configs[j].name.as_str());
                if chars_eq(&other, &name_chars) {
                    let ghost jj = j as int;
                    assert(configs@[jj]@ == model_of_entry(entries@[jj]));
                    assert(entries@[jj].name@ == entries@[i as int].name@);
                    assert(problem_at(es, i as int) == Some(BucketProblem::DuplicateName));
                    assert(is_first_problem(es, i as int));
                    proof {
                        assert forall|k: int| #[trigger] is_first_problem(es, k) implies k == i by {
                            if k > i {
                                assert(problem_at(es, i as int) is None);
                            }
                        }
                    }
                    return Err(
                        BucketsError::InvalidBucket {
                            problem: BucketProblem::DuplicateName,
                            name: entry.name.clone(),
                            max_dimension: entry.max_dimension,
                            max_age_days: entry.max_age_days,
                        },
                    );
                }
                proof {
                    assert(configs@[j as int]@ == model_of_entry(entries@[j as int]));
                }
                j += 1;
            }
            assert(problem_at(es, i as int) is None);
            let max_age_secs = match entry.max_age_days {
                Some(days) => Some(days * SECONDS_PER_DAY),
                None => None,
            };
            let config = BucketConfig {
                name: entry.name.clone(),
                max_dimension: entry.max_dimension,
                max_age_secs,
            };
            let ghost before = configs@.map_values(|c: BucketConfig| c@);
            configs.push(config);
            proof {
                let after = configs@.map_values(|c: BucketConfig| c@);
                assert(after =~= before.push(config@));
                assert(config@ == model_of_entry(entries@[i as int]));
                assert forall|a: int, b: int|
                    0 <= a < after.len() && 0 <= b < after.len() && a != b implies #[trigger] after[a].name
                    != #[trigger] after[b].name by {
                    if a == i {
                        assert(after[b] == model_of_entry(entries@[b]));
                    } else if b == i {
                        assert(after[a] == model_of_entry(entries@[a]));
                    } else {
                        assert(after[a] == before[a]);
                        assert(after[b] == before[b]);
                    }
                }
                assert forall|a: int| 0 <= a < after.len() implies valid_bucket_name(
                    #[trigger] after[a].name,
                ) by {
                    if a < i {
                        assert(after[a] == before[a]);
                    }
                }
                assert forall|a: int| 0 <= a < after.len() implies valid_dimension(
                    #[trigger] after[a].max_dimension,
                ) by {
                    if a < i {
                        assert(after[a] == before[a]);
                    }
                }
                assert forall|a: int|
                    0 <= a < after.len() && (#[trigger] after[a].max_age_secs) is Some implies after[a].max_age_secs->0
                        >= SECONDS_PER_DAY && after[a].max_age_secs->0 % SECONDS_PER_DAY == 0 by {
                    if a < i {
                        assert(after[a] == before[a]);
                    } else {
                        let d = entries@[i as int].max_age_days->0;
                        assert(d >= 1);
                        assert((d * SECONDS_PER_DAY) % (SECONDS_PER_DAY as int) == 0) by (nonlinear_arith)
                            requires d >= 1;
                        assert(d * SECONDS_PER_DAY >= SECONDS_PER_DAY) by (nonlinear_arith)
                            requires d >= 1;
                    }
                }
            }
            i += 1;
        }
        let res = Buckets { configs };
        proof {
            assert(res@ =~= entries@.map_values(|e: BucketEntry| model_of_entry(e)));
            assert forall|k: int| #[trigger] is_first_problem(entries@, k) implies false by {
                assert(problem_at(entries@, k) is None);
            }
        }
        Ok(res)
    }

    /// Looks up a bucket by name.
    ///
    /// Returns [`AppError::InvalidBucket`] if no bucket with that name is
    /// configured. Route handlers use this both to validate the `{bucket}`
    /// path/form segment and to obtain the canonical [`BucketConfig`].
    pub fn get(&self, name: &str) -> (res: Result<&BucketConfig, AppError>)
        ensures
            buckets_wf(self@),
            res is Ok <==> exists|i: int| 0 <= i < self@.len() && #[trigger] self@[i].name == name@,
            res matches Ok(c) ==> c@.name == name@ && exists|i: int|
                0 <= i < self@.len() && #[trigger] self@[i] == c@,
            res matches Err(e) ==> e == AppError::InvalidBucket,
    {
        proof {
            use_type_invariant(self);
        }
        let wanted = chars_of(name);
        let mut i: usize = 0;
        while i < self.configs.len()
            invariant
                i <= self.configs@.len(),
                self@ == self.configs@.map_values(|c: BucketConfig| c@),
                wanted@ == name@,
                buckets_wf(self@),
                forall|k: int| 0 <= k < i ==> #[trigger] self@[k].name != name@,
            decreases self.configs@.len() - i,
        {
            let here = chars_of(self.configs[i].name.as_str());
            if chars_eq(&here, &wanted) {
                assert(self@[i as int] == self.configs@[i as int]@);
                assert(self@[i as int].name == name@);
                return Ok(&self.configs[i]);
            }
            assert(self@[i as int] == self.configs@[i as int]@);
            i += 1;
        }
        Err(AppError::InvalidBucket)
    }

    /// All configured buckets, in configuration order.
    ///
    /// Used at startup to create storage directories and by the cleanup
    /// pass to sweep each bucket independently.
    pub fn iter(&self) -> (res: &[BucketConfig])
        ensures
            buckets_wf(self@),
            res@.map_values(|c: BucketConfig| c@) == self@,
    {
        proof {
            use_type_invariant(self);
        }
        self.configs.as_slice()
    }
}

/// An entry is judged on its own values alone. Its name is refused exactly
/// when it is empty, starts or ends with `-`, or holds a character other
/// than `a`-`z`, `0`-`9` and `-` (so `season-2` passes); with a good name,
/// `max_dimension` is refused exactly when it lies outside `16..=4096`;
/// with both good, a lifetime is refused exactly when it is `0` days or
/// its seconds overflow a `u64`; and an entry with a good name and
/// dimension and no lifetime, or a lifetime of at least one day whose
/// seconds fit in a `u64`, has nothing wrong.
pub proof fn law_entry_checks(name: Seq<char>, max_dimension: u32, max_age_days: Option<u64>)
    ensures
        ({
            let good_name = name.len() > 0 && name[0] != '-' && name[name.len() - 1] != '-'
                && forall|i: int|
                0 <= i < name.len() ==> ('a' <= #[trigger] name[i] && name[i] <= 'z') || ('0'
                    <= name[i] && name[i] <= '9') || name[i] == '-';
            &&& entry_problem(name, max_dimension, max_age_days) == Some(BucketProblem::InvalidName)
                <==> !good_name
            &&& good_name ==> (entry_problem(name, max_dimension, max_age_days) == Some(
                BucketProblem::InvalidMaxDimension) <==> !(16 <= max_dimension && max_dimension
                <= 4096))
            &&& (good_name && 16 <= max_dimension && max_dimension <= 4096) ==> (entry_problem(
                name,
                max_dimension,
                max_age_days,
            ) == Some(BucketProblem::InvalidMaxAge) <==> max_age_days == Some(0u64))
            &&& (good_name && 16 <= max_dimension && max_dimension <= 4096) ==> (entry_problem(
                name,
                max_dimension,
                max_age_days,
            ) == Some(BucketProblem::MaxAgeTooLarge) <==> (max_age_days is Some
                && max_age_days->0 > u64::MAX / 86400))
            &&& (good_name && 16 <= max_dimension && max_dimension <= 4096 && (max_age_days is None
                || (1 <= max_age_days->0 && max_age_days->0 <= u64::MAX / 86400))) ==> entry_problem(
                name,
                max_dimension,
                max_age_days,
            ) is None
        }),
{
    let good_name = name.len() > 0 && name[0] != '-' && name[name.len() - 1] != '-' && forall|i: int|
        0 <= i < name.len() ==> ('a' <= #[trigger] name[i] && name[i] <= 'z') || ('0' <= name[i]
            && name[i] <= '9') || name[i] == '-';
    assert(good_name <==> valid_bucket_name(name)) by {
        if good_name {
            assert forall|i: int| 0 <= i < name.len() implies is_name_char(#[trigger] name[i]) by {}
        }
        if valid_bucket_name(name) {
            assert forall|i: int| 0 <= i < name.len() implies ('a' <= #[trigger] name[i] && name[i]
                <= 'z') || ('0' <= name[i] && name[i] <= '9') || name[i] == '-' by {
                assert(is_name_char(name[i]));
            }
        }
    }
    if max_age_days is Some {
        let a = max_age_days->0;
        assert(a * 86400 <= u64::MAX <==> a <= u64::MAX / 86400) by (nonlinear_arith);
    }
}

/// Within a valid configuration, names identify buckets: two buckets with
/// the same name are the same bucket.
pub proof fn law_names_identify_buckets(bs: Seq<BucketModel>, i: int, j: int)
    requires
        buckets_wf(bs),
        0 <= i < bs.len(),
        0 <= j < bs.len(),
        bs[i].name == bs[j].name,
    ensures
        i == j,
{
}

/// A valid bucket name is a single, safe path component: it holds no `/`,
/// and it is neither `.` nor `..`, so the bucket's directory is always a
/// direct child of the storage root.
pub proof fn law_valid_name_is_safe_component(name: Seq<char>)
    requires
        valid_bucket_name(name),
    ensures
        name.len() > 0,
        forall|i: int| 0 <= i < name.len() ==> name[i] != '/' && name[i] != '.',
        name != "."@,
        name != ".."@,
{
    reveal_strlit(".");
    reveal_strlit("..");
    assert forall|i: int| 0 <= i < name.len() implies name[i] != '/' && name[i] != '.' by {
        assert(is_name_char(name[i]));
    }
    if name == "."@ {
        assert(name[0] == '.');
    }
    if name == ".."@ {
        assert(name[0] == '.');
    }
}

/// The text a file name is appended to when it joins onto the directory
/// `dir`: `dir` itself when it is empty or ends in `/`, else `dir` and a
/// `/`.
pub open spec fn dir_prefix(dir: Seq<char>) -> Seq<char> {
    if dir.len() == 0 || dir.last() == '/' {
        dir
    } else {
        dir + seq!['/']
    }
}

/// The file name of a stored image: `{id}.webp`.
pub open spec fn image_file_name(image_id: u128) -> Seq<char> {
    uuid_hyphenated(image_id) + ".webp"@
}

/// Stored images lie directly in their bucket's directory: an image's path
/// is the directory followed by its file name `{id}.webp`, which holds no
/// `/`. Distinct ids give distinct paths, and no image path is the path of
/// the bucket's fallback image.
pub proof fn law_image_paths(storage_root: Seq<char>, name: Seq<char>, id1: u128, id2: u128)
    ensures
        ({
            let dir = join_path(storage_root, name);
            let file = image_file_name(id1);
            &&& join_path(dir, file) == dir_prefix(dir) + file
            &&& file.len() == 41
            &&& forall|i: int| 0 <= i < file.len() ==> #[trigger] file[i] != '/'
            &&& id1 != id2 ==> join_path(dir, file) != join_path(dir, image_file_name(id2))
            &&& join_path(dir, file) != join_path(dir, "_default.webp"@)
        }),
{
    reveal_strlit(".webp");
    reveal_strlit("_default.webp");
    let dir = join_path(storage_root, name);
    let f1 = image_file_name(id1);
    let f2 = image_file_name(id2);
    let d = "_default.webp"@;
    law_image_id_text_round_trip(id1);
    law_image_id_text_round_trip(id2);
    assert(f1.len() == 41 && f2.len() == 41 && d.len() == 13);
    assert forall|i: int| 0 <= i < f1.len() implies #[trigger] f1[i] != '/' by {
        if i < 36 {
            assert(f1[i] == uuid_hyphenated(id1)[i]);
        } else {
            assert(f1[i] == ".webp"@[i - 36]);
        }
    }
    assert(f2[0] == uuid_hyphenated(id2)[0]);
    assert(d[0] == '_');
    let p = dir_prefix(dir);
    assert(join_path(dir, f1) == p + f1);
    assert(join_path(dir, f2) == p + f2);
    assert(join_path(dir, d) == p + d);
    assert((p + f1).len() != (p + d).len());
    if id1 != id2 && p + f1 == p + f2 {
        assert(f1 =~= (p + f1).subrange(p.len() as int, (p + f1).len() as int));
        assert(f2 =~= (p + f2).subrange(p.len() as int, (p + f2).len() as int));
        assert(uuid_hyphenated(id1) =~= f1.subrange(0, 36));
        assert(uuid_hyphenated(id2) =~= f2.subrange(0, 36));
        assert(uuid_text_value(uuid_hyphenated(id1)) == Some(id1));
        assert(uuid_text_value(uuid_hyphenated(id2)) == Some(id2));
    }
}

impl BucketConfig {
    /// This bucket's storage directory under `storage_root`
    /// (i.e. `{storage_root}/{bucket_name}`).
    pub fn storage_dir(&self, storage_root: &str) -> (res: String)
        ensures
            res@ == join_path(storage_root@, self.name@),
    {
        join(storage_root, self.name.as_str())
    }

    /// The on-disk path of the stored WebP file with the given image id
    /// (`{storage_root}/{bucket_name}/{image_id}.webp`).
    pub fn image_path(&self, storage_root: &str, image_id: u128) -> (res: String)
        ensures
            res@ == join_path(
                join_path(storage_root@, self.name@),
                uuid_hyphenated(image_id) + ".webp"@,
            ),
    {
        let dir = self.storage_dir(storage_root);
        let id_text = image_id_text(image_id);
        let file_name = concat_strs(id_text.as_str(), ".webp");
        join(dir.as_str(), file_name.as_str())
    }

    /// The on-disk path of the bucket's fallback image
    /// (`{storage_root}/{bucket_name}/_default.webp`).
    pub fn default_image_path(&self, storage_root: &str) -> (res: String)
        ensures
            res@ == join_path(join_path(storage_root@, self.name@), "_default.webp"@),
    {
        let dir = self.storage_dir(storage_root);
        join(dir.as_str(), default_image_file_name())
    }
}

/// File name of a bucket's optional fallback image, served when a
/// requested image does not exist.
pub fn default_image_file_name() -> (res: &'static str)
    ensures
        res@ == "_default.webp"@,
{
    "_default.webp"
}

} // verus!
