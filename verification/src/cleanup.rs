//! Decisions of the periodic cleanup pass, which deletes expired images
//! from each bucket's storage directory based on the bucket's lifetime.
//!
//! The pass itself (listing directories, reading modification times,
//! removing files) is file I/O and runs outside the library; it asks the
//! library which buckets to sweep and which files to remove.

use vstd::prelude::*;

use crate::buckets::{BucketConfig, BucketModel, Buckets, buckets_wf};
use crate::text::{chars_of, join, join_path, string_of};

verus! {

/// A file name whose extension, as `Path::extension` reads it (the text
/// after the last `.`, provided something precedes that `.`), is `webp`.
pub open spec fn has_webp_extension(name: Seq<char>) -> bool {
    &&& name.len() >= 6
    &&& name[name.len() - 5] == '.'
    &&& name.subrange(name.len() - 4, name.len() as int) == "webp"@
}

/// Whether the cleanup pass considers the file `file_name`: only `.webp`
/// files are ever removed.
pub fn is_cleanup_candidate(file_name: &str) -> (res: bool)
    ensures
        res == has_webp_extension(file_name@),
{
    let cs = chars_of(file_name);
    let n = cs.len();
    proof {
        reveal_strlit("webp");
    }
    if n < 6 {
        return false;
    }
    let res = cs[n - 5] == '.' && cs[n - 4] == 'w' && cs[n - 3] == 'e' && cs[n - 2] == 'b' && cs[n
        - 1] == 'p';
    proof {
        let tail = file_name@.subrange(n - 4, n as int);
        if res {
            assert(tail =~= "webp"@);
        } else if cs@[n - 5] == '.' {
            assert(tail != "webp"@) by {
                if tail == "webp"@ {
                    assert(tail[0] == 'w' && tail[1] == 'e' && tail[2] == 'b' && tail[3] == 'p');
                }
            }
        }
    }
    res
}

/// A file of age `age_secs` seconds plus `age_nanos` nanoseconds is older
/// than a lifetime of `max_age_secs` seconds.
pub open spec fn older_than(age_secs: u64, age_nanos: u32, max_age_secs: u64) -> bool {
    age_secs * 1_000_000_000 + age_nanos > max_age_secs * 1_000_000_000
}

/// Whether a file of the given age has outlived the bucket's lifetime
/// (a strict comparison: a file exactly as old as the lifetime stays).
pub fn is_expired(age_secs: u64, age_nanos: u32, max_age_secs: u64) -> (res: bool)
    requires
        age_nanos < 1_000_000_000,
    ensures
        res == older_than(age_secs, age_nanos, max_age_secs),
{
    age_secs > max_age_secs || (age_secs == max_age_secs && age_nanos > 0)
}

/// Whether a sweep with the lifetime `max_age_secs` removes the file
/// `file_name` of the given age: a `.webp` file older than the lifetime.
pub open spec fn removes_file(max_age_secs: u64, file_name: Seq<char>, age_secs: u64, age_nanos: u32) -> bool {
    has_webp_extension(file_name) && older_than(age_secs, age_nanos, max_age_secs)
}

/// A bucket that the cleanup pass sweeps.
pub struct CleanupTarget {
    /// The bucket's name.
    pub bucket: String,
    /// The bucket's storage directory.
    pub dir: String,
    /// The bucket's lifetime in seconds.
    pub max_age_secs: u64,
}

/// The content of a [`CleanupTarget`]: bucket name, directory, lifetime.
pub open spec fn target_view(t: CleanupTarget) -> (Seq<char>, Seq<char>, u64) {
    (t.bucket@, t.dir@, t.max_age_secs)
}

/// The buckets to sweep, in configuration order: every bucket with a
/// lifetime, with its directory under `root`; permanent buckets are left
/// out.
pub open spec fn cleanup_plan(bs: Seq<BucketModel>, root: Seq<char>) -> Seq<
    (Seq<char>, Seq<char>, u64),
>
    decreases bs.len(),
{
    if bs.len() == 0 {
        seq![]
    } else {
        let rest = cleanup_plan(bs.drop_last(), root);
        match bs.last().max_age_secs {
            Some(a) => rest.push((bs.last().name, join_path(root, bs.last().name), a)),
            None => rest,
        }
    }
}

impl CleanupTarget {
    /// Whether sweeping this bucket removes the file `file_name` of the
    /// given age from its directory.
    pub fn should_remove(&self, file_name: &str, age_secs: u64, age_nanos: u32) -> (res: bool)
        requires
            age_nanos < 1_000_000_000,
        ensures
            res == removes_file(self.max_age_secs, file_name@, age_secs, age_nanos),
    {
        is_cleanup_candidate(file_name) && is_expired(age_secs, age_nanos, self.max_age_secs)
    }
}

impl Buckets {
    /// The buckets that a cleanup pass over `storage_root` sweeps, in
    /// configuration order, each with its directory and lifetime.
    /// Permanent buckets are skipped entirely.
    pub fn cleanup_targets(&self, storage_root: &str) -> (res: Vec<CleanupTarget>)
        ensures
            res@.map_values(|t: CleanupTarget| target_view(t)) == cleanup_plan(self@, storage_root@),
    {
        let configs = self.iter();
        let ghost bs = self@;
        let mut res: Vec<CleanupTarget> = Vec::new();
        let mut i: usize = 0;
        while i < configs.len()
            invariant
                i <= configs@.len(),
                configs@.map_values(|c: BucketConfig| c@) == bs,
                res@.map_values(|t: CleanupTarget| target_view(t)) == cleanup_plan(
                    bs.subrange(0, i as int),
                    storage_root@,
                ),
            decreases configs@.len() - i,
        {
            let config = &configs[i];
            let ghost before = res@.map_values(|t: CleanupTarget| target_view(t));
            assert(bs.subrange(0, i + 1).drop_last() =~= bs.subrange(0, i as int));
            assert(bs.subrange(0, i + 1).last() == config@);
            match config.max_age_secs {
                Some(max_age_secs) => {
                    let target = CleanupTarget {
                        bucket: string_of(config.name.as_str()),
                        dir: config.storage_dir(storage_root),
                        max_age_secs,
                    };
                    res.push(target);
                    assert(res@.map_values(|t: CleanupTarget| target_view(t)) =~= before.push(
                        target_view(target),
                    ));
                },
                None => {},
            }
            i += 1;
        }
        assert(bs.subrange(0, configs@.len() as int) =~= bs);
        res
    }
}

/// Permanent buckets are never swept, and every bucket with a lifetime is
/// swept with exactly that lifetime.
pub proof fn law_cleanup_respects_lifetimes(bs: Seq<BucketModel>, root: Seq<char>)
    requires
        buckets_wf(bs),
    ensures
        forall|i: int|
            0 <= i < bs.len() && (#[trigger] bs[i]).max_age_secs is None ==> forall|k: int|
                0 <= k < cleanup_plan(bs, root).len() ==> (#[trigger] cleanup_plan(bs, root)[k]).0
                    != bs[i].name,
        forall|i: int|
            0 <= i < bs.len() && (#[trigger] bs[i]).max_age_secs is Some ==> exists|k: int|
                0 <= k < cleanup_plan(bs, root).len() && #[trigger] cleanup_plan(bs, root)[k] == (
                    bs[i].name,
                    join_path(root, bs[i].name),
                    bs[i].max_age_secs->0,
                ),
    decreases bs.len(),
{
    lemma_plan_entries(bs, root);
    if bs.len() > 0 {
        let prev = bs.drop_last();
        assert(buckets_wf(prev)) by {
            assert forall|a: int, b: int|
                0 <= a < prev.len() && 0 <= b < prev.len() && a != b implies #[trigger] prev[a].name
                != #[trigger] prev[b].name by {
                assert(prev[a] == bs[a] && prev[b] == bs[b]);
            }
            assert forall|a: int| 0 <= a < prev.len() implies crate::buckets::valid_bucket_name(
                #[trigger] prev[a].name,
            ) by {
                assert(prev[a] == bs[a]);
            }
            assert forall|a: int| 0 <= a < prev.len() implies crate::buckets::valid_dimension(
                #[trigger] prev[a].max_dimension,
            ) by {
                assert(prev[a] == bs[a]);
            }
            assert forall|a: int|
                0 <= a < prev.len() && (#[trigger] prev[a].max_age_secs) is Some implies prev[a].max_age_secs->0
                    >= crate::buckets::SECONDS_PER_DAY && prev[a].max_age_secs->0
                    % crate::buckets::SECONDS_PER_DAY == 0 by {
                assert(prev[a] == bs[a]);
            }
        }
        law_cleanup_respects_lifetimes(prev, root);
        lemma_plan_entries(prev, root);
        let plan = cleanup_plan(bs, root);
        let pplan = cleanup_plan(prev, root);
        let n = bs.len() - 1;
        assert forall|i: int|
            0 <= i < bs.len() && (#[trigger] bs[i]).max_age_secs is None implies forall|k: int|
                0 <= k < plan.len() ==> (#[trigger] plan[k]).0 != bs[i].name by {
            assert forall|k: int| 0 <= k < plan.len() implies (#[trigger] plan[k]).0 != bs[i].name by {
                if i < n {
                    assert(bs[i] == prev[i]);
                    if k < pplan.len() {
                        assert(plan[k] == pplan[k]);
                    } else {
                        assert(plan[k].0 == bs[n].name);
                    }
                } else {
                    assert(plan =~= pplan);
                    assert(plan[k] == pplan[k]);
                    if plan[k].0 == bs[i].name {
                        let j = choose|j: int|
                            0 <= j < prev.len() && prev[j].name == (#[trigger] pplan[k]).0
                                && prev[j].max_age_secs is Some;
                        assert(bs[j] == prev[j]);
                        assert(bs[j].name == bs[n].name);
                    }
                }
            }
        }
        assert forall|i: int|
            0 <= i < bs.len() && (#[trigger] bs[i]).max_age_secs is Some implies exists|k: int|
                0 <= k < plan.len() && #[trigger] plan[k] == (
                    bs[i].name,
                    join_path(root, bs[i].name),
                    bs[i].max_age_secs->0,
                ) by {
            let a = bs[i].max_age_secs->0;
            if i < n {
                assert(bs[i] == prev[i]);
                let k = choose|k: int|
                    0 <= k < pplan.len() && #[trigger] pplan[k] == (
                        prev[i].name,
                        join_path(root, prev[i].name),
                        a,
                    );
                assert(plan[k] == pplan[k]);
            } else {
                assert(plan[pplan.len() as int] == (bs[i].name, join_path(root, bs[i].name), a));
            }
        }
    }
}

/// A cleanup pass removes nothing but expired `.webp` files from the
/// directory of a bucket with a lifetime: every bucket it sweeps is a
/// configured bucket with a lifetime, swept in its own directory under
/// the storage root with exactly that lifetime, and a file it removes
/// there is a `.webp` file older than the lifetime. Permanent buckets are
/// never swept, so their files are never touched.
pub proof fn law_cleanup_removes_only_expired_webp(
    bs: Seq<BucketModel>,
    root: Seq<char>,
    k: int,
    file_name: Seq<char>,
    age_secs: u64,
    age_nanos: u32,
)
    requires
        0 <= k < cleanup_plan(bs, root).len(),
    ensures
        exists|j: int|
            0 <= j < bs.len() && #[trigger] bs[j].max_age_secs == Some(cleanup_plan(bs, root)[k].2)
                && cleanup_plan(bs, root)[k].0 == bs[j].name && cleanup_plan(bs, root)[k].1
                == join_path(root, bs[j].name),
        removes_file(cleanup_plan(bs, root)[k].2, file_name, age_secs, age_nanos)
            ==> has_webp_extension(file_name) && older_than(
            age_secs,
            age_nanos,
            cleanup_plan(bs, root)[k].2,
        ),
    decreases bs.len(),
{
    let plan = cleanup_plan(bs, root);
    let prev = bs.drop_last();
    let pplan = cleanup_plan(prev, root);
    let last = bs.len() - 1;
    assert(bs[last] == bs.last());
    match bs.last().max_age_secs {
        Some(a) => {
            assert(plan == pplan.push((bs.last().name, join_path(root, bs.last().name), a)));
        },
        None => {
            assert(plan == pplan);
        },
    }
    if k < pplan.len() {
        assert(plan[k] == pplan[k]);
        law_cleanup_removes_only_expired_webp(prev, root, k, file_name, age_secs, age_nanos);
        let j = choose|j: int|
            0 <= j < prev.len() && #[trigger] prev[j].max_age_secs == Some(pplan[k].2) && pplan[k].0
                == prev[j].name && pplan[k].1 == join_path(root, prev[j].name);
        assert(bs[j] == prev[j]);
    } else {
        assert(bs[last].max_age_secs == Some(plan[k].2));
    }
}

/// Every swept entry comes from a bucket with a lifetime, under its name.
proof fn lemma_plan_entries(bs: Seq<BucketModel>, root: Seq<char>)
    ensures
        forall|k: int|
            0 <= k < cleanup_plan(bs, root).len() ==> exists|j: int|
                0 <= j < bs.len() && bs[j].name == (#[trigger] cleanup_plan(bs, root)[k]).0
                    && bs[j].max_age_secs is Some,
    decreases bs.len(),
{
    if bs.len() > 0 {
        let prev = bs.drop_last();
        lemma_plan_entries(prev, root);
        let plan = cleanup_plan(bs, root);
        let pplan = cleanup_plan(prev, root);
        let last = bs.len() - 1;
        assert(bs[last] == bs.last());
        match bs.last().max_age_secs {
            Some(a) => {
                assert(plan == pplan.push((bs.last().name, join_path(root, bs.last().name), a)));
            },
            None => {
                assert(plan == pplan);
            },
        }
        assert forall|k: int| 0 <= k < plan.len() implies exists|j: int|
            0 <= j < bs.len() && bs[j].name == (#[trigger] plan[k]).0 && bs[j].max_age_secs is Some by {
            if k < pplan.len() {
                assert(plan[k] == pplan[k]);
                let j = choose|j: int|
                    0 <= j < prev.len() && prev[j].name == (#[trigger] pplan[k]).0
                        && prev[j].max_age_secs is Some;
                assert(bs[j] == prev[j]);
            } else {
                assert(bs[last].name == plan[k].0 && bs[last].max_age_secs is Some);
            }
        }
    }
}

} // verus!
