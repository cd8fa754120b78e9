//! The fixed set of well-known buckets and their names.

use std::str::FromStr;

use vstd::prelude::*;

use crate::error::AppError;
use crate::text::str_eq;

verus! {

/// A well-known bucket.
#[derive(Debug, Clone, Copy, PartialEq, Eq, Structural)]
pub enum Bucket {
    Giveaways,
    StreamPreviews,
}

/// The name of a well-known bucket.
pub open spec fn bucket_name(b: Bucket) -> Seq<char> {
    match b {
        Bucket::Giveaways => "giveaways"@,
        Bucket::StreamPreviews => "stream-previews"@,
    }
}

impl Bucket {
    /// The bucket's name.
    pub fn as_str(&self) -> (res: &'static str)
        ensures
            res@ == bucket_name(*self),
    {
        match self {
            Bucket::Giveaways => "giveaways",
            Bucket::StreamPreviews => "stream-previews",
        }
    }

    /// Every well-known bucket.
    pub fn all() -> (res: Vec<Bucket>)
        ensures
            res@ == seq![Bucket::Giveaways, Bucket::StreamPreviews],
    {
        let mut v: Vec<Bucket> = Vec::new();
        v.push(Bucket::Giveaways);
        v.push(Bucket::StreamPreviews);
        v
    }

    /// The well-known bucket with the given name, or
    /// [`AppError::InvalidBucket`].
    pub fn from_name(s: &str) -> (res: Result<Bucket, AppError>)
        ensures
            res is Ok <==> (s@ == bucket_name(Bucket::Giveaways) || s@ == bucket_name(
                Bucket::StreamPreviews,
            )),
            res matches Ok(b) ==> bucket_name(b) == s@,
            res matches Err(e) ==> e == AppError::InvalidBucket,
    {
        if str_eq(s, "giveaways") {
            Ok(Bucket::Giveaways)
        } else if str_eq(s, "stream-previews") {
            Ok(Bucket::StreamPreviews)
        } else {
            Err(AppError::InvalidBucket)
        }
    }
}

impl FromStr for Bucket {
    type Err = AppError;

    fn from_str(s: &str) -> (res: Result<Self, Self::Err>)
        ensures
            res is Ok <==> (s@ == bucket_name(Bucket::Giveaways) || s@ == bucket_name(
                Bucket::StreamPreviews,
            )),
            res matches Ok(b) ==> bucket_name(b) == s@,
            res matches Err(e) ==> e == AppError::InvalidBucket,
    {
        Bucket::from_name(s)
    }
}

/// Distinct buckets have distinct names, so a bucket's name reads back as
/// the same bucket.
pub proof fn law_bucket_names_identify(a: Bucket, b: Bucket)
    ensures
        bucket_name(a) == bucket_name(b) ==> a == b,
{
    reveal_strlit("giveaways");
    reveal_strlit("stream-previews");
    if a != b {
        assert(bucket_name(a).len() != bucket_name(b).len());
    }
}

} // verus!
