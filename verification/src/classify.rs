//! The two bucketing rules: how recently an entry was modified, and how
//! large it is.

use vstd::prelude::*;

verus! {

/// Seconds in one hour.
pub const HOUR_SECS: i64 = 3600;

/// Seconds in one day.
pub const DAY_SECS: i64 = 86400;

/// Entries below this many bytes are small.
pub const SMALL_LIMIT: u64 = 10 * 1044 * 1024;

/// Entries below this many bytes (and not small) are medium.
pub const MEDIUM_LIMIT: u64 = 100 * 1044 * 1024;

/// The recency bucket of a modification time.
#[derive(Clone, Copy, PartialEq, Eq, Structural, Debug)]
pub enum Recency {
    HourOld,
    DayOld,
    Older,
}

/// The magnitude bucket of a byte count.
#[derive(Clone, Copy, PartialEq, Eq, Structural, Debug)]
pub enum SizeBucket {
    FileSmall,
    FileMedium,
    FileLarge,
}

/// The recency bucket: strictly younger than an hour, else strictly younger
/// than a day, else older. An entry aged exactly one hour is a day old, and
/// one aged exactly one day is older.
pub open spec fn spec_recency(modified: int, now: int) -> Recency {
    if modified > now - HOUR_SECS {
        Recency::HourOld
    } else if modified > now - DAY_SECS {
        Recency::DayOld
    } else {
        Recency::Older
    }
}

/// Classify a modification time against the clock reading `now`, both in
/// seconds since the epoch.
pub fn classify_recency(modified: i64, now: i64) -> (r: Recency)
    ensures
        r == spec_recency(modified as int, now as int),
{
    let m = modified as i128;
    let n = now as i128;
    if m > n - (HOUR_SECS as i128) {
        Recency::HourOld
    } else if m > n - (DAY_SECS as i128) {
        Recency::DayOld
    } else {
        Recency::Older
    }
}

/// The magnitude bucket of a byte count, by the two fixed byte thresholds.
pub open spec fn spec_size_bucket(byte_length: u64) -> SizeBucket {
    if byte_length < SMALL_LIMIT {
        SizeBucket::FileSmall
    } else if byte_length < MEDIUM_LIMIT {
        SizeBucket::FileMedium
    } else {
        SizeBucket::FileLarge
    }
}

/// Classify a byte count into its magnitude bucket.
pub fn classify_size(byte_length: u64) -> (r: SizeBucket)
    ensures
        r == spec_size_bucket(byte_length),
{
    if byte_length < SMALL_LIMIT {
        SizeBucket::FileSmall
    } else if byte_length < MEDIUM_LIMIT {
        SizeBucket::FileMedium
    } else {
        SizeBucket::FileLarge
    }
}

} // verus!
