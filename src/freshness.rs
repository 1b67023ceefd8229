//! How old the persisted cache is, and what becomes of it at start-up.
use crate::cache::WebCache;
use vstd::prelude::*;

verus! {

/// The age reported for a cache file that does not exist.
pub const NO_CACHE_FILE: u64 = 0xffff_ffff_ffff_ffff;

/// The age in whole hours between the file's modification time and now, both
/// in seconds since the epoch: the difference of the two hour counts.
pub open spec fn age_hours(modified_secs: u64, now_secs: u64) -> int {
    now_secs as int / 3600 - modified_secs as int / 3600
}

/// The cache's age in hours: `NO_CACHE_FILE` when there is no file, and zero
/// for a file stamped later than now.
pub fn cache_age_hours(modified_secs: Option<u64>, now_secs: u64) -> (r: u64)
    ensures
        modified_secs is None ==> r == NO_CACHE_FILE,
        modified_secs matches Some(m) ==> r != NO_CACHE_FILE && r as int == if age_hours(m, now_secs) >= 0 {
            age_hours(m, now_secs)
        } else {
            0
        },
{
    match modified_secs {
        None => NO_CACHE_FILE,
        Some(m) => {
            let now_h = now_secs / 3600;
            let file_h = m / 3600;
            if now_h >= file_h {
                now_h - file_h
            } else {
                0
            }
        },
    }
}

/// A cache older than a day is too old.
pub fn cache_too_old(cache_old: u64) -> (r: bool)
    ensures
        r == (cache_old > 24),
{
    cache_old > 24
}

/// Whether the operator is asked to wipe the cache: it exists and is too old.
pub fn should_offer_wipe(age: u64) -> (r: bool)
    ensures
        r == (age != NO_CACHE_FILE && age > 24),
{
    age != NO_CACHE_FILE && cache_too_old(age)
}

/// The cache to work with at start-up: empty when there was no file, or when
/// the operator agreed to wipe a cache that was too old; else the loaded one.
pub fn startup_cache(loaded: WebCache, age: u64, wipe_confirmed: bool) -> (r: WebCache)
    ensures
        r@ == if age == NO_CACHE_FILE || (age > 24 && wipe_confirmed) {
            Map::<Seq<char>, Seq<char>>::empty()
        } else {
            loaded@
        },
{
    if age == NO_CACHE_FILE || (should_offer_wipe(age) && wipe_confirmed) {
        WebCache::new()
    } else {
        loaded
    }
}

} // verus!
