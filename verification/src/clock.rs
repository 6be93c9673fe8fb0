//! Time, as the library sees it: a count of milliseconds on a monotonic clock
//! that the caller reads. A stamp that is `None` lies further back than any
//! limit.

use vstd::prelude::*;

verus! {

/// Milliseconds from `then` to `now`; zero when `then` lies ahead of `now`.
pub open spec fn elapsed_ms(now: u64, then: u64) -> int {
    if now >= then {
        now - then
    } else {
        0
    }
}

pub fn elapsed(now: u64, then: u64) -> (ms: u64)
    ensures
        ms == elapsed_ms(now, then),
{
    if now >= then {
        now - then
    } else {
        0
    }
}

/// Whether more than `limit_secs` seconds have passed since `stamp`.
pub open spec fn older_than(stamp: Option<u64>, now: u64, limit_secs: u64) -> bool {
    match stamp {
        Some(then) => elapsed_ms(now, then) > limit_secs * 1000,
        None => true,
    }
}

pub fn is_older_than(stamp: Option<u64>, now: u64, limit_secs: u64) -> (r: bool)
    ensures
        r == older_than(stamp, now, limit_secs),
{
    match stamp {
        Some(then) => {
            let ms: u64 = elapsed(now, then);
            let whole: u64 = ms / 1000;
            whole > limit_secs || (whole == limit_secs && ms % 1000 > 0)
        },
        None => true,
    }
}

/// Whole seconds since `stamp`, or `None` for an expired stamp.
pub open spec fn whole_secs_since(stamp: Option<u64>, now: u64) -> Option<u64> {
    match stamp {
        Some(then) => Some((elapsed_ms(now, then) / 1000) as u64),
        None => None,
    }
}

pub fn secs_since(stamp: Option<u64>, now: u64) -> (r: Option<u64>)
    ensures
        r == whole_secs_since(stamp, now),
{
    match stamp {
        Some(then) => Some(elapsed(now, then) / 1000),
        None => None,
    }
}

} // verus!
