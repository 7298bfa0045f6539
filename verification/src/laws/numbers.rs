//! Numbers and times, also where they leave their range.

use crate::api::ab::{page_start, PageQueryView};
use crate::cli::elapsed;
use crate::config::{at_least, configured, number_or, EnvironmentView};
use crate::db::{cutoff, expiry, time_stamp};
use vstd::prelude::*;

verus! {

/// `r` is `n` in 64 bits with a sign: `n` itself where it is in range, and otherwise off by a
/// multiple of 2^64.
pub open spec fn wraps_to(n: int, r: int) -> bool {
    &&& i64::MIN <= r <= i64::MAX
    &&& (n - r) % 0x1_0000_0000_0000_0000 == 0
}

/// A number that is in range wraps to itself and to nothing else.
pub proof fn law_numbers_in_range_stay(n: int, r: int)
    requires
        wraps_to(n, r),
        i64::MIN <= n <= i64::MAX,
    ensures
        r == n,
{
}

proof fn lemma_crop(n: int)
    ensures
        wraps_to(n, vstd::wrapping::i64_specs::signed_crop(n) as int),
{
    let m = n % 0x1_0000_0000_0000_0000;
    assert((n - m) % 0x1_0000_0000_0000_0000 == 0);
    assert((n - m + 0x1_0000_0000_0000_0000) % 0x1_0000_0000_0000_0000 == 0);
}

/// A session runs out so many seconds after it was issued.
pub proof fn law_expiry_is_the_sum(issued: i64, ttl: u64)
    ensures
        wraps_to(issued + ttl, expiry(issued, ttl) as int),
{
    assert(ttl > 0x7FFF_FFFF_FFFF_FFFFu64 ==> (ttl as i64) == ttl - 0x1_0000_0000_0000_0000)
        by (bit_vector);
}

/// With a limit of so many days a workstation has to have been seen within as many times
/// 86400 seconds; without one there is no limit.
pub proof fn law_cutoff_is_the_difference(stale_days: i64, now: i64)
    ensures
        stale_days <= 0 ==> cutoff(stale_days, now) is None,
        stale_days > 0 ==> cutoff(stale_days, now) is Some && wraps_to(
            now - stale_days * 86_400,
            cutoff(stale_days, now)->0 as int,
        ),
{
    lemma_crop(stale_days * 86_400);
}

/// A page begins after the pages before it.
pub proof fn law_page_start_is_the_product(q: PageQueryView)
    requires
        q.current matches Some(current) && current > 0,
        q.page_size is Some,
    ensures
        wraps_to((q.current->0 - 1) * q.page_size->0, page_start(q)),
{
    lemma_crop((q.current->0 - 1) * q.page_size->0);
}

/// The time since a time stamp is the difference to the current time, and nothing where that is
/// negative.
pub proof fn law_elapsed_is_the_difference(timestamp: i64, now: i64)
    ensures
        elapsed(timestamp, now) >= 0,
        timestamp <= now && now - timestamp <= i64::MAX ==> elapsed(timestamp, now) == now
            - timestamp,
        now < timestamp && now - timestamp >= i64::MIN ==> elapsed(timestamp, now) == 0,
        elapsed(timestamp, now) > 0 ==> wraps_to(now - timestamp, elapsed(timestamp, now)),
{
}

/// A session lasts as many times 86400 seconds as the configuration says, as a 64-bit number
/// without a sign.
pub proof fn law_session_time_is_the_product(env: EnvironmentView)
    ensures
        (at_least(number_or(env.token_ttl_days, 30), 1) * 86_400 - configured(env).token_ttl)
            % 0x1_0000_0000_0000_0000 == 0,
{
}

/// A time stamp counts the whole seconds since the epoch; a clock before it counts none.
pub proof fn law_time_stamp_is_the_seconds(elapsed: Option<u64>)
    ensures
        elapsed is None ==> time_stamp(elapsed) == 0,
        elapsed matches Some(seconds) ==> wraps_to(seconds as int, time_stamp(elapsed) as int),
{
    if let Some(seconds) = elapsed {
        assert(seconds > 0x7FFF_FFFF_FFFF_FFFFu64 ==> (seconds as i64) == seconds
            - 0x1_0000_0000_0000_0000) by (bit_vector);
    }
}

} // verus!
