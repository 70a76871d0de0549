use vstd::prelude::*;

use crate::error::ErrorCode;

verus! {

/// Seconds in one rate-limit day bucket.
pub const SECONDS_PER_DAY: i64 = 86400;

/// The day bucket of a timestamp: the floor of `now / 86400`.
pub open spec fn day_number(now: int) -> int {
    now / 86400
}

/// The (day, count) pair after the lazy day rollover has been applied at `now`.
pub open spec fn rolled_over(now: int, last_request_day: int, requests_today: int) -> (int, int) {
    if day_number(now) > last_request_day {
        (day_number(now), 0)
    } else {
        (last_request_day, requests_today)
    }
}

/// Whether one more request may be counted at `now`.
pub open spec fn admits(now: int, last_request_day: int, requests_today: int, rate_limit: int) -> bool {
    rolled_over(now, last_request_day, requests_today).1 < rate_limit
}

/// Computes the day bucket of a timestamp, rounding towards negative infinity.
pub fn day_of(now: i64) -> (r: i64)
    ensures
        r == day_number(now as int),
{
    if now >= 0 {
        now / SECONDS_PER_DAY
    } else {
        let m: i64 = -(now + 1);
        let q: i64 = m / SECONDS_PER_DAY;
        proof {
            let n = now as int;
            assert(q == (-n - 1) / 86400);
            assert(-q - 1 == n / 86400) by (nonlinear_arith)
                requires
                    q == (-n - 1) / 86400,
                    n < 0,
            {
                let r = (-n - 1) % 86400;
                assert(-n - 1 == 86400 * q + r);
                assert(n == 86400 * (-q - 1) + (86399 - r));
            }
        }
        -q - 1
    }
}

/// The day-bucket rate limiter as one transition: from the stored day and count, the limit
/// and the time, either the new (day, count) with the request counted, or the rejection.
pub fn admit_request(now: i64, last_request_day: i64, requests_today: u64, rate_limit: u64) -> (r:
    Result<(i64, u64), ErrorCode>)
    ensures
        admits(now as int, last_request_day as int, requests_today as int, rate_limit as int)
            <==> r is Ok,
        r is Err ==> r == Err::<(i64, u64), ErrorCode>(ErrorCode::RateLimitExceeded),
        r matches Ok((day, count)) ==> {
            let rolled = rolled_over(now as int, last_request_day as int, requests_today as int);
            &&& day == rolled.0
            &&& count == rolled.1 + 1
            &&& count <= rate_limit
        },
{
    let current_day = day_of(now);
    let mut day = last_request_day;
    let mut count = requests_today;
    if current_day > last_request_day {
        day = current_day;
        count = 0;
    }
    if count < rate_limit {
        Ok((day, count + 1))
    } else {
        Err(ErrorCode::RateLimitExceeded)
    }
}

} // verus!
