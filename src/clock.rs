//! The current UTC day as an inclusive range of Unix timestamps.

use vstd::prelude::*;

verus! {

/// First second (00:00:00) of the UTC day that holds the instant `t`.
pub open spec fn day_start(t: int) -> int {
    t - t % 86400
}

/// Last second (23:59:59) of the UTC day that holds the instant `t`.
pub open spec fn day_end(t: int) -> int {
    day_start(t) + 86399
}

/// Both ends of the UTC day that holds `t` fit in an `i64`.
pub open spec fn day_representable(t: int) -> bool {
    i64::MIN <= day_start(t) && day_end(t) <= i64::MAX
}

/// Timestamp of `DateTime::<Utc>::MIN_UTC`, 1 January of the year -262143.
pub const EARLIEST_INSTANT: i64 = -8334601315200;

/// Timestamp of `DateTime::<Utc>::MAX_UTC`, 31 December 262142, 23:59:59.
pub const LATEST_INSTANT: i64 = 8210266876799;

/// Relies on chrono's `From<SystemTime> for DateTime<Utc>` and
/// `DateTime::timestamp`: the current instant in whole seconds since the Unix
/// epoch, negative for a clock set before 1970. Every `DateTime<Utc>` lies
/// between `MIN_UTC` and `MAX_UTC`, so the timestamp does too; the conversion
/// would stop only on a system time beyond that range, which the system
/// clock cannot hold.
#[verifier::external_body]
pub(crate) fn now_utc_seconds() -> (r: i64)
    ensures
        EARLIEST_INSTANT <= r <= LATEST_INSTANT,
{
    chrono::DateTime::<chrono::Utc>::from(std::time::SystemTime::now()).timestamp()
}

/// The seconds elapsed since the start of the UTC day that holds `t`.
pub fn seconds_into_day(t: i64) -> (r: i64)
    ensures
        r == t % 86400,
        0 <= r < 86400,
{
    if t >= 0 {
        (t as u64 % 86400) as i64
    } else {
        let k: u64 = (-(t + 1)) as u64;
        let m: u64 = k % 86400;
        proof {
            let ti = t as int;
            let ki = k as int;
            assert(ti == -ki - 1);
            let q = ki / 86400;
            assert(ki == q * 86400 + m) by {
                vstd::arithmetic::div_mod::lemma_fundamental_div_mod(ki, 86400);
            }
            assert(ti == (-q - 1) * 86400 + (86399 - m)) by (nonlinear_arith)
                requires
                    ti == -ki - 1,
                    ki == q * 86400 + m,
            ;
            vstd::arithmetic::div_mod::lemma_fundamental_div_mod_converse(
                ti,
                86400,
                -q - 1,
                86399 - m,
            );
        }
        86399 - m as i64
    }
}

/// The first and last second of the UTC day that holds `t`, or `None` when
/// one of them does not fit in an `i64`.
pub fn utc_day_bounds(t: i64) -> (r: Option<(i64, i64)>)
    ensures
        r is Some <==> day_representable(t as int),
        r is Some ==> r->Some_0 == (day_start(t as int) as i64, day_end(t as int) as i64),
{
    let offset = seconds_into_day(t);
    if t < i64::MIN + offset {
        return None;
    }
    let start = t - offset;
    if start > i64::MAX - 86399 {
        return None;
    }
    Some((start, start + 86399))
}

/// The day of every instant the clock can report has both of its bounds in
/// an `i64`.
pub proof fn lemma_clock_days_representable(t: int)
    requires
        EARLIEST_INSTANT <= t <= LATEST_INSTANT,
    ensures
        day_representable(t),
{
    lemma_day_range(t, t);
}

/// The range of a day runs from 00:00:00 to 23:59:59 UTC of the day that
/// holds the instant, both included: it holds the instant, starts on a
/// multiple of a day, spans 86400 seconds, and every instant in it gives the
/// same range.
pub proof fn lemma_day_range(t: int, u: int)
    ensures
        day_start(t) <= t <= day_end(t),
        day_start(t) % 86400 == 0,
        day_end(t) - day_start(t) == 86399,
        day_start(t) <= u <= day_end(t) ==> day_start(u) == day_start(t) && day_end(u) == day_end(
            t,
        ),
{
    let q = t / 86400;
    vstd::arithmetic::div_mod::lemma_fundamental_div_mod(t, 86400);
    assert(day_start(t) == q * 86400);
    vstd::arithmetic::div_mod::lemma_mod_multiples_basic(q, 86400);
    if day_start(t) <= u <= day_end(t) {
        vstd::arithmetic::div_mod::lemma_fundamental_div_mod_converse(u, 86400, q, u - q * 86400);
    }
}

} // verus!
