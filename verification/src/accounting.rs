//! The amounts a stream has paid out, as the instructions compute them.
use vstd::prelude::*;
use crate::payment_stream::{PaymentStreams, StreamState};

verus! {

/// `x` is a value of `i64`.
pub open spec fn fits_i64(x: int) -> bool {
    i64::MIN <= x <= i64::MAX
}

/// The smaller of two instants.
pub open spec fn earlier(a: i64, b: i64) -> i64 {
    if a <= b {
        a
    } else {
        b
    }
}

/// Seconds of streaming from `start_time` until `now`, stopping at `end_time`.
pub open spec fn elapsed(s: StreamState, now: i64) -> int {
    earlier(now, s.end_time) - s.start_time
}

/// Lamports streamed from `start_time` until `now`, stopping at `end_time`.
pub open spec fn streamed_by(s: StreamState, now: i64) -> int {
    s.amount_second * elapsed(s, now)
}

/// Lamports streamed by `now` and not yet withdrawn.
pub open spec fn withdrawable(s: StreamState, now: i64) -> int {
    streamed_by(s, now) - s.lamports_withdrawn
}

/// Every intermediate value of `withdrawable` is an `i64`.
pub open spec fn withdrawable_fits(s: StreamState, now: i64) -> bool {
    &&& fits_i64(elapsed(s, now))
    &&& fits_i64(streamed_by(s, now))
    &&& fits_i64(withdrawable(s, now))
}

/// The limit an unstake request is first held to: the lamports that would stream
/// from `now` to `end_time`, less those already withdrawn.
pub open spec fn unstake_limit(s: StreamState, now: i64) -> int {
    (s.end_time - now) * s.amount_second - s.lamports_withdrawn
}

/// Every intermediate value of `unstake_limit` is an `i64`.
pub open spec fn unstake_limit_fits(s: StreamState, now: i64) -> bool {
    &&& fits_i64(s.end_time - now)
    &&& fits_i64((s.end_time - now) * s.amount_second)
    &&& fits_i64(unstake_limit(s, now))
}

/// Lamports the whole stream pays, from `start_time` to `end_time`.
pub open spec fn total_streamed(s: StreamState) -> int {
    s.amount_second * (s.end_time - s.start_time)
}

/// Every intermediate value of `total_streamed` is an `i64`.
pub open spec fn total_streamed_fits(s: StreamState) -> bool {
    &&& fits_i64(s.end_time - s.start_time)
    &&& fits_i64(total_streamed(s))
}

/// `withdrawable(s, now)`, or `None` where an intermediate value overflows.
pub fn withdrawable_amount(s: &PaymentStreams, now: i64) -> (r: Option<i64>)
    ensures
        r == (if withdrawable_fits(s@, now) {
            Some(withdrawable(s@, now) as i64)
        } else {
            None
        }),
{
    let until = if now <= s.end_time {
        now
    } else {
        s.end_time
    };
    let d = match until.checked_sub(s.start_time) {
        Some(d) => d,
        None => return None,
    };
    let streamed = match s.amount_second.checked_mul(d) {
        Some(x) => x,
        None => return None,
    };
    streamed.checked_sub(s.lamports_withdrawn)
}

/// `unstake_limit(s, now)`, or `None` where an intermediate value overflows.
pub fn unstake_limit_amount(s: &PaymentStreams, now: i64) -> (r: Option<i64>)
    ensures
        r == (if unstake_limit_fits(s@, now) {
            Some(unstake_limit(s@, now) as i64)
        } else {
            None
        }),
{
    let d = match s.end_time.checked_sub(now) {
        Some(d) => d,
        None => return None,
    };
    let x = match d.checked_mul(s.amount_second) {
        Some(x) => x,
        None => return None,
    };
    x.checked_sub(s.lamports_withdrawn)
}

/// `total_streamed(s)`, or `None` where an intermediate value overflows.
pub fn total_streamed_amount(s: &PaymentStreams) -> (r: Option<i64>)
    ensures
        r == (if total_streamed_fits(s@) {
            Some(total_streamed(s@) as i64)
        } else {
            None
        }),
{
    let d = match s.end_time.checked_sub(s.start_time) {
        Some(d) => d,
        None => return None,
    };
    s.amount_second.checked_mul(d)
}

/// For a stream with a non-negative rate, the amount streamed never decreases as time passes.
pub proof fn law_streamed_monotone(s: StreamState, t1: i64, t2: i64)
    requires
        s.amount_second >= 0,
        t1 <= t2,
    ensures
        streamed_by(s, t1) <= streamed_by(s, t2),
{
    assert(elapsed(s, t1) <= elapsed(s, t2));
    vstd::arithmetic::mul::lemma_mul_inequality(elapsed(s, t1), elapsed(s, t2), s.amount_second as int);
    vstd::arithmetic::mul::lemma_mul_is_commutative(s.amount_second as int, elapsed(s, t1));
    vstd::arithmetic::mul::lemma_mul_is_commutative(s.amount_second as int, elapsed(s, t2));
}

/// Once `end_time` has passed, the amount streamed is the stream's total.
pub proof fn law_streamed_caps_at_total(s: StreamState, now: i64)
    requires
        now >= s.end_time,
    ensures
        streamed_by(s, now) == total_streamed(s),
{
}

} // verus!
