use vstd::prelude::*;

verus! {

/// Milliseconds in one second.
pub const MS_PER_SEC: i64 = 1000;

/// Nanoseconds in one millisecond.
pub const NS_PER_MS: i32 = 1000000;

/// Nanoseconds in one second.
pub const NS_PER_SEC: i32 = 1000000000;

/// A point in time as whole seconds and the nanoseconds past them.
///
/// Times before the epoch have a negative `sec` and a non-negative `nsec`.
#[derive(Clone, Copy, Debug, PartialEq, Eq)]
pub struct Timespec {
    pub sec: i64,
    pub nsec: i32,
}

impl Timespec {
    /// The nanoseconds part lies in `[0, 1e9)`.
    pub open spec fn wf(self) -> bool {
        0 <= self.nsec < NS_PER_SEC
    }

    /// The time in milliseconds, truncating the sub-millisecond part.
    pub open spec fn ms(self) -> int {
        self.sec * MS_PER_SEC + (self.nsec as int) / (NS_PER_MS as int)
    }
}

/// The value of `t` forced into the range of `i64`.
pub open spec fn clamp_i64(t: int) -> int {
    if t < i64::MIN {
        i64::MIN as int
    } else if t > i64::MAX {
        i64::MAX as int
    } else {
        t
    }
}

/// `t` is what [`get_time_ms`] may return: some well-formed reading of the
/// clock, in milliseconds, saturated at the bounds of `i64`.
pub open spec fn is_clock_reading(t: i64) -> bool {
    exists|ts: Timespec| ts.wf() && t == clamp_i64(#[trigger] ts.ms())
}

/// Converts a time to milliseconds: `sec * 1000 + nsec / 1_000_000`.
pub fn time_to_ms(ts: Timespec) -> (r: i64)
    requires
        ts.wf(),
        i64::MIN <= ts.ms() <= i64::MAX,
    ensures
        r == ts.ms(),
{
    let ms = wide_ms(ts);
    ms as i64
}

/// The time in milliseconds, computed in a type wide enough for any reading.
fn wide_ms(ts: Timespec) -> (r: i128)
    requires
        ts.wf(),
    ensures
        r == ts.ms(),
{
    let frac: i128 = (ts.nsec / NS_PER_MS) as i128;
    assert(-9223372036854775808000 <= ts.sec as i128 * 1000 <= 9223372036854775807000)
        by (nonlinear_arith);
    ts.sec as i128 * 1000 + frac
}

/// Relies on `time::get_time`: the current wall-clock time, built through
/// `Timespec::new`, which asserts that the nanoseconds lie in `[0, 1e9)`.
#[verifier::external_body]
fn current_timespec() -> (r: Timespec)
    ensures
        r.wf(),
{
    let t = time::get_time();
    Timespec { sec: t.sec, nsec: t.nsec }
}

/// The current time in milliseconds.
///
/// Whatever the clock reads, the result is that reading converted by
/// [`time_to_ms`], saturated at the bounds of `i64` (reached only by clocks
/// set hundreds of millions of years away from the epoch).
pub fn get_time_ms() -> (r: i64)
    ensures
        is_clock_reading(r),
{
    let ts = current_timespec();
    let ms = wide_ms(ts);
    if ms > i64::MAX as i128 {
        i64::MAX
    } else if ms < i64::MIN as i128 {
        i64::MIN
    } else {
        ms as i64
    }
}

} // verus!
