//! Points in time, as the crate chrono reads, checks and writes them.

use chrono::{DateTime, SecondsFormat, Utc};
use vstd::prelude::*;

verus! {

/// The seconds since 1970 for which chrono has a date: from the first day of the
/// year -262143 to the last of the year 262142.
pub open spec fn representable(secs: int) -> bool {
    -8_334_601_228_800 <= secs <= 8_210_266_876_799
}

/// The RFC 3339 text of a point in time in UTC, with milliseconds and a `Z`.
pub uninterp spec fn rfc3339_millis(secs: i64, nanos: u32) -> Seq<char>;

/// `DateTime::<Utc>::from_timestamp` of the crate chrono: succeeds on the seconds
/// that have a date, and then stands for what it was given.
#[verifier::external_body]
fn checked_timestamp(secs: i64, nanos: u32) -> (r: Option<(i64, u32)>)
    requires
        nanos < 1_000_000_000,
    ensures
        r == (if representable(secs as int) {
            Some((secs, nanos))
        } else {
            None
        }),
{
    match DateTime::<Utc>::from_timestamp(secs, nanos) {
        Some(t) => Some((t.timestamp(), t.timestamp_subsec_nanos())),
        None => None,
    }
}

/// `DateTime::to_rfc3339_opts` of the crate chrono, with milliseconds and a `Z`.
/// The contract names the text, which depends on the point in time alone.
#[verifier::external_body]
fn write_rfc3339(secs: i64, nanos: u32) -> (r: String)
    requires
        representable(secs as int),
        nanos < 1_000_000_000,
    ensures
        r@ == rfc3339_millis(secs, nanos),
{
    match DateTime::<Utc>::from_timestamp(secs, nanos) {
        Some(t) => t.to_rfc3339_opts(SecondsFormat::Millis, true),
        None => String::new(),
    }
}

/// `Utc::now` of the crate chrono. Which time it is depends on the system clock;
/// the contract says that it is one that chrono has a date for, no earlier than
/// 1970. A clock that stands before 1970 makes chrono panic.
#[verifier::external_body]
fn read_clock() -> (r: (i64, u32))
    ensures
        0 <= r.0,
        representable(r.0 as int),
        r.1 < 1_000_000_000,
{
    let now = Utc::now();
    (now.timestamp(), now.timestamp_subsec_nanos())
}

/// A point in time in UTC.
#[derive(Debug, Clone, Copy, PartialEq, Eq, Structural)]
pub struct UtcTime {
    secs: i64,
    nanos: u32,
}

impl View for UtcTime {
    type V = (i64, u32);

    closed spec fn view(&self) -> (i64, u32) {
        (self.secs, self.nanos)
    }
}

/// Nanoseconds since 1970.
pub open spec fn nanoseconds(t: (i64, u32)) -> int {
    t.0 * 1_000_000_000 + t.1
}

/// Division that drops the remainder, whatever the sign.
pub open spec fn quotient(a: int, b: int) -> int {
    if a >= 0 {
        a / b
    } else {
        -((-a) / b)
    }
}

/// The number of nanoseconds in a day.
pub const DAY_NANOS: i128 = 86_400_000_000_000;

impl UtcTime {
    #[verifier::type_invariant]
    spec fn valid(self) -> bool {
        representable(self.secs as int) && self.nanos < 1_000_000_000
    }

    /// The point in time that lies `secs` seconds and `nanos` nanoseconds after
    /// the start of 1970, where it has a date.
    pub fn new(secs: i64, nanos: u32) -> (r: Option<UtcTime>)
        ensures
            match r {
                Some(t) => t@ == (secs, nanos) && representable(secs as int) && nanos
                    < 1_000_000_000,
                None => !representable(secs as int) || nanos >= 1_000_000_000,
            },
    {
        if nanos >= 1_000_000_000 {
            return None;
        }
        match checked_timestamp(secs, nanos) {
            Some((secs, nanos)) => Some(UtcTime { secs, nanos }),
            None => None,
        }
    }

    /// What the system clock says.
    pub fn now() -> (r: UtcTime)
        ensures
            0 <= r@.0,
            representable(r@.0 as int),
            r@.1 < 1_000_000_000,
    {
        let (secs, nanos) = read_clock();
        UtcTime { secs, nanos }
    }

    /// The RFC 3339 text, with milliseconds and a `Z`.
    pub fn rfc3339(&self) -> (r: String)
        ensures
            r@ == rfc3339_millis(self@.0, self@.1),
    {
        proof {
            use_type_invariant(self);
        }
        write_rfc3339(self.secs, self.nanos)
    }

    /// How long after `earlier` this point in time lies; negative where it lies
    /// before.
    pub fn since(&self, earlier: &UtcTime) -> (r: TimeSpan)
        ensures
            r@ == nanoseconds(self@) - nanoseconds(earlier@),
    {
        proof {
            use_type_invariant(self);
            use_type_invariant(earlier);
        }
        let a: i128 = self.secs as i128 * 1_000_000_000 + self.nanos as i128;
        let b: i128 = earlier.secs as i128 * 1_000_000_000 + earlier.nanos as i128;
        TimeSpan { nanos: a - b }
    }
}

/// The time between two points in time, to the nanosecond.
#[derive(Debug, Clone, Copy, PartialEq, Eq, Structural)]
pub struct TimeSpan {
    nanos: i128,
}

impl View for TimeSpan {
    type V = int;

    /// Nanoseconds.
    closed spec fn view(&self) -> int {
        self.nanos as int
    }
}

impl TimeSpan {
    #[verifier::type_invariant]
    spec fn valid(self) -> bool {
        -20_000_000_000_000_000_000_000 < self.nanos < 20_000_000_000_000_000_000_000
    }

    /// Whether the span is longer than a number of days.
    pub fn exceeds_days(&self, days: i64) -> (r: bool)
        ensures
            r == (self@ > days * DAY_NANOS),
    {
        self.nanos > days as i128 * DAY_NANOS
    }

    /// The whole days of the span; a part of a day does not count.
    pub fn num_days(&self) -> (r: i64)
        ensures
            r == quotient(self@, DAY_NANOS as int),
    {
        proof {
            use_type_invariant(self);
        }
        if self.nanos >= 0 {
            (self.nanos / DAY_NANOS) as i64
        } else {
            let days: i128 = (-self.nanos) / DAY_NANOS;
            -(days as i64)
        }
    }
}

/// Whole days are counted towards zero: what is left over is less than a divisor and has
/// the sign of the dividend.
pub proof fn law_quotient_drops_the_rest(a: int, b: int)
    requires
        b > 0,
    ensures
        a >= 0 ==> 0 <= a - quotient(a, b) * b < b,
        a <= 0 ==> 0 <= quotient(a, b) * b - a < b,
{
    let n = if a >= 0 {
        a
    } else {
        -a
    };
    vstd::arithmetic::div_mod::lemma_fundamental_div_mod(n, b);
    vstd::arithmetic::div_mod::lemma_mod_bound(n, b);
    let q = n / b;
    assert(b * q == q * b) by (nonlinear_arith);
    assert((-q) * b == -(q * b)) by (nonlinear_arith);
}

/// There is a date for each second of whole days: of the 96,465,292 before 1970 and of
/// the 95,026,237 from then on.
pub proof fn law_dates_are_there_for_whole_days(secs: int)
    ensures
        representable(secs) <==> -96_465_292 <= secs / 86_400 < 95_026_237,
{
}

/// A point in time lies its seconds and its nanoseconds after the start of 1970, and a
/// day has 86400 seconds.
pub proof fn law_time_is_counted_in_nanoseconds(t: (i64, u32))
    ensures
        nanoseconds(t) == t.0 * 1_000_000_000 + t.1,
        DAY_NANOS == 86_400 * 1_000_000_000,
{
}

} // verus!
