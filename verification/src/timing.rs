//! Instants and the render latency measured between them.
use vstd::prelude::*;

verus! {

/// An instant as chrono's `DateTime<Utc>` reports it: `timestamp()` whole seconds since
/// the Unix epoch and `timestamp_subsec_nanos()` nanoseconds, the latter reaching past
/// `999_999_999` only during a leap second.
#[derive(Clone, Copy, Debug, PartialEq, Eq)]
pub struct UtcTime {
    /// Non-leap seconds since 1970-01-01T00:00:00Z.
    pub secs: i64,
    /// Nanoseconds within the second; `>= 1_000_000_000` during a leap second.
    pub nanos: u32,
}

/// What `chrono::DateTime::parse_from_rfc3339` makes of a text: `None` where it refuses
/// the text, else the instant it denotes.
pub uninterp spec fn rfc3339_instant(text: Seq<char>) -> Option<UtcTime>;

/// Calls `chrono::DateTime::parse_from_rfc3339` and reports the instant it parsed through
/// chrono's `timestamp()` and `timestamp_subsec_nanos()`, or `None` where chrono returns
/// an error. Claimed: the result is `rfc3339_instant` of the text, a function of the text
/// alone, and an instant it yields lies within `within_four_digit_years`: chrono reads a
/// four-digit year, an offset under a day (`FixedOffset::east_opt`) and a nanosecond below
/// `2_000_000_000` (`NaiveTime::from_hms_nano_opt`). Nothing more is claimed of which
/// texts chrono accepts or what instant it reads.
#[verifier::external_body]
pub(crate) fn parse_rfc3339(text: &str) -> (instant: Option<UtcTime>)
    ensures
        instant == rfc3339_instant(text@),
        instant matches Some(t) ==> within_four_digit_years(t),
{
    match chrono::DateTime::parse_from_rfc3339(text) {
        Ok(t) => Some(UtcTime { secs: t.timestamp(), nanos: t.timestamp_subsec_nanos() }),
        Err(_) => None,
    }
}

/// An instant of a date from year 0000 to year 9999 at an offset of less than a day from
/// UTC, with a nanosecond count below two seconds.
pub open spec fn within_four_digit_years(t: UtcTime) -> bool {
    &&& -62_167_305_600 <= t.secs <= 253_402_387_200
    &&& t.nanos < 2_000_000_000
}

/// An instant that a `chrono::DateTime<Utc>` can hold: between the years -262144 and
/// 262143, with a nanosecond count below two seconds.
pub open spec fn within_chrono_range(t: UtcTime) -> bool {
    &&& -8_334_632_937_600 <= t.secs <= 8_210_298_412_799
    &&& t.nanos < 2_000_000_000
}

/// The instant a request was made: the instant its timestamp denotes, or `now` where
/// the timestamp is not RFC 3339.
pub open spec fn request_instant(timestamp: Seq<char>, now: UtcTime) -> UtcTime {
    instant_or_now(rfc3339_instant(timestamp), now)
}

/// The parsed instant, or `now` where there is none.
pub open spec fn instant_or_now(parsed: Option<UtcTime>, now: UtcTime) -> UtcTime {
    match parsed {
        Some(t) => t,
        None => now,
    }
}

/// Takes the instant a timestamp was parsed to, or `now` where it did not parse.
pub fn time_or_now(parsed: Option<UtcTime>, now: UtcTime) -> (t: UtcTime)
    ensures
        t == instant_or_now(parsed, now),
        parsed matches Some(p) ==> t == p,
        parsed is None ==> t == now,
{
    match parsed {
        Some(t) => t,
        None => now,
    }
}

/// Reads the time of a request from its timestamp, falling back to `now`.
pub fn request_time(timestamp: &str, now: UtcTime) -> (t: UtcTime)
    ensures
        t == request_instant(timestamp@, now),
        rfc3339_instant(timestamp@) matches Some(p) ==> t == p,
        rfc3339_instant(timestamp@) is None ==> t == now,
        rfc3339_instant(timestamp@) is Some ==> within_four_digit_years(t),
{
    time_or_now(parse_rfc3339(timestamp), now)
}

/// Second of the day of an instant.
pub open spec fn day_second(t: UtcTime) -> int {
    t.secs as int % 86400
}

/// The leap second that `to - from` still has to count: one more second when `from`
/// lies in a leap second and `to` later in its day, one less when `to` lies in a leap
/// second and earlier in its day than `from`.
pub open spec fn leap_correction(from: UtcTime, to: UtcTime) -> int {
    if day_second(to) > day_second(from) && from.nanos >= 1_000_000_000 {
        1
    } else if day_second(to) < day_second(from) && to.nanos >= 1_000_000_000 {
        -1
    } else {
        0
    }
}

/// Nanoseconds from `from` to `to`, the `TimeDelta` of `to - from`.
pub open spec fn elapsed_nanos(from: UtcTime, to: UtcTime) -> int {
    (to.secs - from.secs + leap_correction(from, to)) * 1_000_000_000 + to.nanos - from.nanos
}

/// Integer division rounding toward zero.
pub open spec fn div_toward_zero(a: int, d: int) -> int {
    if a >= 0 {
        a / d
    } else {
        -((-a) / d)
    }
}

/// Whole microseconds from `from` to `to`, rounded toward zero, where they fit in an
/// `i64`: what `(to - from).num_microseconds()` gives.
pub open spec fn elapsed_micros(from: UtcTime, to: UtcTime) -> Option<i64> {
    let us = div_toward_zero(elapsed_nanos(from, to), 1000);
    if i64::MIN <= us <= i64::MAX {
        Some(us as i64)
    } else {
        None
    }
}

/// A multiple of 86400 above `2^63`, which makes every `i64` nonnegative without
/// changing its second of the day.
const DAY_ALIGNED_OFFSET: i128 = 9_223_372_036_854_806_400i128;

fn second_of_day(secs: i64) -> (s: i128)
    ensures
        s == secs as int % 86400,
{
    let shifted: i128 = secs as i128 + DAY_ALIGNED_OFFSET;
    assert(DAY_ALIGNED_OFFSET == 86400 * 106_751_991_167_301);
    assert((secs as int + 86400 * 106_751_991_167_301) % 86400 == secs as int % 86400) by {
        vstd::arithmetic::div_mod::lemma_mod_multiples_vanish(106_751_991_167_301, secs as int, 86400);
    }
    let r: u128 = (shifted as u128) % 86400;
    r as i128
}

/// Render latency in microseconds between the request and the completion instant;
/// `None` where it does not fit in an `i64`.
pub fn latency_micros(from: UtcTime, to: UtcTime) -> (us: Option<i64>)
    ensures
        us == elapsed_micros(from, to),
{
    let from_day = second_of_day(from.secs);
    let to_day = second_of_day(to.secs);
    let correction: i128 = if to_day > from_day && from.nanos >= 1_000_000_000 {
        1
    } else if to_day < from_day && to.nanos >= 1_000_000_000 {
        -1
    } else {
        0
    };
    let secs: i128 = to.secs as i128 - from.secs as i128 + correction;
    assert(-0x1_0000_0000_0000_0001 <= secs <= 0x1_0000_0000_0000_0001);
    let total: i128 = secs * 1_000_000_000 + to.nanos as i128 - from.nanos as i128;
    let micros: i128 = if total >= 0 {
        (total as u128 / 1000) as i128
    } else {
        -(((-total) as u128 / 1000) as i128)
    };
    if micros < i64::MIN as i128 || micros > i64::MAX as i128 {
        None
    } else {
        Some(micros as i64)
    }
}

} // verus!

verus! {

/// A request answered at the instant it was made has zero latency.
pub proof fn latency_of_an_instant_to_itself_is_zero(t: UtcTime)
    ensures
        elapsed_micros(t, t) == Some(0i64),
{
    assert(elapsed_nanos(t, t) == 0);
}

} // verus!

verus! {

/// The latency from a request made in a four-digit year to any instant chrono can hold
/// always fits in an `i64`.
pub proof fn latency_from_a_four_digit_year_fits(from: UtcTime, to: UtcTime)
    requires
        within_four_digit_years(from),
        within_chrono_range(to),
    ensures
        elapsed_micros(from, to) is Some,
{
    let n = elapsed_nanos(from, to);
    assert(-8_588_035_324_802_000_000_000 <= n <= 8_272_465_718_402_000_000_000);
    assert(i64::MIN <= div_toward_zero(n, 1000) <= i64::MAX);
}

} // verus!

verus! {

/// Away from leap seconds the latency is the time between the two instants in whole
/// microseconds, rounded toward zero: `us * 1000` lies within a microsecond of the
/// elapsed nanoseconds, on the side of zero. It is there whenever it fits in an `i64`,
/// and two instants with the same sub-second part are a whole number of seconds apart,
/// each worth a million microseconds.
pub proof fn latency_counts_microseconds(from: UtcTime, to: UtcTime)
    requires
        from.nanos < 1_000_000_000,
        to.nanos < 1_000_000_000,
    ensures
        ({
            let n = (to.secs - from.secs) * 1_000_000_000 + to.nanos - from.nanos;
            &&& elapsed_micros(from, to) matches Some(us) ==> {
                &&& n >= 0 ==> us >= 0 && us * 1000 <= n < us * 1000 + 1000
                &&& n < 0 ==> us <= 0 && us * 1000 - 1000 < n <= us * 1000
            }
            &&& -9_223_372_036_854_775_808_000 <= n <= 9_223_372_036_854_775_807_000 ==> elapsed_micros(from, to) is Some
        }),
        from.nanos == to.nanos && -9_223_372_036_854 <= to.secs - from.secs <= 9_223_372_036_854
            ==> elapsed_micros(from, to) == Some(((to.secs - from.secs) * 1_000_000) as i64),
{
    let n = (to.secs - from.secs) * 1_000_000_000 + to.nanos - from.nanos;
    assert(leap_correction(from, to) == 0);
    assert(elapsed_nanos(from, to) == n);
    if from.nanos == to.nanos {
        assert(n == (to.secs - from.secs) * 1000 * 1_000_000);
        assert(div_toward_zero(n, 1000) == (to.secs - from.secs) * 1_000_000);
    }
}

} // verus!

verus! {

/// A leap second lasts one second: from an instant in a leap second to the same moment of
/// the following second, and from a moment of a second to the same moment of the leap
/// second after it, one million microseconds pass.
pub proof fn leap_second_lasts_a_second(s: i64, k: u32)
    requires
        k < 1_000_000_000,
        s < i64::MAX,
        s % 86400 < 86399,
    ensures
        elapsed_micros(UtcTime { secs: s, nanos: (k + 1_000_000_000) as u32 }, UtcTime { secs: (s + 1) as i64, nanos: k }) == Some(1_000_000i64),
        elapsed_micros(UtcTime { secs: s, nanos: k }, UtcTime { secs: s, nanos: (k + 1_000_000_000) as u32 }) == Some(1_000_000i64),
{
    let a = UtcTime { secs: s, nanos: (k + 1_000_000_000) as u32 };
    let b = UtcTime { secs: (s + 1) as i64, nanos: k };
    assert((s + 1) % 86400 == s % 86400 + 1);
    assert(leap_correction(a, b) == 1);
    assert(elapsed_nanos(a, b) == 1_000_000_000);
    let c = UtcTime { secs: s, nanos: k };
    assert(leap_correction(c, a) == 0);
    assert(elapsed_nanos(c, a) == 1_000_000_000);
}

/// Swapping the two instants negates the latency.
pub proof fn latency_is_antisymmetric(from: UtcTime, to: UtcTime)
    ensures
        elapsed_micros(from, to) matches Some(us) ==> (us > i64::MIN ==> elapsed_micros(to, from) == Some((-us) as i64)),
{
    assert(leap_correction(to, from) == -leap_correction(from, to));
    assert(elapsed_nanos(to, from) == -elapsed_nanos(from, to));
}

} // verus!
