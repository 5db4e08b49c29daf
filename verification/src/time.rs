//! Points in time and the `--since` argument: relative durations such as
//! `30m` or `2d`, RFC 3339 times, and plain dates.

use crate::text::{
    chars_of, dec_int, is_digit, is_ws, lemma_dec_nat, lemma_parse_dec_int, parse_i64, parse_int_spec,
    trim, trim_end, trim_start, trimmed,
};
use vstd::prelude::*;

verus! {

/// A UTC point in time: seconds since the Unix epoch and the nanoseconds
/// within that second (up to 1 999 999 999 during a leap second, as `chrono`
/// represents it).
#[derive(Clone, Copy, Debug, PartialEq, Eq, Structural)]
pub struct Timestamp {
    pub secs: i64,
    pub nanos: u32,
}

/// Earliest second `chrono` represents (`-262143-01-01T00:00:00Z`).
pub const MIN_UTC_SECS: i64 = -8334601228800;

/// Latest second `chrono` represents (`+262142-12-31T23:59:59Z`).
pub const MAX_UTC_SECS: i64 = 8210266876799;

/// Whether `secs` is within the range of `chrono` times.
pub open spec fn in_utc_range(secs: int) -> bool {
    MIN_UTC_SECS <= secs <= MAX_UTC_SECS
}

/// Largest number of whole seconds a `chrono::TimeDelta` holds
/// (`i64::MAX` milliseconds, rounded down to seconds).
pub const MAX_DELTA_SECS: i64 = 9223372036854775;

/// Seconds in one unit of a duration suffix: `s`, `m`, `h`, `d`, `w`.
pub open spec fn unit_seconds(c: char) -> Option<int> {
    if c == 's' {
        Some(1)
    } else if c == 'm' {
        Some(60)
    } else if c == 'h' {
        Some(3600)
    } else if c == 'd' {
        Some(86400)
    } else if c == 'w' {
        Some(604800)
    } else {
        None
    }
}

/// The number and unit of a duration text such as `30m`: the text is
/// trimmed, the last character is the unit and the rest an `i64`.
pub open spec fn duration_parts(s: Seq<char>) -> Option<(int, int)> {
    let t = trimmed(s);
    if t.len() == 0 {
        None
    } else {
        match parse_int_spec(t.drop_last(), true, i64::MIN as int, i64::MAX as int) {
            None => None,
            Some(n) => match unit_seconds(t.last()) {
                None => None,
                Some(u) => Some((n, u)),
            },
        }
    }
}

/// Whether reading `s` as a duration stops the program: the number of
/// seconds it names does not fit in a `chrono::TimeDelta`.
pub open spec fn duration_overflows(s: Seq<char>) -> bool {
    match duration_parts(s) {
        Some((n, u)) => !(-MAX_DELTA_SECS <= n * u <= MAX_DELTA_SECS),
        None => false,
    }
}

/// Whether the last character of the trimmed text is more than one byte in
/// UTF-8, which the text cannot be split before.
pub open spec fn duration_split_fails(s: Seq<char>) -> bool {
    let t = trimmed(s);
    t.len() > 0 && t.last() as u32 >= 0x80
}

/// The number of seconds a duration text names (`1h` is 3600).
pub open spec fn duration_secs_spec(s: Seq<char>) -> Option<int> {
    match duration_parts(s) {
        Some((n, u)) => Some(n * u),
        None => None,
    }
}

/// A duration written as an `i64` followed by a unit letter reads back as
/// that many units, in seconds.
pub proof fn lemma_duration_read_back(n: i64, unit: char)
    requires
        unit_seconds(unit) is Some,
    ensures
        duration_secs_spec(dec_int(n as int) + seq![unit]) == Some(
            n * unit_seconds(unit)->0,
        ),
{
    let d = dec_int(n as int);
    let s = d + seq![unit];
    assert(d.len() >= 1 && (is_digit(d[0]) || d[0] == '-')) by {
        if n < 0 {
            lemma_dec_nat((-n) as nat);
        } else {
            lemma_dec_nat(n as nat);
            assert(is_digit(d[0]));
        }
    }
    assert(s[0] == d[0]);
    assert(!is_ws(s[0]));
    assert(trim_start(s) == s);
    assert(!is_ws(s.last()));
    assert(trim_end(s) == s);
    assert(trimmed(s) == s);
    assert(s.drop_last() =~= d);
    lemma_parse_dec_int(n as int, true, i64::MIN as int, i64::MAX as int);
}

fn unit_seconds_exec(c: char) -> (r: Option<i64>)
    ensures
        r matches Some(v) ==> unit_seconds(c) == Some(v as int),
        r is None ==> unit_seconds(c) is None,
{
    if c == 's' {
        Some(1)
    } else if c == 'm' {
        Some(60)
    } else if c == 'h' {
        Some(3600)
    } else if c == 'd' {
        Some(86400)
    } else if c == 'w' {
        Some(604800)
    } else {
        None
    }
}

/// Reads a duration such as `1h`, `30m`, `2d`, `45s` or `1w` as a number of
/// seconds; `None` when the text is not one.
pub fn parse_duration(s: &str) -> (r: Option<i64>)
    requires
        !duration_split_fails(s@),
        !duration_overflows(s@),
    ensures
        r matches Some(v) ==> duration_secs_spec(s@) == Some(v as int),
        r is None ==> duration_secs_spec(s@) is None,
        r matches Some(v) ==> -MAX_DELTA_SECS <= v <= MAX_DELTA_SECS,
{
    let sc = chars_of(s);
    let t = trim(sc.as_slice());
    if t.len() == 0 {
        return None;
    }
    let last = t[t.len() - 1];
    let mut num: Vec<char> = Vec::new();
    let mut i: usize = 0;
    let stop: usize = t.len() - 1;
    while i < stop
        invariant
            t@.len() > 0,
            stop == t@.len() - 1,
            0 <= i <= t@.len() - 1,
            num@ == t@.subrange(0, i as int),
        decreases t@.len() - i,
    {
        num.push(t[i]);
        i = i + 1;
        assert(num@ =~= t@.subrange(0, i as int));
    }
    assert(num@ =~= t@.drop_last());
    let n = match parse_i64(num.as_slice()) {
        Some(n) => n,
        None => return None,
    };
    let u = match unit_seconds_exec(last) {
        Some(u) => u,
        None => return None,
    };
    assert(-MAX_DELTA_SECS <= n as int * u as int <= MAX_DELTA_SECS);
    assert(-MAX_DELTA_SECS <= n * u <= MAX_DELTA_SECS) by (nonlinear_arith)
        requires
            -MAX_DELTA_SECS <= n as int * u as int <= MAX_DELTA_SECS,
    ;
    Some(n * u)
}

/// The UTC time that `chrono` reads from RFC 3339 text, as seconds and
/// nanoseconds.
pub uninterp spec fn spec_rfc3339_utc(text: Seq<char>) -> Option<(i64, u32)>;

/// The Unix time of midnight UTC on the date that `chrono` reads from text
/// with the format `%Y-%m-%d`.
pub uninterp spec fn spec_ymd_midnight(text: Seq<char>) -> Option<i64>;

/// Reads an RFC 3339 time (`chrono::DateTime::parse_from_rfc3339`, then
/// `with_timezone(&Utc)`). Trusted: the result is the UTC time `chrono`
/// reads, within `chrono`'s range; `None` when it rejects the text.
#[verifier::external_body]
pub(crate) fn parse_rfc3339_utc(text: &str) -> (r: Option<(i64, u32)>)
    ensures
        r == spec_rfc3339_utc(text@),
        r matches Some(t) ==> in_utc_range(t.0 as int),
{
    match chrono::DateTime::parse_from_rfc3339(text) {
        Ok(dt) => {
            let u = dt.with_timezone(&chrono::Utc);
            Some((u.timestamp(), u.timestamp_subsec_nanos()))
        },
        Err(_) => None,
    }
}

/// Reads a `%Y-%m-%d` date (`chrono::NaiveDate::parse_from_str`, at
/// midnight UTC). Trusted: the result is the Unix time of that midnight,
/// within `chrono`'s range; `None` when `chrono` rejects the text.
#[verifier::external_body]
pub(crate) fn parse_ymd_midnight(text: &str) -> (r: Option<i64>)
    ensures
        r == spec_ymd_midnight(text@),
        r matches Some(t) ==> in_utc_range(t as int),
{
    match chrono::NaiveDate::parse_from_str(text, "%Y-%m-%d") {
        Ok(d) => match d.and_hms_opt(0, 0, 0) {
            Some(dt) => Some(dt.and_utc().timestamp()),
            None => None,
        },
        Err(_) => None,
    }
}

/// What a `--since` value names, tried in order: a duration before `now`,
/// an RFC 3339 time, a date at midnight UTC.
pub open spec fn since_spec(text: Seq<char>, now: Timestamp) -> Option<Timestamp> {
    match duration_secs_spec(text) {
        Some(d) => Some(Timestamp { secs: (now.secs - d) as i64, nanos: now.nanos }),
        None => match spec_rfc3339_utc(text) {
            Some(t) => Some(Timestamp { secs: t.0, nanos: t.1 }),
            None => match spec_ymd_midnight(text) {
                Some(m) => Some(Timestamp { secs: m, nanos: 0 }),
                None => None,
            },
        },
    }
}

/// Whether a `--since` value stops the program: its duration does not fit,
/// or the time it names before `now` is outside `chrono`'s range.
pub open spec fn since_overflows(text: Seq<char>, now: Timestamp) -> bool {
    duration_split_fails(text) || duration_overflows(text) || match duration_secs_spec(text) {
        Some(d) => !in_utc_range(now.secs - d),
        None => false,
    }
}

/// Reads a `--since` value relative to `now`.
pub fn parse_since_time(text: &str, now: Timestamp) -> (r: Option<Timestamp>)
    requires
        !since_overflows(text@, now),
    ensures
        r == since_spec(text@, now),
{
    match parse_duration(text) {
        Some(d) => {
            assert(in_utc_range(now.secs - d));
            return Some(Timestamp { secs: now.secs - d, nanos: now.nanos });
        },
        None => {},
    }
    match parse_rfc3339_utc(text) {
        Some(t) => return Some(Timestamp { secs: t.0, nanos: t.1 }),
        None => {},
    }
    match parse_ymd_midnight(text) {
        Some(m) => Some(Timestamp { secs: m, nanos: 0 }),
        None => None,
    }
}

/// Whether reading a `--since` value relative to `now` stops the program
/// (see `since_overflows`); the caller tests it before `parse_since_time`.
pub fn since_would_overflow(text: &str, now: Timestamp) -> (r: bool)
    ensures
        r == since_overflows(text@, now),
{
    let sc = chars_of(text);
    let t = trim(sc.as_slice());
    if t.len() == 0 {
        return false;
    }
    let last = t[t.len() - 1];
    if last as u32 >= 0x80 {
        return true;
    }
    let mut num: Vec<char> = Vec::new();
    let mut i: usize = 0;
    let stop: usize = t.len() - 1;
    while i < stop
        invariant
            t@.len() > 0,
            stop == t@.len() - 1,
            0 <= i <= t@.len() - 1,
            num@ == t@.subrange(0, i as int),
        decreases t@.len() - i,
    {
        num.push(t[i]);
        i = i + 1;
        assert(num@ =~= t@.subrange(0, i as int));
    }
    assert(num@ =~= t@.drop_last());
    let n = match parse_i64(num.as_slice()) {
        Some(n) => n,
        None => return false,
    };
    let u = match unit_seconds_exec(last) {
        Some(u) => u,
        None => return false,
    };
    assert(1 <= u <= 604800);
    assert(-9223372036854775808 * 604800 <= n as int * u as int <= 9223372036854775807 * 604800)
        by (nonlinear_arith)
        requires
            i64::MIN <= n <= i64::MAX,
            1 <= u <= 604800,
    ;
    let d: i128 = (n as i128) * (u as i128);
    if d < -(MAX_DELTA_SECS as i128) || d > MAX_DELTA_SECS as i128 {
        return true;
    }
    let at: i128 = now.secs as i128 - d;
    at < MIN_UTC_SECS as i128 || at > MAX_UTC_SECS as i128
}

} // verus!
