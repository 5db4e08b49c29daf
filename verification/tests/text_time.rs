use tamandua_ctl::text::{dec_i64, parse_i32, parse_i64, parse_u16, parse_u64, split_whitespace};
use tamandua_ctl::time::{
    parse_duration, parse_since_time, since_would_overflow, Timestamp, MAX_UTC_SECS, MIN_UTC_SECS,
};

fn now() -> Timestamp {
    Timestamp { secs: 1_700_000_000, nanos: 5 }
}

#[test]
fn durations_read_as_seconds() {
    assert_eq!(parse_duration("45s"), Some(45));
    assert_eq!(parse_duration("30m"), Some(1800));
    assert_eq!(parse_duration(" 1h "), Some(3600));
    assert_eq!(parse_duration("2d"), Some(172800));
    assert_eq!(parse_duration("1w"), Some(604800));
    assert_eq!(parse_duration("-2h"), Some(-7200));
    assert_eq!(parse_duration("+3s"), Some(3));
    assert_eq!(parse_duration("h"), None);
    assert_eq!(parse_duration("10x"), None);
    assert_eq!(parse_duration(""), None);
    assert_eq!(parse_duration("1.5h"), None);
}

#[test]
fn duration_text_reads_back() {
    for n in [-90i64, 0, 7, 123456] {
        for (u, secs) in [('s', 1i64), ('m', 60), ('h', 3600), ('d', 86400), ('w', 604800)] {
            let text: String = dec_i64(n).into_iter().chain(std::iter::once(u)).collect();
            assert_eq!(parse_duration(&text), Some(n * secs), "{text}");
        }
    }
}

#[test]
fn since_values() {
    assert_eq!(
        parse_since_time("1h", now()),
        Some(Timestamp { secs: 1_700_000_000 - 3600, nanos: 5 })
    );
    assert_eq!(
        parse_since_time("2024-01-01T00:00:00Z", now()),
        Some(Timestamp { secs: 1_704_067_200, nanos: 0 })
    );
    assert_eq!(
        parse_since_time("2024-01-01T01:00:00+01:00", now()),
        Some(Timestamp { secs: 1_704_067_200, nanos: 0 })
    );
    assert_eq!(
        parse_since_time("2024-01-01", now()),
        Some(Timestamp { secs: 1_704_067_200, nanos: 0 })
    );
    assert_eq!(parse_since_time("yesterday", now()), None);
}

#[test]
fn since_overflow_detection() {
    assert!(!since_would_overflow("1h", now()));
    assert!(!since_would_overflow("2024-01-01", now()));
    assert!(since_would_overflow("9223372036854775807w", now()));
    assert!(since_would_overflow("1é", now()));
    assert!(!since_would_overflow("é1", now()));
    let edge = Timestamp { secs: MIN_UTC_SECS, nanos: 0 };
    assert!(since_would_overflow("1s", edge));
    assert!(!since_would_overflow("-1s", edge));
    let top = Timestamp { secs: MAX_UTC_SECS, nanos: 0 };
    assert!(since_would_overflow("-1s", top));
}

#[test]
fn chrono_range_constants() {
    assert_eq!(chrono::DateTime::<chrono::Utc>::MIN_UTC.timestamp(), MIN_UTC_SECS);
    assert_eq!(chrono::DateTime::<chrono::Utc>::MAX_UTC.timestamp(), MAX_UTC_SECS);
}

#[test]
fn integers_parse_like_std() {
    let c = |s: &str| s.chars().collect::<Vec<char>>();
    assert_eq!(parse_i64(&c("-9223372036854775808")), Some(i64::MIN));
    assert_eq!(parse_i64(&c("9223372036854775808")), None);
    assert_eq!(parse_u64(&c("18446744073709551615")), Some(u64::MAX));
    assert_eq!(parse_u64(&c("-0")), None);
    assert_eq!(parse_i32(&c("+17")), Some(17));
    assert_eq!(parse_u16(&c("65536")), None);
    assert_eq!(parse_u16(&c("")), None);
    for s in ["0", "-1", "+5", "007", "x", "1 ", "-", "+"] {
        assert_eq!(parse_i64(&c(s)), s.parse::<i64>().ok(), "{s}");
    }
}

#[test]
fn words_split_on_whitespace() {
    let c: Vec<char> = "  a  bc\td ".chars().collect();
    let w: Vec<String> = split_whitespace(&c).into_iter().map(|v| v.into_iter().collect()).collect();
    assert_eq!(w, vec!["a", "bc", "d"]);
}
