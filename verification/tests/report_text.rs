use proxy_stats::report::{push_decimal, Statistics};

#[test]
fn as_json_lists_the_four_fields_in_order() {
    let s = Statistics { downloads: 2, hits: 1, misses: 1, bandwidth_saved: 2048 };
    assert_eq!(
        s.as_json(),
        r#"{"downloads": 2, "hits": 1, "misses": 1, "bandwidth_saved": 2048}"#
    );
}

#[test]
fn as_json_of_an_empty_window_is_all_zero() {
    let s = Statistics { downloads: 0, hits: 0, misses: 0, bandwidth_saved: 0 };
    assert_eq!(
        s.as_json(),
        r#"{"downloads": 0, "hits": 0, "misses": 0, "bandwidth_saved": 0}"#
    );
}

#[test]
fn as_json_writes_negative_and_extreme_numbers_in_full() {
    let s = Statistics {
        downloads: 10,
        hits: 12,
        misses: -2,
        bandwidth_saved: i64::MIN,
    };
    assert_eq!(
        s.as_json(),
        r#"{"downloads": 10, "hits": 12, "misses": -2, "bandwidth_saved": -9223372036854775808}"#
    );
    let t = Statistics {
        downloads: i64::MAX,
        hits: 100,
        misses: 1_000_000_007,
        bandwidth_saved: 9,
    };
    assert_eq!(
        t.as_json(),
        r#"{"downloads": 9223372036854775807, "hits": 100, "misses": 1000000007, "bandwidth_saved": 9}"#
    );
}

#[test]
fn as_json_agrees_with_the_standard_formatting() {
    let values: Vec<i64> = vec![0, 1, 9, 10, 11, 99, 100, 101, 12345, -1, -10, -999, i64::MAX, i64::MIN];
    for v in values {
        let s = Statistics { downloads: v, hits: v, misses: 0, bandwidth_saved: v };
        let expected = format!(
            "{{\"downloads\": {}, \"hits\": {}, \"misses\": {}, \"bandwidth_saved\": {}}}",
            v, v, 0, v
        );
        assert_eq!(s.as_json(), expected);
    }
}

#[test]
fn push_decimal_appends_to_what_is_there() {
    let mut out = String::from("n=");
    push_decimal(&mut out, 407);
    assert_eq!(out, "n=407");
    push_decimal(&mut out, -3);
    assert_eq!(out, "n=407-3");
    push_decimal(&mut out, 0);
    assert_eq!(out, "n=407-30");
}

#[test]
fn from_counts_derives_the_misses() {
    let s = Statistics::from_counts(2, 1, 2048);
    assert_eq!(s, Statistics { downloads: 2, hits: 1, misses: 1, bandwidth_saved: 2048 });
    assert_eq!(s.downloads, s.hits + s.misses);
}

#[test]
fn from_counts_does_not_overflow_at_the_ends_of_the_range() {
    let s = Statistics::from_counts(i32::MIN, i32::MAX, -5);
    assert_eq!(s.downloads, -2147483648);
    assert_eq!(s.hits, 2147483647);
    assert_eq!(s.misses, -4294967295);
    assert_eq!(s.bandwidth_saved, -5);
    assert_eq!(s.downloads, s.hits + s.misses);
    let t = Statistics::from_counts(i32::MAX, i32::MIN, 0);
    assert_eq!(t.misses, 4294967295);
}
