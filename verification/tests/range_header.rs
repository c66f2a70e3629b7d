use jukbx::decimal::{decimal_text, parse_u64};
use jukbx::range::{
    content_range_text, parse_range_header, window, HttpRange, RangeError, Window,
};

#[test]
fn inclusive_range_is_read() {
    assert_eq!(parse_range_header("bytes=0-99"), Ok(HttpRange::Inclusive { start: 0, end: 99 }));
}

#[test]
fn open_range_is_read() {
    assert_eq!(parse_range_header("bytes=500-"), Ok(HttpRange::Open { start: 500 }));
}

#[test]
fn suffix_range_is_read() {
    assert_eq!(parse_range_header("bytes=-100"), Ok(HttpRange::Suffix { length: 100 }));
}

#[test]
fn unit_before_equals_is_not_looked_at() {
    assert_eq!(parse_range_header("pages=1-2"), Ok(HttpRange::Inclusive { start: 1, end: 2 }));
    assert_eq!(parse_range_header("=7-"), Ok(HttpRange::Open { start: 7 }));
}

#[test]
fn range_without_delimiter_is_refused() {
    assert_eq!(parse_range_header("bytes=abc"), Err(RangeError::InvalidFormat));
    assert_eq!(parse_range_header("bytes"), Err(RangeError::InvalidFormat));
    assert_eq!(parse_range_header(""), Err(RangeError::InvalidFormat));
    assert_eq!(parse_range_header("0-99"), Err(RangeError::InvalidFormat));
}

#[test]
fn range_with_bad_number_is_refused() {
    assert_eq!(parse_range_header("bytes=a-b"), Err(RangeError::InvalidNumber));
    assert_eq!(parse_range_header("bytes=-"), Err(RangeError::InvalidNumber));
    assert_eq!(parse_range_header("bytes=--5"), Err(RangeError::InvalidNumber));
    assert_eq!(parse_range_header("bytes=1-2-3"), Err(RangeError::InvalidNumber));
    assert_eq!(parse_range_header("bytes= 1-2"), Err(RangeError::InvalidNumber));
    assert_eq!(
        parse_range_header("bytes=0-18446744073709551616"),
        Err(RangeError::InvalidNumber)
    );
}

#[test]
fn largest_bound_is_read() {
    assert_eq!(
        parse_range_header("bytes=0-18446744073709551615"),
        Ok(HttpRange::Inclusive { start: 0, end: u64::MAX })
    );
}

#[test]
fn inclusive_window_keeps_its_bounds() {
    let w = window(HttpRange::Inclusive { start: 0, end: 99 }, 1000).unwrap();
    assert_eq!(w, Window { start: 0, end: 99 });
    assert_eq!(w.len(), 99);
    assert_eq!(
        window(HttpRange::Inclusive { start: 10, end: 5000 }, 1000),
        Some(Window { start: 10, end: 5000 })
    );
    assert_eq!(
        window(HttpRange::Inclusive { start: 5, end: 5 }, 1000),
        Some(Window { start: 5, end: 5 })
    );
}

#[test]
fn inverted_window_does_not_exist() {
    assert_eq!(window(HttpRange::Inclusive { start: 100, end: 99 }, 1000), None);
}

#[test]
fn open_window_runs_to_the_end() {
    let w = window(HttpRange::Open { start: 500 }, 1000).unwrap();
    assert_eq!(w, Window { start: 500, end: 1000 });
    assert_eq!(w.len(), 500);
    assert_eq!(window(HttpRange::Open { start: 1000 }, 1000), Some(Window { start: 1000, end: 1000 }));
    assert_eq!(window(HttpRange::Open { start: 1001 }, 1000), None);
}

#[test]
fn suffix_window_is_the_tail() {
    let w = window(HttpRange::Suffix { length: 100 }, 1000).unwrap();
    assert_eq!(w, Window { start: 900, end: 1000 });
    assert_eq!(w.len(), 100);
    assert_eq!(window(HttpRange::Suffix { length: 1000 }, 1000), Some(Window { start: 0, end: 1000 }));
    assert_eq!(window(HttpRange::Suffix { length: 1001 }, 1000), None);
}

#[test]
fn content_range_is_written() {
    assert_eq!(content_range_text(Window { start: 0, end: 99 }, 1234), "bytes 0-99/1234");
    assert_eq!(content_range_text(Window { start: 900, end: 1000 }, 1000), "bytes 900-1000/1000");
}

#[test]
fn decimal_numbers_are_written() {
    assert_eq!(decimal_text(0), "0");
    assert_eq!(decimal_text(7), "7");
    assert_eq!(decimal_text(10), "10");
    assert_eq!(decimal_text(1905), "1905");
    assert_eq!(decimal_text(u64::MAX), "18446744073709551615");
}

#[test]
fn decimal_numbers_are_read() {
    assert_eq!(parse_u64("0"), Some(0));
    assert_eq!(parse_u64("007"), Some(7));
    assert_eq!(parse_u64("+42"), Some(42));
    assert_eq!(parse_u64("18446744073709551615"), Some(u64::MAX));
    assert_eq!(parse_u64("18446744073709551616"), None);
    assert_eq!(parse_u64("99999999999999999999999"), None);
    assert_eq!(parse_u64(""), None);
    assert_eq!(parse_u64("+"), None);
    assert_eq!(parse_u64("-1"), None);
    assert_eq!(parse_u64("++1"), None);
    assert_eq!(parse_u64("1+"), None);
    assert_eq!(parse_u64("12a"), None);
    assert_eq!(parse_u64(" 1"), None);
    assert_eq!(parse_u64("١٢"), None);
}

#[test]
fn written_numbers_read_back() {
    for n in [0u64, 1, 9, 10, 99, 100, 12345, u64::MAX - 1, u64::MAX] {
        assert_eq!(parse_u64(&decimal_text(n)), Some(n));
        assert_eq!("12".parse::<u64>().ok(), parse_u64("12"));
    }
}
