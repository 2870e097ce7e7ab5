// Number text, whitespace tokens and the `@@` separator.
use rwui::text::{
    i32_to_decimal, parse_i32, split_event, split_whitespace, starts_with, u64_to_decimal,
    usize_to_decimal,
};

#[test]
fn decimal_writing() {
    assert_eq!(u64_to_decimal(0), "0");
    assert_eq!(u64_to_decimal(9), "9");
    assert_eq!(u64_to_decimal(10), "10");
    assert_eq!(u64_to_decimal(1234567890), "1234567890");
    assert_eq!(u64_to_decimal(u64::MAX), u64::MAX.to_string());
    assert_eq!(usize_to_decimal(42), "42");
    assert_eq!(i32_to_decimal(-42), "-42");
    assert_eq!(i32_to_decimal(0), "0");
    assert_eq!(i32_to_decimal(i32::MIN), i32::MIN.to_string());
    assert_eq!(i32_to_decimal(i32::MAX), i32::MAX.to_string());
}

#[test]
fn parse_like_std() {
    for s in [
        "0", "7", "+7", "-7", "-0", "007", "2147483647", "-2147483648", "2147483648",
        "-2147483649", "", "-", "+", "12a", " 1", "1 ", "0.5", "99999999999999999999", "+-1",
        "٣",
    ] {
        assert_eq!(parse_i32(s), s.parse::<i32>().ok(), "parsing {:?}", s);
    }
}

#[test]
fn parse_reads_back_decimal() {
    for n in [0, 1, -1, 255, -1000, i32::MAX, i32::MIN] {
        assert_eq!(parse_i32(&i32_to_decimal(n)), Some(n));
    }
}

#[test]
fn whitespace_tokens_like_std() {
    for s in [
        "GET /static/web2.css HTTP/1.1",
        "  GET   /  ",
        "",
        "   ",
        "q\n",
        "a\tb\u{3000}c\u{a0}d",
        "one",
    ] {
        let expected: Vec<String> = s.split_whitespace().map(|t| t.to_string()).collect();
        assert_eq!(split_whitespace(s), expected, "tokens of {:?}", s);
    }
}

#[test]
fn event_split() {
    assert_eq!(split_event("/ID3@@hello"), ("/ID3".to_string(), Some("hello".to_string())));
    assert_eq!(split_event("/ID3"), ("/ID3".to_string(), None));
    assert_eq!(split_event("CLOSE"), ("CLOSE".to_string(), None));
    assert_eq!(split_event("/a@@b@@c"), ("/a".to_string(), Some("b".to_string())));
    assert_eq!(split_event("@@@"), ("".to_string(), Some("@".to_string())));
    assert_eq!(split_event("/x@@"), ("/x".to_string(), Some("".to_string())));
    assert_eq!(split_event("a@b"), ("a@b".to_string(), None));
}

#[test]
fn event_split_like_std() {
    for s in ["/ID1@@v", "x@@@@y", "@@", "", "é@@ü@@", "/r@@1@2"] {
        let parts: Vec<&str> = s.split("@@").collect();
        let (first, second) = split_event(s);
        assert_eq!(first, parts[0]);
        assert_eq!(second.as_deref(), parts.get(1).copied());
    }
}

#[test]
fn prefix_test() {
    assert!(starts_with("/static/a.css", "/static/"));
    assert!(!starts_with("/stat", "/static/"));
    assert!(starts_with("abc", ""));
    assert!(!starts_with("xbc", "a"));
}
