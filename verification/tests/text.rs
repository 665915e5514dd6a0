use cosjun::text::{clone_texts, contains_text, parse_page_count, push_decimal, to_decimal};

#[test]
fn decimal_numerals() {
    assert_eq!(to_decimal(0), "0");
    assert_eq!(to_decimal(7), "7");
    assert_eq!(to_decimal(10), "10");
    assert_eq!(to_decimal(40), "40");
    assert_eq!(to_decimal(1234567890), "1234567890");
    assert_eq!(to_decimal(u64::MAX), "18446744073709551615");
}

#[test]
fn decimal_is_appended() {
    let mut s = String::from("page/");
    push_decimal(&mut s, 305);
    assert_eq!(s, "page/305");
}

#[test]
fn page_counts_that_are_read() {
    assert_eq!(parse_page_count("7"), Some(7));
    assert_eq!(parse_page_count("12"), Some(12));
    assert_eq!(parse_page_count("+12"), Some(12));
    assert_eq!(parse_page_count("-3"), Some(-3));
    assert_eq!(parse_page_count("-0"), Some(0));
    assert_eq!(parse_page_count("007"), Some(7));
    assert_eq!(parse_page_count("2147483647"), Some(i32::MAX));
    assert_eq!(parse_page_count("-2147483648"), Some(i32::MIN));
    assert_eq!(parse_page_count("0000000000000000000000012"), Some(12));
}

#[test]
fn page_counts_that_are_refused() {
    assert_eq!(parse_page_count(""), None);
    assert_eq!(parse_page_count("+"), None);
    assert_eq!(parse_page_count("-"), None);
    assert_eq!(parse_page_count(" 5"), None);
    assert_eq!(parse_page_count("5 "), None);
    assert_eq!(parse_page_count("5\n"), None);
    assert_eq!(parse_page_count("--5"), None);
    assert_eq!(parse_page_count("+-5"), None);
    assert_eq!(parse_page_count("1,000"), None);
    assert_eq!(parse_page_count("12a"), None);
    assert_eq!(parse_page_count("Next"), None);
    assert_eq!(parse_page_count("2147483648"), None);
    assert_eq!(parse_page_count("-2147483649"), None);
    assert_eq!(parse_page_count("99999999999999999999999999"), None);
    assert_eq!(parse_page_count("\u{ff11}\u{ff12}"), None);
}

#[test]
fn page_count_agrees_with_the_standard_parser() {
    let samples = [
        "0", "1", "-1", "+1", "42", "0042", "-0042", "2147483647", "2147483648", "-2147483648",
        "-2147483649", "", "+", "-", "1 ", " 1", "1.0", "0x10", "١٢", "9223372036854775808",
    ];
    for s in samples {
        assert_eq!(parse_page_count(s), s.parse::<i32>().ok(), "{:?}", s);
    }
}

#[test]
fn substring_search() {
    assert!(contains_text("{\"status\":\"1\",\"msg\":\"ok\"}", "\"status\":\"1\""));
    assert!(!contains_text("{\"status\":\"0\",\"msg\":\"no\"}", "\"status\":\"1\""));
    assert!(contains_text("abc", ""));
    assert!(contains_text("", ""));
    assert!(!contains_text("", "a"));
    assert!(!contains_text("ab", "abc"));
    assert!(contains_text("xxabc", "abc"));
    assert!(contains_text("abcxx", "abc"));
    assert!(contains_text("aab", "ab"));
    assert!(!contains_text("abab", "abb"));
    assert!(contains_text("登录成功\"status\":\"1\"", "\"status\":\"1\""));
}

#[test]
fn substring_search_agrees_with_the_standard_one() {
    let hays = ["", "a", "ab", "aab", "abcabd", "日本語のテキスト", "\"status\":\"1\""];
    let needles = ["", "a", "b", "ab", "abd", "本語", "キス", "status", "x"];
    for h in hays {
        for n in needles {
            assert_eq!(contains_text(h, n), h.contains(n), "{:?} in {:?}", n, h);
        }
    }
}

#[test]
fn texts_are_copied_in_order() {
    let v = vec!["a".to_string(), String::new(), "c d".to_string()];
    assert_eq!(clone_texts(&v), v);
    assert_eq!(clone_texts(&Vec::new()), Vec::<String>::new());
}
