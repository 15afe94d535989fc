use page::number::{decimal_chars, parse_u64, push_decimal, ParseIntError};
use page::text::{
    append_str, chars_of, string_from_chars, text_contains,
    text_equals, text_starts_with, trim_chars,
};

fn chars(s: &str) -> Vec<char> {
    s.chars().collect()
}

#[test]
fn decimal_matches_to_string() {
    for n in [0u128, 7, 10, 99, 100, 12345, u64::MAX as u128, u128::MAX] {
        assert_eq!(decimal_chars(n), chars(&n.to_string()));
        let mut s = "x=".to_string();
        push_decimal(&mut s, n);
        assert_eq!(s, format!("x={}", n));
    }
}

#[test]
fn parse_matches_std() {
    for t in ["", "0", "42", "+7", "+", "-", "-1", "12a", "007", "18446744073709551615",
        "18446744073709551616", "99999999999999999999", " 1", "1_000"] {
        let expected = t.parse::<u64>().map_err(|e| e.to_string());
        let got = parse_u64(&chars(t)).map_err(|e| e.message());
        assert_eq!(got, expected, "input {:?}", t);
    }
}

#[test]
fn parse_errors_name_their_kind() {
    assert_eq!(parse_u64(&chars("")), Err(ParseIntError::Empty));
    assert_eq!(parse_u64(&chars("x")), Err(ParseIntError::InvalidDigit));
    assert_eq!(parse_u64(&chars("18446744073709551616")), Err(ParseIntError::PosOverflow));
}

#[test]
fn decimal_reads_back() {
    for n in [0u64, 1, 9, 10, 123456789, u64::MAX] {
        let text = decimal_chars(n as u128);
        assert_eq!(parse_u64(&text), Ok(n));
    }
}

#[test]
fn trim_matches_std() {
    for t in ["", "   ", " a b ", "\t\nx\u{3000}", "plain"] {
        assert_eq!(trim_chars(&chars(t)), chars(t.trim()));
    }
}

#[test]
fn string_building() {
    let mut s = "a".to_string();
    append_str(&mut s, "bç");
    assert_eq!(s, "abç");
    assert_eq!(string_from_chars(&vec!['x', 'é']), "xé");
    assert_eq!(chars_of("héllo"), chars("héllo"));
}

#[test]
fn searching_text() {
    assert!(text_contains(&chars("err: PreInitializationSwap now"), &chars("PreInitializationSwap")));
    assert!(!text_contains(&chars("short"), &chars("longer text")));
    assert!(text_contains(&chars("abc"), &chars("")));
    assert!(text_starts_with(&chars("/wallet/x"), &chars("/wallet")));
    assert!(!text_starts_with(&chars("/wal"), &chars("/wallet")));
    assert!(!text_starts_with(&chars("/profile"), &chars("/wallet")));
    assert!(text_equals(&chars("ready"), &chars("ready")));
    assert!(!text_equals(&chars("ready"), &chars("readY")));
    assert!(!text_equals(&chars("ready"), &chars("read")));
}
