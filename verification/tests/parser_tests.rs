use asn1rs::parser::{char_eq_ignore_ascii_case, parse_i64, parse_usize};
use asn1rs::parser::{text_eq_ignore_ascii_case, Token};

#[test]
fn usize_literals() {
    assert_eq!(parse_usize("0"), Some(0));
    assert_eq!(parse_usize("42"), Some(42));
    assert_eq!(parse_usize("+42"), Some(42));
    assert_eq!(parse_usize("007"), Some(7));
    assert_eq!(parse_usize(""), None);
    assert_eq!(parse_usize("+"), None);
    assert_eq!(parse_usize("-1"), None);
    assert_eq!(parse_usize("-0"), None);
    assert_eq!(parse_usize("++1"), None);
    assert_eq!(parse_usize("1 "), None);
    assert_eq!(parse_usize(" 1"), None);
    assert_eq!(parse_usize("12a"), None);
    assert_eq!(parse_usize("١٢"), None);
    assert_eq!(parse_usize("18446744073709551615"), "18446744073709551615".parse().ok());
    assert_eq!(parse_usize("18446744073709551616"), None);
    assert_eq!(parse_usize("4294967295"), Some(4294967295));
}

#[test]
fn i64_literals() {
    assert_eq!(parse_i64("0"), Some(0));
    assert_eq!(parse_i64("-0"), Some(0));
    assert_eq!(parse_i64("+0"), Some(0));
    assert_eq!(parse_i64("-17"), Some(-17));
    assert_eq!(parse_i64("+17"), Some(17));
    assert_eq!(parse_i64("9223372036854775807"), Some(i64::MAX));
    assert_eq!(parse_i64("9223372036854775808"), None);
    assert_eq!(parse_i64("-9223372036854775808"), Some(i64::MIN));
    assert_eq!(parse_i64("-9223372036854775809"), None);
    assert_eq!(parse_i64(""), None);
    assert_eq!(parse_i64("-"), None);
    assert_eq!(parse_i64("+"), None);
    assert_eq!(parse_i64("+-1"), None);
    assert_eq!(parse_i64("--1"), None);
    assert_eq!(parse_i64("1-"), None);
    assert_eq!(parse_i64("MAX"), None);
}

#[test]
fn literals_read_as_str_parse_reads_them() {
    let samples = [
        "", "0", "1", "-1", "+1", "+", "-", "00", "-00", "0x10", "1e3", "1_000", "12345678901234567890",
        "-12345678901234567890", "9223372036854775807", "-9223372036854775808", "٣", "1.0", " 1",
        "18446744073709551615", "18446744073709551616", "+18446744073709551615", "340282366920938463463374607431768211456",
    ];
    for sample in samples.iter() {
        assert_eq!(parse_i64(sample), sample.parse::<i64>().ok(), "{}", sample);
        assert_eq!(parse_usize(sample), sample.parse::<usize>().ok(), "{}", sample);
    }
}

#[test]
fn texts_compare_up_to_ascii_case() {
    assert!(text_eq_ignore_ascii_case("universal", "UNIVERSAL"));
    assert!(text_eq_ignore_ascii_case("UTF8String", "utf8string"));
    assert!(text_eq_ignore_ascii_case("", ""));
    assert!(!text_eq_ignore_ascii_case("a", ""));
    assert!(!text_eq_ignore_ascii_case("abc", "abd"));
    assert!(!text_eq_ignore_ascii_case("abc", "abcd"));
    assert!(text_eq_ignore_ascii_case("äb", "äB"));
    assert!(!text_eq_ignore_ascii_case("ä", "Ä"));
    assert!(!text_eq_ignore_ascii_case("@", "`"));
    assert!(!text_eq_ignore_ascii_case("[", "{"));
    let samples = ["", "a", "A", "Az", "aZ", "@", "`", "[", "{", "ß", "SS", "k", "K", "K"];
    for a in samples.iter() {
        for b in samples.iter() {
            assert_eq!(text_eq_ignore_ascii_case(a, b), a.eq_ignore_ascii_case(b), "{} {}", a, b);
        }
    }
}

#[test]
fn chars_compare_up_to_ascii_case() {
    assert!(char_eq_ignore_ascii_case('a', 'A'));
    assert!(char_eq_ignore_ascii_case(':', ':'));
    assert!(!char_eq_ignore_ascii_case(':', ';'));
    assert!(!char_eq_ignore_ascii_case('@', '`'));
}

#[test]
fn token_parts() {
    let word = Token::Text("Name".to_string());
    let comma = Token::Separator(',');
    assert_eq!(word.text(), Some("Name"));
    assert_eq!(comma.text(), None);
    assert_eq!(word.separator(), None);
    assert_eq!(comma.separator(), Some(','));
    assert!(word.eq_text_ignore_ascii_case("NAME"));
    assert!(!word.eq_text_ignore_ascii_case("NAMES"));
    assert!(!comma.eq_text_ignore_ascii_case(","));
    assert!(comma.eq_separator(','));
    assert!(!comma.eq_separator('.'));
    assert!(!word.eq_separator('N'));
    assert!(word.same(&Token::Text("Name".to_string())));
    assert!(!word.same(&Token::Text("name".to_string())));
    assert!(!word.same(&comma));
    assert!(comma.same(&Token::Separator(',')));
    assert_eq!(word.clone(), Token::Text("Name".to_string()));
    assert_eq!(comma.clone().into_text(), Err(Token::Separator(',')));
    assert_eq!(word.into_text(), Ok("Name".to_string()));
}
