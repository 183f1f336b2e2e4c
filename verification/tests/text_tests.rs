use nebulous::text::{
    i64_to_text, parse_i32, parse_i64, split_char, split_whitespace, trim, trim_end_char,
};

#[test]
fn split_char_like_std() {
    for (s, sep) in [("4:NVIDIA_A10G", ':'), ("a::b", ':'), ("", ':'), (":", ':'), ("abc", '.'), ("1.2.3.4", '.')] {
        let expected: Vec<String> = s.split(sep).map(String::from).collect();
        assert_eq!(split_char(s, sep), expected);
    }
}

#[test]
fn split_whitespace_like_std() {
    for s in ["docker run  -d\tx", "", "   ", " a ", "one", "a\nb\u{3000}c"] {
        let expected: Vec<String> = s.split_whitespace().map(String::from).collect();
        assert_eq!(split_whitespace(s), expected);
    }
}

#[test]
fn trim_like_std() {
    for s in ["  x  ", "", "   ", "\n1\n", "a b", "\u{2003}y\u{2003}"] {
        assert_eq!(trim(s), s.trim());
    }
}

#[test]
fn trim_end_char_like_std() {
    for s in ["https://a/", "https://a///", "/", "", "a/b"] {
        assert_eq!(trim_end_char(s, '/'), s.trim_end_matches('/'));
    }
}

#[test]
fn parse_like_std() {
    for s in [
        "0", "42", "-42", "+7", "", "+", "-", "1a", " 1", "9223372036854775807",
        "9223372036854775808", "-9223372036854775808", "-9223372036854775809", "007",
        "2147483648", "-2147483648", "99999999999999999999999",
    ] {
        assert_eq!(parse_i64(s), s.parse::<i64>().ok(), "{}", s);
        assert_eq!(parse_i32(s), s.parse::<i32>().ok(), "{}", s);
    }
}

#[test]
fn decimal_text_like_std() {
    for n in [0i64, 7, 10, 1000, -1, -120, i64::MAX, i64::MIN] {
        assert_eq!(i64_to_text(n), n.to_string());
        assert_eq!(parse_i64(&i64_to_text(n)), Some(n));
    }
}

#[test]
fn whitespace_is_the_unicode_white_space_list() {
    let listed = |v: u32| {
        (0x9..=0xd).contains(&v)
            || v == 0x20
            || v == 0x85
            || v == 0xa0
            || v == 0x1680
            || (0x2000..=0x200a).contains(&v)
            || v == 0x2028
            || v == 0x2029
            || v == 0x202f
            || v == 0x205f
            || v == 0x3000
    };
    for v in 0..=0x10FFFFu32 {
        if let Some(c) = char::from_u32(v) {
            assert_eq!(c.is_whitespace(), listed(v), "U+{:04X}", v);
        }
    }
}
