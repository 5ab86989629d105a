use api_macros::text::{chars_of, parse_usize, push_decimal, split_chars, trim_braces_chars};

#[test]
fn parse_usize_like_std() {
    let cases = [
        "0", "1", "42", "+7", "007", "", "+", "-1", "1_0", " 1", "1 ", "18446744073709551615",
        "18446744073709551616", "99999999999999999999", "٣",
    ];
    for c in cases {
        assert_eq!(parse_usize(c), c.parse::<usize>().ok(), "input {c:?}");
    }
}

#[test]
fn push_decimal_writes_digits() {
    for n in [0usize, 7, 10, 99, 100, 12345, usize::MAX] {
        let mut s = String::from("x");
        push_decimal(&mut s, n);
        assert_eq!(s, format!("x{n}"));
    }
}

#[test]
fn split_chars_like_str_split() {
    for s in ["", "/", "a", "a/b", "/a//b/", "ü/ß"] {
        let pieces: Vec<String> = split_chars(&chars_of(s), '/')
            .iter()
            .map(|p| p.iter().collect())
            .collect();
        let expected: Vec<String> = s.split('/').map(|p| p.to_string()).collect();
        assert_eq!(pieces, expected);
    }
}

#[test]
fn trim_braces_like_trim_matches() {
    for s in ["{id}", "{{id}}", "id", "{", "}{", "a{b}c", "", "}x{"] {
        let t: String = trim_braces_chars(&chars_of(s)).iter().collect();
        assert_eq!(t, s.trim_matches(|c: char| c == '{' || c == '}'));
    }
}
