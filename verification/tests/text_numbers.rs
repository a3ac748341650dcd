use github_recon::text::{chars_of, parse_usize_range, same_text, u64_to_decimal, u64_to_padded_decimal};

#[test]
fn decimal_writing() {
    assert_eq!(u64_to_decimal(0), "0");
    assert_eq!(u64_to_decimal(7), "7");
    assert_eq!(u64_to_decimal(1234567), "1234567");
    assert_eq!(u64_to_decimal(u64::MAX), u64::MAX.to_string());
}

#[test]
fn padded_decimal_writing() {
    assert_eq!(u64_to_padded_decimal(5, 2), "05");
    assert_eq!(u64_to_padded_decimal(1970, 4), "1970");
    assert_eq!(u64_to_padded_decimal(12345, 4), "12345");
    assert_eq!(u64_to_padded_decimal(3, 0), "3");
}

fn parse(s: &str) -> Option<usize> {
    let v = chars_of(s);
    parse_usize_range(&v, 0, v.len())
}

#[test]
fn parsing_like_str_parse() {
    for s in ["0", "01", "+7", "12", "", "+", "-1", "1a", " 1", "99999999999999999999999", "१"] {
        assert_eq!(parse(s), s.parse::<usize>().ok(), "input {:?}", s);
    }
}

#[test]
fn parse_then_write_roundtrip() {
    for n in [0u64, 9, 10, 4096, 1_000_000_007] {
        assert_eq!(parse(&u64_to_decimal(n)), Some(n as usize));
    }
}

#[test]
fn text_comparison() {
    assert!(same_text("tools/call", "tools/call"));
    assert!(!same_text("tools/call", "tools/cal"));
    assert!(!same_text("abc", "abd"));
    assert!(same_text("", ""));
}
