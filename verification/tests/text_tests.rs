use blog_api::text::{format_i32, parse_i32, same_text};

#[test]
fn formats_integers_in_decimal() {
    assert_eq!(format_i32(0), "0");
    assert_eq!(format_i32(7), "7");
    assert_eq!(format_i32(42), "42");
    assert_eq!(format_i32(-5), "-5");
    assert_eq!(format_i32(i32::MAX), "2147483647");
    assert_eq!(format_i32(i32::MIN), "-2147483648");
}

#[test]
fn parses_like_std() {
    let cases = [
        "0", "42", "+42", "-42", "007", "-0", "", "+", "-", "4a", " 4", "4 ",
        "2147483647", "2147483648", "-2147483648", "-2147483649", "99999999999999999999",
        "--1", "+-1", "١٢", "12é",
    ];
    for c in cases {
        assert_eq!(parse_i32(c), c.parse::<i32>().ok(), "input {:?}", c);
    }
}

#[test]
fn parse_reads_back_format() {
    for v in [0, 1, -1, 9, 10, -10, 123456, i32::MAX, i32::MIN, i32::MIN + 1] {
        assert_eq!(parse_i32(&format_i32(v)), Some(v));
    }
}

#[test]
fn compares_texts() {
    assert!(same_text("abc", "abc"));
    assert!(!same_text("abc", "abd"));
    assert!(!same_text("abc", "ab"));
    assert!(same_text("", ""));
    assert!(same_text("权限", "权限"));
    assert!(!same_text("权限", "权"));
}
