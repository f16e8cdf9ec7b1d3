use zombodb::text::{ends_with_char, push_decimal, str_eq};

#[test]
fn decimal_rendering() {
    for n in [0u32, 7, 10, 99, 100, 16384, u32::MAX] {
        let mut s = String::from("x");
        push_decimal(&mut s, n);
        assert_eq!(s, format!("x{}", n));
    }
}

#[test]
fn string_equality() {
    assert!(str_eq("", ""));
    assert!(str_eq("héllo", "héllo"));
    assert!(!str_eq("abc", "abd"));
    assert!(!str_eq("abc", "ab"));
}

#[test]
fn last_character() {
    assert!(ends_with_char("a/", '/'));
    assert!(!ends_with_char("", '/'));
    assert!(!ends_with_char("/a", '/'));
    assert!(ends_with_char("ü", 'ü'));
}
