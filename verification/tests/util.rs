use heavy::util::{str_eq, str_eq_ignore_ascii_case};

#[test]
fn ascii_case_insensitive_comparison() {
    assert!(str_eq_ignore_ascii_case("HeLLo", "hello"));
    assert!(!str_eq_ignore_ascii_case("hello", "hell"));
    assert!(!str_eq_ignore_ascii_case("É", "é"));
    assert!(str_eq_ignore_ascii_case("", ""));
}

#[test]
fn exact_comparison() {
    assert!(str_eq("abc", "abc"));
    assert!(!str_eq("abc", "abd"));
    assert!(!str_eq("abc", "ab"));
}
