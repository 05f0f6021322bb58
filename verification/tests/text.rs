use cube_shuffle_wasm::text::{decimal_string, str_eq};

#[test]
fn equal_texts_are_told_equal() {
    assert!(str_eq("", ""));
    assert!(str_eq("black", "black"));
    assert!(str_eq("gr\u{fc}n", "gr\u{fc}n"));
}

#[test]
fn different_texts_are_told_apart() {
    assert!(!str_eq("black", "blacK"));
    assert!(!str_eq("black", "blac"));
    assert!(!str_eq("", "a"));
    assert!(!str_eq("gr\u{fc}n", "grun"));
    assert!(!str_eq("ab", "ba"));
}

#[test]
fn numbers_are_written_in_decimal() {
    assert_eq!(decimal_string(0), "0");
    assert_eq!(decimal_string(7), "7");
    assert_eq!(decimal_string(10), "10");
    assert_eq!(decimal_string(105), "105");
    assert_eq!(decimal_string(1234567890), "1234567890");
    assert_eq!(decimal_string(u64::MAX), "18446744073709551615");
}

#[test]
fn decimal_string_agrees_with_the_standard_library() {
    for n in [0u64, 1, 9, 10, 11, 50, 99, 100, 101, 200, 999, 1000, 65535, 4294967296] {
        assert_eq!(decimal_string(n), n.to_string());
    }
}
