use astrodolph::text::{chars_of, i128_to_decimal, replace_all, u128_to_decimal};

#[test]
fn decimal_rendering() {
    assert_eq!(u128_to_decimal(0), "0");
    assert_eq!(u128_to_decimal(7), "7");
    assert_eq!(u128_to_decimal(10), "10");
    assert_eq!(u128_to_decimal(1234567890123), "1234567890123");
    assert_eq!(u128_to_decimal(u64::MAX as u128), u64::MAX.to_string());
    assert_eq!(i128_to_decimal(-42), "-42");
    assert_eq!(i128_to_decimal(0), "0");
    assert_eq!(i128_to_decimal(i64::MIN as i128), i64::MIN.to_string());
    assert_eq!(i128_to_decimal(i128::MIN), i128::MIN.to_string());
    assert_eq!(i128_to_decimal(i128::MAX), i128::MAX.to_string());
    assert_eq!(i128_to_decimal(-1), "-1");
}

#[test]
fn replace_matches_std() {
    let cases = [
        ("aaa", "aa", "b"),
        ("2**3**4", "**", "^"),
        ("pipi()", "pi", "pi()"),
        ("", "x", "y"),
        ("héllo wörld", "ö", "oe"),
        ("abc", "abcd", "z"),
    ];
    for (s, pat, rep) in cases.iter() {
        assert_eq!(replace_all(s, pat, rep), s.replace(pat, rep));
    }
    assert_eq!(replace_all("aaa", "aa", "b"), "ba");
}

#[test]
fn chars_in_order() {
    assert_eq!(chars_of("aπb"), vec!['a', 'π', 'b']);
    assert!(chars_of("").is_empty());
}
