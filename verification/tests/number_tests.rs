use alakit::number::{i32_to_string, parse_i32, u128_to_string, usize_to_string};

#[test]
fn parse_i32_accepts_what_std_accepts() {
    for s in ["0", "-0", "+7", "42", "-42", "2147483647", "-2147483648", "007", "", "-", "+", "12a", " 1", "2147483648", "-2147483649", "99999999999999999999", "+-1"] {
        assert_eq!(parse_i32(s), s.parse::<i32>().ok(), "input {:?}", s);
    }
}

#[test]
fn i32_to_string_matches_std() {
    for n in [0, 1, -1, 10, 99, -100, i32::MAX, i32::MIN, 123456789] {
        assert_eq!(i32_to_string(n), n.to_string());
        assert_eq!(parse_i32(&i32_to_string(n)), Some(n));
    }
}

#[test]
fn unsigned_to_string_matches_std() {
    assert_eq!(u128_to_string(0), "0");
    assert_eq!(u128_to_string(u128::MAX), u128::MAX.to_string());
    assert_eq!(usize_to_string(1234), "1234");
}
