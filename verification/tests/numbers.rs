use vizz::decimal::{signed_text, unsigned_text};

#[test]
fn unsigned_numbers_in_decimal() {
    assert_eq!(unsigned_text(0), "0");
    assert_eq!(unsigned_text(7), "7");
    assert_eq!(unsigned_text(10), "10");
    assert_eq!(unsigned_text(145), "145");
    assert_eq!(unsigned_text(1_000_000), "1000000");
    assert_eq!(unsigned_text(u128::MAX), "340282366920938463463374607431768211455");
}

#[test]
fn signed_numbers_in_decimal() {
    assert_eq!(signed_text(0), "0");
    assert_eq!(signed_text(-1), "-1");
    assert_eq!(signed_text(42), "42");
    assert_eq!(signed_text(-120), "-120");
    assert_eq!(signed_text(i128::MAX), "170141183460469231731687303715884105727");
    assert_eq!(signed_text(i128::MIN), "-170141183460469231731687303715884105728");
}

#[test]
fn decimal_text_is_what_formatting_gives() {
    for n in [0u128, 1, 9, 10, 11, 99, 100, 101, 255, 256, 65535, 4294967296, u64::MAX as u128] {
        assert_eq!(unsigned_text(n), n.to_string());
    }
    for n in [0i128, 1, -1, 9, -9, 10, -10, 127, -128, 32767, -32768, i64::MIN as i128] {
        assert_eq!(signed_text(n), n.to_string());
    }
}
