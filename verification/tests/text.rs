use user_registry::text::decimal_text;

#[test]
fn decimal_text_of_zero_is_one_digit() {
    assert_eq!(decimal_text(0), "0");
}

#[test]
fn decimal_text_writes_every_digit() {
    assert_eq!(decimal_text(7), "7");
    assert_eq!(decimal_text(10), "10");
    assert_eq!(decimal_text(42), "42");
    assert_eq!(decimal_text(1234567890), "1234567890");
    assert_eq!(decimal_text(i32::MAX), "2147483647");
}

#[test]
fn decimal_text_writes_the_sign_of_a_negative_number() {
    assert_eq!(decimal_text(-1), "-1");
    assert_eq!(decimal_text(-908), "-908");
    assert_eq!(decimal_text(i32::MIN), "-2147483648");
}

#[test]
fn decimal_text_agrees_with_std_formatting() {
    let mut n: i32 = -1_000_003;
    while n < 1_000_003 {
        assert_eq!(decimal_text(n), format!("{n}"));
        n += 997;
    }
}
