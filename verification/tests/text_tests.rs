use swim_app::text::push_decimal;

#[test]
fn push_decimal_appends_the_number() {
    let mut text = String::from("host ");
    push_decimal(&mut text, 42);
    assert_eq!("host 42", text);
    push_decimal(&mut text, 0);
    assert_eq!("host 420", text);
    push_decimal(&mut text, 65535);
    assert_eq!("host 42065535", text);
}

#[test]
fn push_decimal_writes_no_leading_zeros() {
    for (n, digits) in [
        (0u16, "0"),
        (1, "1"),
        (9, "9"),
        (10, "10"),
        (11, "11"),
        (99, "99"),
        (100, "100"),
        (101, "101"),
        (999, "999"),
        (1000, "1000"),
        (9999, "9999"),
        (10000, "10000"),
        (60000, "60000"),
        (65535, "65535"),
    ] {
        let mut text = String::new();
        push_decimal(&mut text, n);
        assert_eq!(digits, text);
    }
}

#[test]
fn push_decimal_agrees_with_the_formatting_of_integers() {
    for n in 0..=u16::MAX {
        let mut text = String::new();
        push_decimal(&mut text, n);
        assert_eq!(n.to_string(), text);
    }
}
