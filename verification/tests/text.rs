use zero2prod::text::{digit_str, push_decimal, push_hex};

#[test]
fn digit_str_covers_sixteen_digits() {
    let all: String = (0..16).map(digit_str).collect();

    assert_eq!(all, "0123456789abcdef");
}

#[test]
fn push_decimal_appends() {
    let mut text = "port ".to_string();
    push_decimal(&mut text, 5432);
    assert_eq!(text, "port 5432");
    push_decimal(&mut text, 0);
    assert_eq!(text, "port 54320");
}

#[test]
fn push_decimal_agrees_with_std() {
    for n in [0u16, 1, 9, 10, 11, 99, 100, 101, 999, 1000, 9999, 10000, 12345, 65535] {
        let mut text = String::new();
        push_decimal(&mut text, n);

        assert_eq!(text, n.to_string());
    }
}

#[test]
fn push_hex_pads_to_the_width() {
    let mut text = String::new();
    push_hex(&mut text, 0xbeef, 8);
    assert_eq!(text, "0000beef");
}

#[test]
fn push_hex_keeps_the_lowest_digits() {
    let mut text = "x".to_string();
    push_hex(&mut text, 0x12345, 3);
    assert_eq!(text, "x345");
    push_hex(&mut text, 0x12345, 0);
    assert_eq!(text, "x345");
}

#[test]
fn push_hex_agrees_with_std() {
    for n in [0u128, 1, 0xf, 0x10, 0xdead_beef, u128::MAX] {
        let mut text = String::new();
        push_hex(&mut text, n, 32);

        assert_eq!(text, format!("{:032x}", n));
    }
}
