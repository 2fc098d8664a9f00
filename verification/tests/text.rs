use arti_mobile::text::{joined, push_decimal, with_decimal};

#[test]
fn decimal_has_no_leading_zeros() {
    assert_eq!(with_decimal("", 0), "0");
    assert_eq!(with_decimal("", 9), "9");
    assert_eq!(with_decimal("", 10), "10");
    assert_eq!(with_decimal("", 99), "99");
    assert_eq!(with_decimal("", 100), "100");
    assert_eq!(with_decimal("", 1000), "1000");
    assert_eq!(with_decimal("", 10000), "10000");
    assert_eq!(with_decimal("", 65535), "65535");
}

#[test]
fn decimal_follows_the_prefix() {
    assert_eq!(with_decimal("port ", 9050), "port 9050");
    let mut text = String::from("a");
    push_decimal(&mut text, 12);
    push_decimal(&mut text, 3);
    assert_eq!(text, "a123");
}

#[test]
fn joined_keeps_both_parts() {
    assert_eq!(joined("OK: ", "done"), "OK: done");
    assert_eq!(joined("", ""), "");
}
