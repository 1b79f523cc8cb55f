use brt::text::{parse_i32, push_decimal, push_decimal_nat};

#[test]
fn push_decimal_writes_numbers() {
    for n in [0, 1, 9, 10, 11, 99, 100, 101, 12345, -1, -10, -12345, i32::MAX, i32::MIN] {
        let mut text = String::from("n=");
        push_decimal(&mut text, n);
        assert_eq!(text, format!("n={}", n));
    }
    let mut text = String::new();
    push_decimal_nat(&mut text, u32::MAX);
    assert_eq!(text, "4294967295");
}

#[test]
fn parse_reads_what_push_wrote() {
    for n in [0, 7, -7, 1000, -1000, i32::MAX, i32::MIN] {
        let mut text = String::new();
        push_decimal(&mut text, n);
        assert_eq!(parse_i32(&text), Some(n));
    }
}

#[test]
fn parse_i32_edges() {
    assert_eq!(parse_i32("2147483647"), Some(i32::MAX));
    assert_eq!(parse_i32("-2147483648"), Some(i32::MIN));
    assert_eq!(parse_i32("2147483648"), None);
    assert_eq!(parse_i32("-2147483649"), None);
    assert_eq!(parse_i32("+2147483648"), None);
    assert_eq!(parse_i32("0000000000000000000012"), Some(12));
    assert_eq!(parse_i32("-"), None);
    assert_eq!(parse_i32(""), None);
    assert_eq!(parse_i32("１２"), None);
}
