use komari_tg_bot::text::{
    chars_of, comes_before, digit_to_char, parse_within, push_decimal, push_signed_decimal,
    push_text, same_text,
};

#[test]
fn decimal_numerals() {
    let mut out = String::from("n=");
    push_decimal(&mut out, 0);
    push_text(&mut out, ",");
    push_decimal(&mut out, 9);
    push_text(&mut out, ",");
    push_decimal(&mut out, 10);
    push_text(&mut out, ",");
    push_decimal(&mut out, 340282366920938463463374607431768211455);
    assert_eq!(out, "n=0,9,10,340282366920938463463374607431768211455");
}

#[test]
fn signed_decimal_numerals() {
    let mut out = String::new();
    push_signed_decimal(&mut out, -1);
    push_text(&mut out, " ");
    push_signed_decimal(&mut out, 0);
    push_text(&mut out, " ");
    push_signed_decimal(&mut out, i128::MIN);
    push_text(&mut out, " ");
    push_signed_decimal(&mut out, i64::MAX as i128);
    assert_eq!(
        out,
        "-1 0 -170141183460469231731687303715884105728 9223372036854775807"
    );
}

#[test]
fn digits() {
    assert_eq!(digit_to_char(0), '0');
    assert_eq!(digit_to_char(7), '7');
    assert_eq!(digit_to_char(9), '9');
}

#[test]
fn characters_and_equality() {
    assert_eq!(chars_of("a节b"), vec!['a', '节', 'b']);
    assert!(same_text("节点", "节点"));
    assert!(!same_text("a", "ab"));
    assert!(!same_text("", "a"));
    assert!(same_text("", ""));
}

#[test]
fn dictionary_order() {
    assert!(comes_before("a-node", "b-node"));
    assert!(!comes_before("b-node", "a-node"));
    assert!(!comes_before("a", "a"));
    assert!(comes_before("", "a"));
    assert!(!comes_before("a", ""));
    assert!(comes_before("a", "ab"));
    assert!(comes_before("B", "a"));
    assert!(comes_before("10", "9"));
    assert!(comes_before("z", "节"));
}

#[test]
fn dictionary_order_is_that_of_the_standard_library() {
    let words = ["", "a", "ab", "b", "B", "10", "9", "节", "é", "z", "a-node", "a_node"];
    for a in words {
        for b in words {
            assert_eq!(comes_before(a, b), a < b, "{a:?} {b:?}");
        }
    }
}

#[test]
fn numerals_are_read_as_the_standard_library_reads_them() {
    let texts = [
        "0", "1", "-1", "+1", "007", "-0", "+0", "", "-", "+", " 1", "1 ", "1_0", "12a", "--1",
        "9223372036854775807", "9223372036854775808", "-9223372036854775808",
        "-9223372036854775809", "99999999999999999999999999", "2147483647", "2147483648",
        "-2147483648", "-2147483649", "１",
    ];
    for text in texts {
        assert_eq!(parse_within(text, i64::MIN, i64::MAX), text.parse::<i64>().ok(), "{text:?}");
        assert_eq!(
            parse_within(text, i32::MIN as i64, i32::MAX as i64),
            text.parse::<i32>().ok().map(|n| n as i64),
            "{text:?}"
        );
    }
}

#[test]
fn numerals_outside_the_range_are_refused() {
    assert_eq!(parse_within("5", 0, 4), None);
    assert_eq!(parse_within("4", 0, 4), Some(4));
    assert_eq!(parse_within("-1", 0, 4), None);
    assert_eq!(parse_within("0", 0, 4), Some(0));
}
