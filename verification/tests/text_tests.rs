use quadrant_gen::text::{
    push_decimal, push_flush_left, push_flush_right, push_run, push_two_digits,
};

#[test]
fn push_run_appends_as_many_characters_as_asked() {
    let mut text = String::from("ab");
    push_run(&mut text, '_', 3);
    assert_eq!(text, "ab___");
    push_run(&mut text, ' ', 0);
    assert_eq!(text, "ab___");
}

#[test]
fn push_decimal_writes_every_digit() {
    for (n, expected) in [(0, "0"), (7, "7"), (10, "10"), (99, "99"), (100, "100"), (90210, "90210")]
    {
        let mut text = String::new();
        push_decimal(&mut text, n);
        assert_eq!(text, expected);
    }
}

#[test]
fn push_decimal_writes_the_largest_number() {
    let mut text = String::from("n=");
    push_decimal(&mut text, usize::MAX);
    assert_eq!(text, format!("n={}", usize::MAX));
}

#[test]
fn push_two_digits_pads_a_single_digit_with_a_zero() {
    for (n, expected) in [(0, "00"), (1, "01"), (9, "09"), (10, "10"), (42, "42"), (123, "123")] {
        let mut text = String::new();
        push_two_digits(&mut text, n);
        assert_eq!(text, expected);
    }
}

#[test]
fn push_flush_right_puts_the_mark_last() {
    let mut text = String::from("|");
    push_flush_right(&mut text, '/', 3);
    assert_eq!(text, "|  /");
    push_flush_right(&mut text, '\\', 1);
    assert_eq!(text, "|  /\\");
}

#[test]
fn push_flush_left_puts_the_mark_first() {
    let mut text = String::from("|");
    push_flush_left(&mut text, '/', 3);
    assert_eq!(text, "|/  ");
    push_flush_left(&mut text, '\\', 1);
    assert_eq!(text, "|/  \\");
}
