use todo_store::text::{dashes, decimal_string, pad_right_string};

#[test]
fn decimal_of_single_digits() {
    assert_eq!(decimal_string(0), "0");
    assert_eq!(decimal_string(1), "1");
    assert_eq!(decimal_string(9), "9");
}

#[test]
fn decimal_of_longer_numbers() {
    assert_eq!(decimal_string(10), "10");
    assert_eq!(decimal_string(407), "407");
    assert_eq!(decimal_string(1234567890), "1234567890");
    assert_eq!(decimal_string(100000), "100000");
}

#[test]
fn decimal_of_the_largest_number() {
    assert_eq!(decimal_string(usize::MAX), format!("{}", usize::MAX));
}

#[test]
fn decimal_agrees_with_the_standard_formatting() {
    let mut n: usize = 0;
    while n < 2500 {
        assert_eq!(decimal_string(n), format!("{}", n));
        n += 1;
    }
}

#[test]
fn padding_fills_up_with_spaces_on_the_right() {
    assert_eq!(pad_right_string("ID", 5), "ID   ");
    assert_eq!(pad_right_string("[x]", 10), "[x]       ");
    assert_eq!(pad_right_string("", 3), "   ");
}

#[test]
fn padding_leaves_wide_text_alone() {
    assert_eq!(pad_right_string("12345", 5), "12345");
    assert_eq!(pad_right_string("123456", 5), "123456");
    assert_eq!(pad_right_string("abc", 0), "abc");
    assert_eq!(pad_right_string("", 0), "");
}

#[test]
fn padding_counts_characters_not_bytes() {
    assert_eq!(pad_right_string("äö", 5), "äö   ");
    assert_eq!(pad_right_string("日本語", 4), "日本語 ");
    assert_eq!(pad_right_string("äö", 5), format!("{:<5}", "äö"));
}

#[test]
fn dashes_are_as_many_as_asked_for() {
    assert_eq!(dashes(0), "");
    assert_eq!(dashes(1), "-");
    assert_eq!(dashes(30), "------------------------------");
    assert_eq!(dashes(30), "-".repeat(30));
}
