use lsfmt::align::{pad_left_justify, pad_right_justify};

#[test]
fn left_justify_reaches_the_width() {
    assert_eq!(pad_left_justify("ab", 5), "ab   ");
    assert_eq!(pad_left_justify("", 3), "   ");
    assert_eq!(pad_left_justify("ab", 5).chars().count(), 5);
}

#[test]
fn left_justify_adds_nothing_at_exact_width() {
    assert_eq!(pad_left_justify("abc", 3), "abc");
}

#[test]
fn left_justify_clamps_on_overflow() {
    assert_eq!(pad_left_justify("abcdef", 3), "abcdef");
}

#[test]
fn right_justify_reaches_the_width() {
    assert_eq!(pad_right_justify("42", 5), "   42");
    assert_eq!(pad_right_justify("42", 2), "42");
    assert_eq!(pad_right_justify("42000", 3), "42000");
}
