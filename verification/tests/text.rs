use shell_engine::text::{chars_of, copy_of, decimal, holds, join, parse_number, same_text, split};

fn tokens(items: &[&str]) -> Vec<String> {
    items.iter().map(|s| s.to_string()).collect()
}

#[test]
fn characters_in_order() {
    assert_eq!(chars_of("aé>"), vec!['a', 'é', '>']);
    assert_eq!(chars_of(""), Vec::<char>::new());
}

#[test]
fn same_text_compares_characters() {
    assert!(same_text("abc", "abc"));
    assert!(same_text("", ""));
    assert!(!same_text("abc", "abd"));
    assert!(!same_text("abc", "ab"));
}

#[test]
fn copies_are_equal() {
    assert_eq!(copy_of(&tokens(&["a", "", "c d"])), tokens(&["a", "", "c d"]));
}

#[test]
fn join_puts_the_separator_between() {
    assert_eq!(join(&tokens(&["a", "b", "c"]), " "), "a b c");
    assert_eq!(join(&tokens(&["a"]), " "), "a");
    assert_eq!(join(&[], " "), "");
    assert_eq!(join(&tokens(&["", ""]), ", "), ", ");
}

#[test]
fn split_keeps_empty_fields() {
    assert_eq!(split("a:b:c", ':'), tokens(&["a", "b", "c"]));
    assert_eq!(split("abc", ':'), tokens(&["abc"]));
    assert_eq!(split("", ':'), tokens(&[""]));
    assert_eq!(split(":", ':'), tokens(&["", ""]));
    assert_eq!(split("a::b:", ':'), tokens(&["a", "", "b", ""]));
    assert_eq!(split("./src/é.rs", '/'), tokens(&[".", "src", "é.rs"]));
}

#[test]
fn holds_finds_a_character() {
    assert!(holds("a # b", '#'));
    assert!(holds("#", '#'));
    assert!(!holds("a b", '#'));
    assert!(!holds("", '#'));
}

#[test]
fn decimal_writes_digits() {
    assert_eq!(decimal(0), "0");
    assert_eq!(decimal(7), "7");
    assert_eq!(decimal(10), "10");
    assert_eq!(decimal(1234567890), "1234567890");
    assert_eq!(decimal(usize::MAX), usize::MAX.to_string());
}

#[test]
fn numbers_are_read_as_the_standard_library_reads_them() {
    for text in ["0", "7", "+7", "007", "42", "18446744073709551615", "18446744073709551616",
        "", "+", "-1", "++1", "1+", "a", "1a", " 1", "1 ", "٣", "99999999999999999999999"]
    {
        assert_eq!(parse_number(text), text.parse::<usize>().ok());
    }
    assert_eq!(parse_number("42"), Some(42));
    assert_eq!(parse_number("x"), None);
}
