use shell_engine::{parse, ArgParser, LexError};

fn strings(items: &[&str]) -> Vec<String> {
    items.iter().map(|s| s.to_string()).collect()
}

#[test]
fn words_are_split_at_white_space() {
    assert_eq!(parse("echo hi there".to_string()), Ok(strings(&["echo", "hi", "there"])));
}

#[test]
fn runs_of_white_space_separate_once() {
    assert_eq!(parse("  ls \t -l  \n".to_string()), Ok(strings(&["ls", "-l"])));
}

#[test]
fn carriage_return_is_white_space() {
    assert_eq!(parse("pwd\r\n".to_string()), Ok(strings(&["pwd"])));
}

#[test]
fn empty_line_has_no_tokens() {
    assert_eq!(parse(String::new()), Ok(Vec::<String>::new()));
}

#[test]
fn blank_line_has_no_tokens() {
    assert_eq!(parse(" \t \n".to_string()), Ok(Vec::<String>::new()));
}

#[test]
fn quoted_span_is_one_token_without_quotes() {
    assert_eq!(
        parse("echo \"hello  world\" done".to_string()),
        Ok(strings(&["echo", "hello  world", "done"]))
    );
}

#[test]
fn operators_inside_quotes_stay_text() {
    assert_eq!(
        parse("echo \"a | b > c\"".to_string()),
        Ok(strings(&["echo", "a | b > c"]))
    );
}

#[test]
fn quoted_operator_is_a_token_of_its_own() {
    assert_eq!(parse("echo \">\" x".to_string()), Ok(strings(&["echo", ">", "x"])));
}

#[test]
fn empty_quotes_give_an_empty_token() {
    assert_eq!(parse("echo \"\"".to_string()), Ok(strings(&["echo", ""])));
}

#[test]
fn quote_ends_a_bare_word() {
    assert_eq!(parse("a\"b c\"d".to_string()), Ok(strings(&["a", "b c", "d"])));
}

#[test]
fn unterminated_quote_is_refused() {
    assert_eq!(
        parse("echo \"oops".to_string()),
        Err(LexError::UnterminatedQuote { at: 5 })
    );
}

#[test]
fn stray_quote_after_a_closed_span_is_refused() {
    assert_eq!(
        parse("\"a\" \"".to_string()),
        Err(LexError::UnterminatedQuote { at: 4 })
    );
}

#[test]
fn places_are_counted_in_characters() {
    assert_eq!(
        parse("é \"x".to_string()),
        Err(LexError::UnterminatedQuote { at: 2 })
    );
}

#[test]
fn text_beyond_ascii_is_kept() {
    assert_eq!(parse("echo \"é ü\" ß".to_string()), Ok(strings(&["echo", "é ü", "ß"])));
}

#[test]
fn tokens_keep_their_order_around_operators() {
    assert_eq!(
        parse("printf a | wc -c".to_string()),
        Ok(strings(&["printf", "a", "|", "wc", "-c"]))
    );
}

#[test]
fn tokenize_reads_a_borrowed_line() {
    assert_eq!(ArgParser::tokenize("cat < in.txt"), Ok(strings(&["cat", "<", "in.txt"])));
}
