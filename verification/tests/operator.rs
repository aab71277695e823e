use shell_engine::{is_operator, operator_kind, OperatorKind};

#[test]
fn single_character_operators() {
    assert!(is_operator("<"));
    assert!(is_operator(">"));
    assert!(is_operator("|"));
    assert!(is_operator("!"));
}

#[test]
fn two_characters_ending_in_greater_than() {
    assert!(is_operator("1>"));
    assert!(is_operator("2>"));
    assert!(is_operator(">>"));
    assert!(is_operator("&>"));
    assert!(is_operator("x>"));
    assert!(is_operator("é>"));
}

#[test]
fn other_shapes_are_text() {
    assert!(!is_operator(""));
    assert!(!is_operator("a"));
    assert!(!is_operator("&"));
    assert!(!is_operator(">a"));
    assert!(!is_operator("<<"));
    assert!(!is_operator("||"));
    assert!(!is_operator(">>>"));
    assert!(!is_operator("2>>"));
    assert!(!is_operator("echo"));
    assert!(!is_operator("a | b"));
}

#[test]
fn kinds_of_the_recognised_spellings() {
    assert_eq!(operator_kind("|"), Some(OperatorKind::Pipe));
    assert_eq!(operator_kind("<"), Some(OperatorKind::StdinFrom));
    assert_eq!(operator_kind(">"), Some(OperatorKind::StdoutTruncate));
    assert_eq!(operator_kind("1>"), Some(OperatorKind::StdoutTruncate));
    assert_eq!(operator_kind(">>"), Some(OperatorKind::StdoutAppend));
    assert_eq!(operator_kind("2>"), Some(OperatorKind::Stderr));
    assert_eq!(operator_kind("&>"), Some(OperatorKind::StdoutAndStderr));
}

#[test]
fn operator_shapes_without_a_meaning() {
    assert_eq!(operator_kind("!"), None);
    assert_eq!(operator_kind("3>"), None);
    assert_eq!(operator_kind("<>"), None);
}

#[test]
fn text_has_no_kind() {
    assert_eq!(operator_kind(""), None);
    assert_eq!(operator_kind("ls"), None);
    assert_eq!(operator_kind("2>>"), None);
    assert_eq!(operator_kind(">|"), None);
}
