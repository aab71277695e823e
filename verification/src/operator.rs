//! The operator classifier: a pure predicate on the shape of a token, and the
//! meaning of each recognised spelling.

use vstd::prelude::*;

verus! {

/// What a recognised operator token asks for.
#[derive(Clone, Copy, Debug, PartialEq, Eq, Structural)]
pub enum OperatorKind {
    /// `|`: feed the standard output of the process on the left to the one on the right.
    Pipe,
    /// `<`: read standard input from a file.
    StdinFrom,
    /// `>` or `1>`: write standard output to a file, truncating it.
    StdoutTruncate,
    /// `>>`: write standard output to a file, appending to it.
    StdoutAppend,
    /// `2>`: write standard error to a file.
    Stderr,
    /// `&>`: write both standard output and standard error to a file.
    StdoutAndStderr,
}

/// A token has the shape of an operator when it is one of the single
/// characters `<`, `>`, `|`, `!`, or when it has exactly two characters and
/// the second one is `>`.
pub open spec fn is_operator_text(token: Seq<char>) -> bool {
    ||| token.len() == 1 && (token[0] == '<' || token[0] == '>' || token[0] == '|' || token[0]
        == '!')
    ||| token.len() == 2 && token[1] == '>'
}

/// The meaning of a token, for the seven spellings that have one.
pub open spec fn operator_kind_of(token: Seq<char>) -> Option<OperatorKind> {
    if token.len() == 1 && token[0] == '|' {
        Some(OperatorKind::Pipe)
    } else if token.len() == 1 && token[0] == '<' {
        Some(OperatorKind::StdinFrom)
    } else if token.len() == 1 && token[0] == '>' {
        Some(OperatorKind::StdoutTruncate)
    } else if token.len() == 2 && token[0] == '1' && token[1] == '>' {
        Some(OperatorKind::StdoutTruncate)
    } else if token.len() == 2 && token[0] == '>' && token[1] == '>' {
        Some(OperatorKind::StdoutAppend)
    } else if token.len() == 2 && token[0] == '2' && token[1] == '>' {
        Some(OperatorKind::Stderr)
    } else if token.len() == 2 && token[0] == '&' && token[1] == '>' {
        Some(OperatorKind::StdoutAndStderr)
    } else {
        None
    }
}

/// Tells whether `token` has the shape of a redirection or pipe operator.
///
/// Only the shape is judged: `!` and every two-character token ending in `>`
/// are accepted here even where no meaning is attached to them.
pub fn is_operator(token: &str) -> (b: bool)
    ensures
        b == is_operator_text(token@),
{
    let n: usize = token.unicode_len();
    if n == 1 {
        let c = token.get_char(0);
        c == '<' || c == '>' || c == '|' || c == '!'
    } else if n == 2 {
        token.get_char(1) == '>'
    } else {
        false
    }
}

/// The meaning of `token`, or `None` where it is ordinary text or an
/// operator-shaped token without a meaning.
pub fn operator_kind(token: &str) -> (kind: Option<OperatorKind>)
    ensures
        kind == operator_kind_of(token@),
{
    let n: usize = token.unicode_len();
    if n == 1 {
        let c = token.get_char(0);
        if c == '|' {
            Some(OperatorKind::Pipe)
        } else if c == '<' {
            Some(OperatorKind::StdinFrom)
        } else if c == '>' {
            Some(OperatorKind::StdoutTruncate)
        } else {
            None
        }
    } else if n == 2 {
        let c0 = token.get_char(0);
        let c1 = token.get_char(1);
        if c1 != '>' {
            None
        } else if c0 == '1' {
            Some(OperatorKind::StdoutTruncate)
        } else if c0 == '>' {
            Some(OperatorKind::StdoutAppend)
        } else if c0 == '2' {
            Some(OperatorKind::Stderr)
        } else if c0 == '&' {
            Some(OperatorKind::StdoutAndStderr)
        } else {
            None
        }
    } else {
        None
    }
}

/// Every token with a meaning has the shape of an operator.
pub proof fn kind_implies_operator(token: Seq<char>)
    requires
        operator_kind_of(token) is Some,
    ensures
        is_operator_text(token),
{
}

/// The operator shape is exactly: one of the four single characters, or two
/// characters of which the second is `>`.  The empty token and every token of
/// three or more characters are ordinary text.
pub proof fn operator_shape(token: Seq<char>)
    ensures
        token.len() == 0 ==> !is_operator_text(token),
        token.len() > 2 ==> !is_operator_text(token),
        token.len() == 1 ==> (is_operator_text(token) <==> (token[0] == '<' || token[0] == '>'
            || token[0] == '|' || token[0] == '!')),
        token.len() == 2 ==> (is_operator_text(token) <==> token[1] == '>'),
{
}

} // verus!
