//! What holds of the lexer on every line.

use crate::lexer::{after, is_space, quoted_run, runs_stay_inside, tokens_from, tokens_of, word_run};
use vstd::prelude::*;

verus! {

/// A line that holds nothing but white space, the empty line among them, has
/// no tokens.
pub proof fn blank_line_has_no_tokens(line: Seq<char>)
    requires
        forall|i: int| 0 <= i < line.len() ==> is_space(#[trigger] line[i]),
    ensures
        tokens_of(line) == Ok::<Seq<Seq<char>>, int>(Seq::empty()),
{
    blank_tail_has_no_tokens(line, 0);
}

proof fn blank_tail_has_no_tokens(line: Seq<char>, from: int)
    requires
        0 <= from,
        forall|i: int| 0 <= i < line.len() ==> is_space(#[trigger] line[i]),
    ensures
        tokens_from(line, from) == Ok::<Seq<Seq<char>>, int>(Seq::empty()),
    decreases line.len() - from,
{
    if from < line.len() {
        blank_tail_has_no_tokens(line, from + 1);
    }
}

/// No character of a token is a quote.
pub open spec fn has_no_quote(token: Seq<char>) -> bool {
    forall|i: int| 0 <= i < token.len() ==> #[trigger] token[i] != '"'
}

/// No run holds a quote.
proof fn runs_hold_no_quote(line: Seq<char>, from: int)
    requires
        0 <= from <= line.len(),
    ensures
        forall|i: int| from <= i < from + quoted_run(line, from) ==> #[trigger] line[i] != '"',
        forall|i: int| from <= i < from + word_run(line, from) ==> #[trigger] line[i] != '"',
    decreases line.len() - from,
{
    if from < line.len() {
        runs_hold_no_quote(line, from + 1);
    }
}

proof fn tail_tokens_hold_no_quote(line: Seq<char>, from: int)
    requires
        0 <= from,
    ensures
        tokens_from(line, from) matches Ok(tokens) ==> forall|k: int|
            0 <= k < tokens.len() ==> has_no_quote(#[trigger] tokens[k]),
    decreases line.len() - from,
{
    if from < line.len() {
        runs_hold_no_quote(line, from + 1);
        runs_stay_inside(line, from + 1);
        if is_space(line[from]) {
            tail_tokens_hold_no_quote(line, from + 1);
        } else if line[from] == '"' {
            let close = from + 1 + quoted_run(line, from + 1);
            if close < line.len() {
                tail_tokens_hold_no_quote(line, close + 1);
                assert(has_no_quote(line.subrange(from + 1, close)));
            }
        } else {
            let end = from + 1 + word_run(line, from + 1);
            tail_tokens_hold_no_quote(line, end);
            assert(has_no_quote(line.subrange(from, end)));
        }
    }
}

/// Tokens never hold a quote: the quotes of a quoted span are dropped, and a
/// bare word ends in front of one.
pub proof fn tokens_hold_no_quote(line: Seq<char>)
    ensures
        tokens_of(line) matches Ok(tokens) ==> forall|k: int|
            0 <= k < tokens.len() ==> has_no_quote(#[trigger] tokens[k]),
{
    tail_tokens_hold_no_quote(line, 0);
}

/// In front of a quote, runs are the same in a line and in its part before
/// that quote.
proof fn runs_end_at_quote(head: Seq<char>, line: Seq<char>, from: int)
    requires
        0 <= from <= head.len() < line.len(),
        line.subrange(0, head.len() as int) == head,
        line[head.len() as int] == '"',
    ensures
        word_run(line, from) == word_run(head, from),
        quoted_run(line, from) == quoted_run(head, from),
    decreases head.len() - from,
{
    if from < head.len() {
        assert(line[from] == line.subrange(0, head.len() as int)[from]);
        runs_end_at_quote(head, line, from + 1);
    }
}

/// Up to a quote that follows a well-formed part, a line is read as that part is.
proof fn head_is_read_alone(head: Seq<char>, line: Seq<char>, from: int)
    requires
        0 <= from <= head.len() < line.len(),
        line.subrange(0, head.len() as int) == head,
        line[head.len() as int] == '"',
        tokens_from(head, from) is Ok,
    ensures
        tokens_from(line, from) == after(
            tokens_from(head, from)->Ok_0,
            tokens_from(line, head.len() as int),
        ),
    decreases head.len() - from,
{
    let at_quote = tokens_from(line, head.len() as int);
    if from == head.len() {
        if at_quote is Ok {
            assert(Seq::<Seq<char>>::empty() + at_quote->Ok_0 =~= at_quote->Ok_0);
        }
    } else {
        assert(line[from] == line.subrange(0, head.len() as int)[from]);
        runs_end_at_quote(head, line, from + 1);
        runs_stay_inside(head, from + 1);
        if is_space(head[from]) {
            head_is_read_alone(head, line, from + 1);
        } else {
            let next = if head[from] == '"' {
                from + 1 + quoted_run(head, from + 1) + 1
            } else {
                from + 1 + word_run(head, from + 1)
            };
            let token = if head[from] == '"' {
                head.subrange(from + 1, next - 1)
            } else {
                head.subrange(from, next)
            };
            let same = if head[from] == '"' {
                line.subrange(from + 1, next - 1)
            } else {
                line.subrange(from, next)
            };
            assert(same =~= token) by {
                assert forall|i: int| 0 <= i < head.len() implies line[i] == head[i] by {
                    assert(line[i] == line.subrange(0, head.len() as int)[i]);
                }
            }
            head_is_read_alone(head, line, next);
            let tail = tokens_from(head, next)->Ok_0;
            if at_quote is Ok {
                assert((seq![token] + tail) + at_quote->Ok_0 =~= seq![token] + (tail
                    + at_quote->Ok_0));
            }
        }
    }
}

/// Behind a prefix, runs are those of the rest of the line.
proof fn runs_shift(head: Seq<char>, rest: Seq<char>, from: int)
    requires
        0 <= from <= rest.len(),
    ensures
        word_run(head + rest, head.len() + from) == word_run(rest, from),
        quoted_run(head + rest, head.len() + from) == quoted_run(rest, from),
    decreases rest.len() - from,
{
    if from < rest.len() {
        runs_shift(head, rest, from + 1);
    }
}

/// Moves the place of an open quote by `by` characters.
pub open spec fn shifted(result: Result<Seq<Seq<char>>, int>, by: int) -> Result<
    Seq<Seq<char>>,
    int,
> {
    match result {
        Ok(tokens) => Ok(tokens),
        Err(at) => Err(at + by),
    }
}

/// Behind a prefix, the line is read as its rest is, with places counted from
/// the start of the line.
proof fn rest_is_read_alone(head: Seq<char>, rest: Seq<char>, from: int)
    requires
        0 <= from <= rest.len(),
    ensures
        tokens_from(head + rest, head.len() + from) == shifted(
            tokens_from(rest, from),
            head.len() as int,
        ),
    decreases rest.len() - from,
{
    let line = head + rest;
    let base = head.len() as int;
    if from < rest.len() {
        runs_shift(head, rest, from + 1);
        runs_stay_inside(rest, from + 1);
        if is_space(rest[from]) {
            rest_is_read_alone(head, rest, from + 1);
        } else if rest[from] == '"' {
            let close = from + 1 + quoted_run(rest, from + 1);
            if close < rest.len() {
                assert(line.subrange(base + from + 1, base + close) =~= rest.subrange(
                    from + 1,
                    close,
                ));
                rest_is_read_alone(head, rest, close + 1);
            }
        } else {
            let end = from + 1 + word_run(rest, from + 1);
            assert(line.subrange(base + from, base + end) =~= rest.subrange(from, end));
            rest_is_read_alone(head, rest, end);
        }
    }
}

/// A run of characters without a quote, closed by a quote, is one quoted run.
proof fn body_is_one_run(line: Seq<char>, from: int, len: int)
    requires
        0 <= from,
        0 <= len,
        from + len < line.len(),
        forall|i: int| from <= i < from + len ==> #[trigger] line[i] != '"',
        line[from + len] == '"',
    ensures
        quoted_run(line, from) == len,
    decreases len,
{
    if len > 0 {
        body_is_one_run(line, from + 1, len - 1);
    }
}

/// A double-quoted span is one token: its contents, with the two enclosing
/// quotes removed and nothing else changed, whatever characters other than the
/// quote it holds.  The tokens before it are those of the text before it, and
/// the tokens after it those of the text after it.
///
/// The span starts at a quote that opens it: the text before it is well formed
/// by itself.
pub proof fn quoted_span_is_one_token(before: Seq<char>, body: Seq<char>, rest: Seq<char>)
    requires
        tokens_of(before) is Ok,
        forall|i: int| 0 <= i < body.len() ==> #[trigger] body[i] != '"',
    ensures
        tokens_of(before + seq!['"'] + body + seq!['"'] + rest) == after(
            tokens_of(before)->Ok_0.push(body),
            shifted(tokens_of(rest), (before.len() + body.len() + 2) as int),
        ),
{
    let span = before + seq!['"'] + body + seq!['"'];
    let line = span + rest;
    let open = before.len() as int;
    let close = open + 1 + body.len();
    assert(line.subrange(0, open) =~= before);
    assert(line[open] == '"');
    assert(line[close] == '"');
    head_is_read_alone(before, line, 0);
    assert forall|i: int| open + 1 <= i < close implies #[trigger] line[i] != '"' by {
        assert(line[i] == body[i - open - 1]);
    }
    body_is_one_run(line, open + 1, body.len() as int);
    assert(line.subrange(open + 1, close) =~= body);
    rest_is_read_alone(span, rest, 0);
    let tail = tokens_from(line, close + 1);
    assert(tokens_from(line, open) == after(seq![body], tail));
    let head_tokens = tokens_of(before)->Ok_0;
    if tail is Ok {
        assert(head_tokens + (seq![body] + tail->Ok_0) =~= head_tokens.push(body) + tail->Ok_0);
    }
}

} // verus!
