//! The lexer: one raw input line to its tokens.
//!
//! The grammar knows one quoting form.  A double-quoted span is a single token
//! whose text is what stands between the quotes; outside of quotes, white space
//! separates tokens and a maximal run of other characters is a token.  A quote
//! that is never closed makes the whole line malformed.

use crate::text::{chars_of, words};
use vstd::prelude::*;

verus! {

/// The characters that separate tokens outside of quotes.
pub open spec fn is_space(c: char) -> bool {
    c == ' ' || c == '\t' || c == '\n' || c == '\r'
}

/// The characters a bare word is made of: anything but white space and the quote.
pub open spec fn is_word_char(c: char) -> bool {
    !is_space(c) && c != '"'
}

/// How many characters of `line`, starting at `from`, stay inside a quoted
/// span: the length of the longest run without a quote.
pub open spec fn quoted_run(line: Seq<char>, from: int) -> nat
    decreases line.len() - from,
{
    if 0 <= from < line.len() && line[from] != '"' {
        1 + quoted_run(line, from + 1)
    } else {
        0
    }
}

/// How many characters of `line`, starting at `from`, continue a bare word.
pub open spec fn word_run(line: Seq<char>, from: int) -> nat
    decreases line.len() - from,
{
    if 0 <= from < line.len() && is_word_char(line[from]) {
        1 + word_run(line, from + 1)
    } else {
        0
    }
}

/// Why a line is malformed.
#[derive(Clone, Copy, Debug, PartialEq, Eq, Structural)]
pub enum LexError {
    /// The quote opened at character index `at` is never closed.
    UnterminatedQuote { at: usize },
}

/// Puts `tokens` in front of a lexing result, keeping a failure as it is.
pub open spec fn after(tokens: Seq<Seq<char>>, rest: Result<Seq<Seq<char>>, int>) -> Result<
    Seq<Seq<char>>,
    int,
> {
    match rest {
        Ok(more) => Ok(tokens + more),
        Err(at) => Err(at),
    }
}

/// The tokens of `line` from character index `from` on, or the index of the
/// quote that is left open.
pub open spec fn tokens_from(line: Seq<char>, from: int) -> Result<Seq<Seq<char>>, int>
    decreases line.len() - from,
    via tokens_from_terminates
{
    if from < 0 || from >= line.len() {
        Ok(Seq::empty())
    } else if is_space(line[from]) {
        tokens_from(line, from + 1)
    } else if line[from] == '"' {
        let close = from + 1 + quoted_run(line, from + 1);
        if close >= line.len() {
            Err(from)
        } else {
            after(seq![line.subrange(from + 1, close)], tokens_from(line, close + 1))
        }
    } else {
        let end = from + 1 + word_run(line, from + 1);
        after(seq![line.subrange(from, end)], tokens_from(line, end))
    }
}

#[via_fn]
proof fn tokens_from_terminates(line: Seq<char>, from: int) {
    if 0 <= from < line.len() {
        runs_stay_inside(line, from + 1);
    }
}

/// A run that starts inside the line ends inside it or at its end.
pub proof fn runs_stay_inside(line: Seq<char>, from: int)
    requires
        0 <= from <= line.len(),
    ensures
        from + quoted_run(line, from) <= line.len(),
        from + word_run(line, from) <= line.len(),
    decreases line.len() - from,
{
    if from < line.len() {
        runs_stay_inside(line, from + 1);
    }
}

/// The tokens of a whole line.
pub open spec fn tokens_of(line: Seq<char>) -> Result<Seq<Seq<char>>, int> {
    tokens_from(line, 0)
}

/// What a lexing result says, over characters.
pub open spec fn lexed(result: Result<Vec<String>, LexError>) -> Result<Seq<Seq<char>>, int> {
    match result {
        Ok(tokens) => Ok(words(tokens@)),
        Err(LexError::UnterminatedQuote { at }) => Err(at as int),
    }
}

/// Moving one token from the front of the rest to the end of what was read
/// leaves the whole unchanged.
proof fn token_moves_over(
    read: Seq<Seq<char>>,
    token: Seq<char>,
    rest: Result<Seq<Seq<char>>, int>,
)
    ensures
        after(read, after(seq![token], rest)) == after(read.push(token), rest),
{
    match rest {
        Ok(more) => {
            assert(read + (seq![token] + more) =~= read.push(token) + more);
        },
        Err(_) => {},
    }
}

/// The grammar of an input line.
pub struct ArgParser;

impl ArgParser {
    /// Splits `line` into its tokens, or reports the quote that is left open.
    pub fn tokenize(line: &str) -> (result: Result<Vec<String>, LexError>)
        ensures
            lexed(result) == tokens_of(line@),
    {
        let chars = chars_of(line);
        let n: usize = chars.len();
        let mut tokens: Vec<String> = Vec::new();
        let mut i: usize = 0;
        assert(words(tokens@) + tokens_from(line@, 0)->Ok_0 =~= tokens_from(line@, 0)->Ok_0);
        while i < n
            invariant
                n == chars.len(),
                chars@ == line@,
                i <= n,
                tokens_of(line@) == after(words(tokens@), tokens_from(line@, i as int)),
            decreases n - i,
        {
            let c = chars[i];
            if c == ' ' || c == '\t' || c == '\n' || c == '\r' {
                i += 1;
            } else if c == '"' {
                let start: usize = i + 1;
                let mut j: usize = start;
                while j < n && chars[j] != '"'
                    invariant
                        n == chars.len(),
                        chars@ == line@,
                        start <= j <= n,
                        quoted_run(line@, start as int) == (j - start) + quoted_run(
                            line@,
                            j as int,
                        ),
                    decreases n - j,
                {
                    j += 1;
                }
                if j >= n {
                    return Err(LexError::UnterminatedQuote { at: i });
                }
                let token = line.substring_char(start, j).to_owned();
                proof {
                    token_moves_over(
                        words(tokens@),
                        token@,
                        tokens_from(line@, j as int + 1),
                    );
                    assert(words(tokens@.push(token)) =~= words(tokens@).push(token@));
                }
                tokens.push(token);
                i = j + 1;
            } else {
                let mut j: usize = i + 1;
                while j < n && chars[j] != '"' && chars[j] != ' ' && chars[j] != '\t' && chars[j]
                    != '\n' && chars[j] != '\r'
                    invariant
                        n == chars.len(),
                        chars@ == line@,
                        i < j <= n,
                        word_run(line@, i as int + 1) == (j - i - 1) + word_run(line@, j as int),
                    decreases n - j,
                {
                    j += 1;
                }
                let token = line.substring_char(i, j).to_owned();
                proof {
                    token_moves_over(words(tokens@), token@, tokens_from(line@, j as int));
                    assert(words(tokens@.push(token)) =~= words(tokens@).push(token@));
                }
                tokens.push(token);
                i = j;
            }
        }
        proof {
            assert(words(tokens@) + Seq::<Seq<char>>::empty() =~= words(tokens@));
        }
        Ok(tokens)
    }
}

/// The tokens of one input line.
///
/// A double-quoted span gives one token, without its quotes; elsewhere white
/// space separates the tokens.  An empty line, or one of white space only, has
/// no tokens.  A line with a quote that is never closed is refused.
pub fn parse(to_parse: String) -> (result: Result<Vec<String>, LexError>)
    ensures
        lexed(result) == tokens_of(to_parse@),
{
    ArgParser::tokenize(to_parse.as_str())
}

} // verus!
