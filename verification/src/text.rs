//! Small helpers on strings, stated over their characters.

use vstd::prelude::*;

verus! {

/// The view of every string of a sequence, in order.
pub open spec fn words(tokens: Seq<String>) -> Seq<Seq<char>> {
    Seq::new(tokens.len(), |i: int| tokens[i]@)
}

/// The characters of `s`, in order.
pub fn chars_of(s: &str) -> (chars: Vec<char>)
    ensures
        chars@ == s@,
{
    let mut chars: Vec<char> = Vec::new();
    for c in it: s.chars()
        invariant
            chars@ == it.seq().take(it.index() as int),
    {
        chars.push(c);
    }
    chars
}

/// Whether two strings hold the same characters.
pub fn same_text(a: &str, b: &str) -> (same: bool)
    ensures
        same == (a@ == b@),
{
    let x = a.to_owned();
    let y = b.to_owned();
    x == y
}

/// A copy of every string of `tokens`, in order.
pub fn copy_of(tokens: &[String]) -> (copy: Vec<String>)
    ensures
        words(copy@) == words(tokens@),
{
    let mut copy: Vec<String> = Vec::new();
    let mut i: usize = 0;
    while i < tokens.len()
        invariant
            i <= tokens@.len(),
            copy@.len() == i,
            forall|k: int| 0 <= k < i ==> copy@[k]@ == tokens@[k]@,
        decreases tokens@.len() - i,
    {
        copy.push(tokens[i].clone());
        i += 1;
    }
    assert(words(copy@) =~= words(tokens@));
    copy
}

/// The texts of `parts` in order, with `separator` between each two
/// neighbours.
pub open spec fn joined(parts: Seq<Seq<char>>, separator: Seq<char>) -> Seq<char>
    decreases parts.len(),
{
    if parts.len() == 0 {
        Seq::empty()
    } else if parts.len() == 1 {
        parts[0]
    } else {
        joined(parts.drop_last(), separator) + separator + parts.last()
    }
}

/// Joins `parts` with `separator` between each two neighbours.
pub fn join(parts: &[String], separator: &str) -> (text: String)
    ensures
        text@ == joined(words(parts@), separator@),
{
    let mut text = String::new();
    let mut i: usize = 0;
    while i < parts.len()
        invariant
            i <= parts@.len(),
            text@ == joined(words(parts@).take(i as int), separator@),
        decreases parts@.len() - i,
    {
        let ghost before = words(parts@).take(i as int);
        let ghost now = words(parts@).take(i as int + 1);
        assert(now.drop_last() =~= before);
        assert(now.last() == parts@[i as int]@);
        if i > 0 {
            text.append(separator);
        }
        text.append(parts[i].as_str());
        assert(text@ =~= joined(now, separator@));
        i += 1;
    }
    assert(words(parts@).take(i as int) =~= words(parts@));
    text
}

/// How many characters of `text`, starting at `from`, come before the next
/// `separator`.
pub open spec fn field_run(text: Seq<char>, from: int, separator: char) -> nat
    decreases text.len() - from,
{
    if 0 <= from < text.len() && text[from] != separator {
        1 + field_run(text, from + 1, separator)
    } else {
        0
    }
}

/// The fields of `text` from index `from` on: the stretches between one
/// `separator` and the next.  Two separators side by side, and one at either
/// end, bound an empty field; a text without separator is one field.
pub open spec fn split_from(text: Seq<char>, from: int, separator: char) -> Seq<Seq<char>>
    decreases text.len() - from,
{
    let end = from + field_run(text, from, separator);
    if from < 0 || end >= text.len() {
        seq![text.subrange(from, text.len() as int)]
    } else {
        seq![text.subrange(from, end)] + split_from(text, end + 1, separator)
    }
}

/// The fields of `text` between separators.
pub open spec fn split_text(text: Seq<char>, separator: char) -> Seq<Seq<char>> {
    split_from(text, 0, separator)
}

/// Splits `text` at every `separator`.
pub fn split(text: &str, separator: char) -> (fields: Vec<String>)
    ensures
        words(fields@) == split_text(text@, separator),
{
    let chars = chars_of(text);
    let n: usize = chars.len();
    let mut fields: Vec<String> = Vec::new();
    let mut from: usize = 0;
    loop
        invariant_except_break
            n == chars.len(),
            chars@ == text@,
            from <= n,
            split_text(text@, separator) == words(fields@) + split_from(
                text@,
                from as int,
                separator,
            ),
        ensures
            words(fields@) == split_text(text@, separator),
        decreases n - from,
    {
        let mut end: usize = from;
        while end < n && chars[end] != separator
            invariant
                n == chars.len(),
                chars@ == text@,
                from <= end <= n,
                field_run(text@, from as int, separator) == (end - from) + field_run(
                    text@,
                    end as int,
                    separator,
                ),
            decreases n - end,
        {
            end += 1;
        }
        let field = text.substring_char(from, end).to_owned();
        let ghost before = words(fields@);
        fields.push(field);
        proof {
            assert(words(fields@) =~= before.push(field@));
            let rest = if end >= n {
                Seq::<Seq<char>>::empty()
            } else {
                split_from(text@, end as int + 1, separator)
            };
            assert(before + (seq![field@] + rest) =~= before.push(field@) + rest);
            assert(seq![field@] + Seq::<Seq<char>>::empty() =~= seq![field@]);
        }
        if end >= n {
            break ;
        }
        from = end + 1;
    }
    fields
}

/// Whether `c` occurs in `text`.
pub fn holds(text: &str, c: char) -> (found: bool)
    ensures
        found == text@.contains(c),
{
    let chars = chars_of(text);
    let mut i: usize = 0;
    while i < chars.len()
        invariant
            chars@ == text@,
            i <= chars.len(),
            forall|k: int| 0 <= k < i ==> text@[k] != c,
        decreases chars.len() - i,
    {
        if chars[i] == c {
            return true;
        }
        i += 1;
    }
    false
}

/// The character that stands for a digit from 0 to 9.
pub open spec fn digit_char(digit: nat) -> char {
    if digit == 0 {
        '0'
    } else if digit == 1 {
        '1'
    } else if digit == 2 {
        '2'
    } else if digit == 3 {
        '3'
    } else if digit == 4 {
        '4'
    } else if digit == 5 {
        '5'
    } else if digit == 6 {
        '6'
    } else if digit == 7 {
        '7'
    } else if digit == 8 {
        '8'
    } else {
        '9'
    }
}

/// A number in decimal digits, without leading zeros.
pub open spec fn decimal_text(n: nat) -> Seq<char>
    decreases n,
{
    if n < 10 {
        seq![digit_char(n)]
    } else {
        decimal_text(n / 10).push(digit_char(n % 10))
    }
}

fn digit_text(digit: usize) -> (text: &'static str)
    requires
        digit < 10,
    ensures
        text@ == seq![digit_char(digit as nat)],
{
    proof {
        reveal_strlit("0");
        reveal_strlit("1");
        reveal_strlit("2");
        reveal_strlit("3");
        reveal_strlit("4");
        reveal_strlit("5");
        reveal_strlit("6");
        reveal_strlit("7");
        reveal_strlit("8");
        reveal_strlit("9");
    }
    let text = if digit == 0 {
        "0"
    } else if digit == 1 {
        "1"
    } else if digit == 2 {
        "2"
    } else if digit == 3 {
        "3"
    } else if digit == 4 {
        "4"
    } else if digit == 5 {
        "5"
    } else if digit == 6 {
        "6"
    } else if digit == 7 {
        "7"
    } else if digit == 8 {
        "8"
    } else {
        "9"
    };
    assert(text@ =~= seq![digit_char(digit as nat)]);
    text
}

/// Writes `n` in decimal digits.
pub fn decimal(n: usize) -> (text: String)
    ensures
        text@ == decimal_text(n as nat),
    decreases n,
{
    if n < 10 {
        digit_text(n).to_owned()
    } else {
        let mut text = decimal(n / 10);
        text.append(digit_text(n % 10));
        assert(text@ =~= decimal_text(n as nat));
        text
    }
}

/// `count` times the character `c`.
pub open spec fn repeated(c: char, count: nat) -> Seq<char> {
    Seq::new(count, |i: int| c)
}

/// `text`, filled up on the right with spaces to `width` characters; a text
/// that is as long or longer stays as it is.
pub open spec fn padded(text: Seq<char>, width: nat) -> Seq<char> {
    if text.len() >= width {
        text
    } else {
        text + repeated(' ', (width - text.len()) as nat)
    }
}

/// Appends `count` times the text `unit`, which is one character.
fn append_repeated(text: &mut String, unit: &str, count: usize)
    requires
        unit@.len() == 1,
    ensures
        final(text)@ == old(text)@ + repeated(unit@[0], count as nat),
{
    let mut i: usize = 0;
    assert(text@ =~= old(text)@ + repeated(unit@[0], 0));
    while i < count
        invariant
            i <= count,
            unit@.len() == 1,
            text@ == old(text)@ + repeated(unit@[0], i as nat),
        decreases count - i,
    {
        text.append(unit);
        i += 1;
        assert(text@ =~= old(text)@ + repeated(unit@[0], i as nat));
    }
}

/// `count` dashes.
pub fn dashes(count: usize) -> (text: String)
    ensures
        text@ == repeated('-', count as nat),
{
    let mut text = String::new();
    proof {
        reveal_strlit("-");
    }
    append_repeated(&mut text, "-", count);
    assert(text@ =~= repeated('-', count as nat));
    text
}

/// Fills `text` up on the right with spaces to `width` characters.
pub fn pad(text: &str, width: usize) -> (filled: String)
    ensures
        filled@ == padded(text@, width as nat),
{
    let mut filled = text.to_owned();
    let len: usize = text.unicode_len();
    if len < width {
        proof {
            reveal_strlit(" ");
        }
        append_repeated(&mut filled, " ", width - len);
    }
    filled
}

/// Whether `c` is one of the digits `0` to `9`.
pub open spec fn is_digit(c: char) -> bool {
    '0' <= c <= '9'
}

/// The number that a sequence of digits writes in decimal.
pub open spec fn digits_value(digits: Seq<char>) -> nat
    decreases digits.len(),
{
    if digits.len() == 0 {
        0
    } else {
        digits_value(digits.drop_last()) * 10 + (digits.last() as nat - '0' as nat) as nat
    }
}

/// The digits of a number text: the text without the one `+` that may lead it.
pub open spec fn unsigned_part(text: Seq<char>) -> Seq<char> {
    if text.len() > 0 && text[0] == '+' {
        text.skip(1)
    } else {
        text
    }
}

/// The number that `text` writes: at least one decimal digit, after at most
/// one leading `+`.  Any other text writes no number.
pub open spec fn number_of(text: Seq<char>) -> Option<nat> {
    let digits = unsigned_part(text);
    if digits.len() > 0 && (forall|i: int| 0 <= i < digits.len() ==> is_digit(#[trigger] digits[i])) {
        Some(digits_value(digits))
    } else {
        None
    }
}

/// The digits read so far never write more than all the digits do.
proof fn value_grows(digits: Seq<char>, read: int)
    requires
        0 <= read <= digits.len(),
    ensures
        digits_value(digits.take(read)) <= digits_value(digits),
    decreases digits.len() - read,
{
    if read == digits.len() {
        assert(digits.take(read) =~= digits);
    } else {
        assert(digits.take(read + 1).drop_last() =~= digits.take(read));
        value_grows(digits, read + 1);
    }
}

/// Reads `text` as a number, where it writes one that a `usize` can hold.
pub fn parse_number(text: &str) -> (number: Option<usize>)
    ensures
        number == match number_of(text@) {
            Some(value) => if value <= usize::MAX {
                Some(value as usize)
            } else {
                None
            },
            None => None,
        },
{
    let chars = chars_of(text);
    let n: usize = chars.len();
    let start: usize = if n > 0 && chars[0] == '+' {
        1
    } else {
        0
    };
    if start >= n {
        return None;
    }
    let ghost digits = unsigned_part(text@);
    assert(digits =~= text@.skip(start as int));
    let mut value: usize = 0;
    let mut i: usize = start;
    assert(digits.take(0) =~= Seq::<char>::empty());
    while i < n
        invariant
            n == chars.len(),
            chars@ == text@,
            start <= i <= n,
            start < n,
            digits == text@.skip(start as int),
            digits == unsigned_part(text@),
            forall|k: int| 0 <= k < i - start ==> is_digit(#[trigger] digits[k]),
            value == digits_value(digits.take(i - start)),
        decreases n - i,
    {
        let c = chars[i];
        assert(c == digits[i - start]);
        if c < '0' || c > '9' {
            assert(!is_digit(digits[i - start]));
            return None;
        }
        let digit: usize = (c as u32 - '0' as u32) as usize;
        proof {
            let read = digits.take(i - start + 1);
            assert(read.drop_last() =~= digits.take(i - start));
            assert(read.last() == c);
            assert(digits_value(read) == value * 10 + digit);
            value_grows(digits, i - start + 1);
        }
        if value > (usize::MAX - digit) / 10 {
            assert(value * 10 + digit > usize::MAX);
            return None;
        }
        value = value * 10 + digit;
        i += 1;
    }
    assert(digits.take(i - start) =~= digits);
    Some(value)
}

/// How the standard library shows a text for debugging: between double
/// quotes, with the characters that need it escaped.
pub uninterp spec fn debug_text(text: Seq<char>) -> Seq<char>;

/// Shows `text` as `{:?}` formats a `str`.
///
/// Trusted: the result is taken to be a function of the characters of `text`
/// alone, which is all that is claimed of `<str as Debug>::fmt`.
#[verifier::external_body]
pub(crate) fn quoted(text: &str) -> (shown: String)
    ensures
        shown@ == debug_text(text@),
{
    format!("{:?}", text)
}

} // verus!
