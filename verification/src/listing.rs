//! How the contents of a directory are listed: a header for each directory
//! that is named, a heading, and one row for each entry with the time of its
//! last change and its name in colour.

use crate::config::{setting, Config};
use crate::report::{colored, colored_text};
use crate::text::{dashes, pad, padded, repeated, split, split_text, words};
use vstd::prelude::*;
use vstd::utf8::encode_utf8;

verus! {

/// The width of the time of last change in a row.
pub const MODIFIED_WIDTH: usize = 19;

/// The width of the name in a row.
pub const NAME_WIDTH: usize = 41;

/// The width that the header of a directory is laid out for.
pub const HEADER_WIDTH: usize = 60;

/// How many dashes stand on the left of a directory name that takes `width`
/// bytes: half of what the name leaves of the header width.
pub open spec fn left_dashes(width: nat) -> nat {
    if width <= HEADER_WIDTH {
        ((HEADER_WIDTH - width) / 2) as nat
    } else {
        0
    }
}

/// How many dashes stand on the right: as many as on the left, and one more
/// where that number is even.
pub open spec fn right_dashes(width: nat) -> nat {
    if left_dashes(width) % 2 == 0 {
        left_dashes(width) + 1
    } else {
        left_dashes(width)
    }
}

/// The header of the listing of `directory`: its name in square brackets
/// between dashes.  The width of the name is counted in bytes.
pub open spec fn header_text(directory: Seq<char>) -> Seq<char> {
    let width = encode_utf8(directory).len();
    repeated('-', left_dashes(width)) + seq!['['] + directory + seq![']'] + repeated(
        '-',
        right_dashes(width),
    )
}

/// A row of the listing: the time of last change and the name, each filled up
/// to its width, with two spaces between them.
pub open spec fn row_text(modified: Seq<char>, name: Seq<char>) -> Seq<char> {
    padded(modified, MODIFIED_WIDTH as nat) + seq![' ', ' '] + padded(name, NAME_WIDTH as nat)
}

/// The two lines on top of a listing: the titles of the columns, and a rule
/// of dashes under each.
pub open spec fn heading_text() -> Seq<Seq<char>> {
    seq![
        row_text("Modified"@, "Name"@),
        row_text(repeated('-', MODIFIED_WIDTH as nat), repeated('-', NAME_WIDTH as nat)),
    ]
}

/// The name under which an entry is listed: the second field of its path,
/// where the fields are separated by `/`.  A path without `/` has none.
pub open spec fn entry_name_of(path: Seq<char>) -> Option<Seq<char>> {
    let fields = split_text(path, '/');
    if fields.len() > 1 {
        Some(fields[1])
    } else {
        None
    }
}

/// The name of an entry as it is shown: in the colour set for its kind, a
/// directory with `/` behind its name.
pub open spec fn label_text(
    directory_color: Seq<char>,
    filename_color: Seq<char>,
    name: Seq<char>,
    is_directory: bool,
) -> Seq<char> {
    if is_directory {
        colored_text(directory_color, name + seq!['/'])
    } else {
        colored_text(filename_color, name)
    }
}

/// The pattern in which the time of last change is shown: month, day and
/// year, then the hour on a twelve-hour clock, the minute, and AM or PM.
pub open spec fn modified_pattern() -> Seq<char> {
    "%m-%d-%Y %I:%M %p"@
}

/// What `chrono` makes of the instant `seconds` after the start of 1970 (UTC),
/// seen from a time zone `offset` seconds east of UTC, under the strftime
/// pattern `pattern`; `None` where it makes nothing of them.
pub uninterp spec fn formatted_time(seconds: int, offset: int, pattern: Seq<char>) -> Option<
    Seq<char>,
>;

/// The view of a text that may be absent.
pub open spec fn text_view(text: Option<String>) -> Option<Seq<char>> {
    match text {
        Some(t) => Some(t@),
        None => None,
    }
}

/// Formats an instant with `chrono::DateTime::format`.
///
/// Trusted: the result is taken to be a function of the three arguments alone.
/// It is `None` where `chrono` refuses the offset (`FixedOffset::east_opt`),
/// the number of seconds (`DateTime::from_timestamp`) or the pattern (the
/// formatter reports an error).
#[verifier::external_body]
fn format_time(seconds: i64, offset: i32, pattern: &str) -> (text: Option<String>)
    ensures
        text_view(text) == formatted_time(seconds as int, offset as int, pattern@),
{
    let zone = chrono::FixedOffset::east_opt(offset)?;
    let instant = chrono::DateTime::from_timestamp(seconds, 0)?.with_timezone(&zone);
    let mut text = String::new();
    match instant.format(pattern).write_to(&mut text) {
        Ok(()) => Some(text),
        Err(_) => None,
    }
}

/// The header of the listing of `directory`.
pub fn directory_header(directory: &str) -> (header: String)
    ensures
        header@ == header_text(directory@),
{
    let width: usize = directory.as_bytes().len();
    let left: usize = if width <= HEADER_WIDTH {
        (HEADER_WIDTH - width) / 2
    } else {
        0
    };
    let right: usize = if left % 2 == 0 {
        left + 1
    } else {
        left
    };
    let mut header = dashes(left);
    proof {
        reveal_strlit("[");
        reveal_strlit("]");
    }
    header.append("[");
    header.append(directory);
    header.append("]");
    header.append(dashes(right).as_str());
    assert(header@ =~= header_text(directory@));
    header
}

/// A row of the listing, from the time of last change as it is shown and
/// the name as it is shown.
pub fn listing_row(modified: &str, name: &str) -> (row: String)
    ensures
        row@ == row_text(modified@, name@),
{
    let mut row = pad(modified, MODIFIED_WIDTH);
    proof {
        reveal_strlit("  ");
    }
    row.append("  ");
    row.append(pad(name, NAME_WIDTH).as_str());
    assert(row@ =~= row_text(modified@, name@));
    row
}

/// The two lines on top of a listing.
pub fn listing_heading() -> (lines: Vec<String>)
    ensures
        words(lines@) == heading_text(),
{
    let mut lines: Vec<String> = Vec::new();
    lines.push(listing_row("Modified", "Name"));
    lines.push(listing_row(dashes(MODIFIED_WIDTH).as_str(), dashes(NAME_WIDTH).as_str()));
    assert(words(lines@) =~= heading_text());
    lines
}

/// The name under which the entry at `path` is listed, if it has one.
pub fn entry_name(path: &str) -> (name: Option<String>)
    ensures
        text_view(name) == entry_name_of(path@),
{
    let fields = split(path, '/');
    assert(words(fields@).len() == fields@.len());
    if fields.len() > 1 {
        assert(words(fields@)[1] == fields@[1]@);
        Some(fields[1].clone())
    } else {
        None
    }
}

/// The name of an entry as it is shown under the settings of `config`.
pub fn entry_label(config: &Config, name: &str, is_directory: bool) -> (label: String)
    ensures
        label@ == label_text(
            setting(config@, "directory_text_color"@),
            setting(config@, "filename_text_color"@),
            name@,
            is_directory,
        ),
{
    if is_directory {
        let color = config.get("directory_text_color");
        let mut shown = name.to_owned();
        proof {
            reveal_strlit("/");
        }
        shown.append("/");
        colored(color.as_str(), shown.as_str())
    } else {
        let color = config.get("filename_text_color");
        colored(color.as_str(), name)
    }
}

/// The time of last change as it is shown, for a change `seconds` after the
/// start of 1970 (UTC) that is seen from a time zone `offset` seconds east of
/// UTC; `None` where the instant or the offset is out of range.
pub fn modified_text(seconds: i64, offset: i32) -> (text: Option<String>)
    ensures
        text_view(text) == formatted_time(seconds as int, offset as int, modified_pattern()),
{
    format_time(seconds, offset, "%m-%d-%Y %I:%M %p")
}

/// The row of the entry at `path`, which was last changed `seconds` after
/// the start of 1970 (UTC), as seen from a time zone `offset` seconds east of
/// UTC.  There is no row where the path has no name to list or the time cannot
/// be shown.
pub fn directory_entry(
    config: &Config,
    path: &str,
    is_directory: bool,
    seconds: i64,
    offset: i32,
) -> (row: Option<String>)
    ensures
        text_view(row) == match (
            entry_name_of(path@),
            formatted_time(seconds as int, offset as int, modified_pattern()),
        ) {
            (Some(name), Some(modified)) => Some(
                row_text(
                    modified,
                    label_text(
                        setting(config@, "directory_text_color"@),
                        setting(config@, "filename_text_color"@),
                        name,
                        is_directory,
                    ),
                ),
            ),
            _ => None,
        },
{
    match entry_name(path) {
        None => None,
        Some(name) => match modified_text(seconds, offset) {
            None => None,
            Some(modified) => {
                let label = entry_label(config, name.as_str(), is_directory);
                Some(listing_row(modified.as_str(), label.as_str()))
            },
        },
    }
}

/// What is said of a directory that is to be listed and does not exist.
pub open spec fn missing_directory_text(directory: Seq<char>) -> Seq<char> {
    "Directory "@ + directory + " does not exist"@
}

/// What is said of `directory` where it is to be listed and does not exist.
pub fn missing_directory(directory: &str) -> (text: String)
    ensures
        text@ == missing_directory_text(directory@),
{
    let mut text = "Directory ".to_owned();
    text.append(directory);
    text.append(" does not exist");
    text
}

/// What is said of a path that is to become the current directory and is no
/// directory.
pub open spec fn invalid_directory_text(directory: Seq<char>) -> Seq<char> {
    directory + " is not a valid directory"@
}

/// What is said of `directory` where it is to become the current directory
/// and is no directory.
pub fn invalid_directory(directory: &str) -> (text: String)
    ensures
        text@ == invalid_directory_text(directory@),
{
    let mut text = directory.to_owned();
    text.append(" is not a valid directory");
    text
}

} // verus!
