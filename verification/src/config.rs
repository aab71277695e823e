//! The settings that a user can change: the colours of the listing and of
//! error messages, each held as the three numbers of an ANSI colour sequence.

use crate::text::{holds, same_text, split, split_text, words};
use vstd::prelude::*;

verus! {

/// The settings in force.
pub struct Config {
    // listing
    directory_text_color: String,
    filename_text_color: String,
    // errors
    error_text_color: String,
}

/// The settings over characters.
pub struct ConfigView {
    pub directory_text_color: Seq<char>,
    pub filename_text_color: Seq<char>,
    pub error_text_color: Seq<char>,
}

impl View for Config {
    type V = ConfigView;

    closed spec fn view(&self) -> ConfigView {
        ConfigView {
            directory_text_color: self.directory_text_color@,
            filename_text_color: self.filename_text_color@,
            error_text_color: self.error_text_color@,
        }
    }
}

/// The settings that hold until a configuration says otherwise.
pub open spec fn default_settings() -> ConfigView {
    ConfigView {
        directory_text_color: "42;125;211"@,
        filename_text_color: "192;192;192"@,
        error_text_color: "255;0;0"@,
    }
}

/// The value of the setting called `field`, or a text that says that there is
/// no such setting.
pub open spec fn setting(config: ConfigView, field: Seq<char>) -> Seq<char> {
    if field == "directory_text_color"@ {
        config.directory_text_color
    } else if field == "filename_text_color"@ {
        config.filename_text_color
    } else if field == "error_text_color"@ {
        config.error_text_color
    } else {
        "No value for given field"@
    }
}

/// Whether `field` is the name of a setting.
pub open spec fn is_setting(field: Seq<char>) -> bool {
    field == "directory_text_color"@ || field == "filename_text_color"@ || field
        == "error_text_color"@
}

/// `config` with the setting called `field` changed to `value`; another
/// `field` changes nothing.
pub open spec fn with_setting(config: ConfigView, field: Seq<char>, value: Seq<char>) -> ConfigView {
    if field == "directory_text_color"@ {
        ConfigView { directory_text_color: value, ..config }
    } else if field == "filename_text_color"@ {
        ConfigView { filename_text_color: value, ..config }
    } else if field == "error_text_color"@ {
        ConfigView { error_text_color: value, ..config }
    } else {
        config
    }
}

/// Whether a line of a configuration sets something: its first field, up to
/// the first colon, names a setting, and a second field follows.
pub open spec fn sets_something(line: Seq<char>) -> bool {
    let fields = split_text(line, ':');
    is_setting(fields[0]) && fields.len() > 1
}

/// The settings after a line of the form `name:value` has been read.  The
/// value ends at a second colon, if there is one.  Any other line changes
/// nothing.
pub open spec fn after_line(config: ConfigView, line: Seq<char>) -> ConfigView {
    let fields = split_text(line, ':');
    if sets_something(line) {
        with_setting(config, fields[0], fields[1])
    } else {
        config
    }
}

/// What is to be said of a line of a configuration file, if anything: that it
/// is a comment, where it holds a `#`, or that it is invalid, where it sets
/// nothing.
pub open spec fn line_notice(line: Seq<char>) -> Option<Seq<char>> {
    if line.contains('#') {
        Some("Found comment"@)
    } else if sets_something(line) {
        None
    } else {
        Some("invalid line found -- "@ + split_text(line, ':')[0])
    }
}

/// The settings after the lines of a configuration file have been read in
/// order; lines that hold a `#` are comments and change nothing.
pub open spec fn after_lines(config: ConfigView, lines: Seq<Seq<char>>) -> ConfigView
    decreases lines.len(),
{
    if lines.len() == 0 {
        config
    } else {
        let before = after_lines(config, lines.drop_last());
        if lines.last().contains('#') {
            before
        } else {
            after_line(before, lines.last())
        }
    }
}

/// The notices on the lines of a configuration file, in the order of the
/// lines.
pub open spec fn notices_on(lines: Seq<Seq<char>>) -> Seq<Seq<char>>
    decreases lines.len(),
{
    if lines.len() == 0 {
        Seq::empty()
    } else {
        match line_notice(lines.last()) {
            Some(notice) => notices_on(lines.drop_last()).push(notice),
            None => notices_on(lines.drop_last()),
        }
    }
}

impl Config {
    /// The default settings.
    pub fn new() -> (config: Self)
        ensures
            config@ == default_settings(),
    {
        Config {
            directory_text_color: "42;125;211".to_owned(),
            filename_text_color: "192;192;192".to_owned(),
            error_text_color: "255;0;0".to_owned(),
        }
    }

    /// Reads one line of the form `name:value` and changes the setting that
    /// it names.  Tells whether the line set something.
    pub fn handle_settings(&mut self, line: &str) -> (applied: bool)
        ensures
            final(self)@ == after_line(old(self)@, line@),
            applied == sets_something(line@),
    {
        let fields = split(line, ':');
        assert(fields@.len() > 0 && fields@[0]@ == split_text(line@, ':')[0]) by {
            assert(words(fields@).len() == fields@.len());
            assert(words(fields@)[0] == fields@[0]@);
        }
        if fields.len() < 2 {
            return false;
        }
        assert(words(fields@)[1] == fields@[1]@);
        let name = fields[0].as_str();
        if same_text(name, "directory_text_color") {
            self.directory_text_color = fields[1].clone();
            true
        } else if same_text(name, "filename_text_color") {
            self.filename_text_color = fields[1].clone();
            true
        } else if same_text(name, "error_text_color") {
            self.error_text_color = fields[1].clone();
            true
        } else {
            false
        }
    }

    /// Reads the lines of a configuration file in order and changes the
    /// settings accordingly.  Returns what is to be said of the lines: of each
    /// comment that it was found, and of each other line that set nothing that
    /// it is invalid.
    pub fn read_config_file(&mut self, lines: &[String]) -> (notices: Vec<String>)
        ensures
            final(self)@ == after_lines(old(self)@, words(lines@)),
            words(notices@) == notices_on(words(lines@)),
    {
        let mut notices: Vec<String> = Vec::new();
        let mut i: usize = 0;
        assert(words(lines@).take(0) =~= Seq::<Seq<char>>::empty());
        assert(words(notices@) =~= Seq::<Seq<char>>::empty());
        while i < lines.len()
            invariant
                i <= lines@.len(),
                self@ == after_lines(old(self)@, words(lines@).take(i as int)),
                words(notices@) == notices_on(words(lines@).take(i as int)),
            decreases lines@.len() - i,
        {
            let line = lines[i].as_str();
            let ghost read = words(lines@).take(i as int + 1);
            let ghost said = words(notices@);
            proof {
                assert(read.drop_last() =~= words(lines@).take(i as int));
                assert(read.last() == line@);
            }
            if holds(line, '#') {
                notices.push("Found comment".to_owned());
                assert(words(notices@) =~= said.push("Found comment"@));
            } else if !self.handle_settings(line) {
                let fields = split(line, ':');
                assert(fields@.len() > 0 && fields@[0]@ == split_text(line@, ':')[0]) by {
                    assert(words(fields@).len() == fields@.len());
                    assert(words(fields@)[0] == fields@[0]@);
                }
                let mut notice = "invalid line found -- ".to_owned();
                notice.append(fields[0].as_str());
                notices.push(notice);
                assert(words(notices@) =~= said.push(notice@));
            }
            i += 1;
        }
        assert(words(lines@).take(i as int) =~= words(lines@));
        notices
    }

    /// The value of the setting called `field_string`, or a text that says
    /// that there is no such setting.
    pub fn get(&self, field_string: &str) -> (value: String)
        ensures
            value@ == setting(self@, field_string@),
    {
        if same_text(field_string, "directory_text_color") {
            self.directory_text_color.clone()
        } else if same_text(field_string, "filename_text_color") {
            self.filename_text_color.clone()
        } else if same_text(field_string, "error_text_color") {
            self.error_text_color.clone()
        } else {
            "No value for given field".to_owned()
        }
    }
}

} // verus!
