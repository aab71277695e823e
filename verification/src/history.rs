//! The commands entered so far, and how they are listed.

use crate::text::{copy_of, debug_text, decimal, decimal_text, join, joined, quoted, words};
use vstd::prelude::*;

verus! {

/// Every command entered during the life of the interpreter, oldest first.
pub struct History {
    commands: Vec<Vec<String>>,
}

impl View for History {
    type V = Seq<Seq<Seq<char>>>;

    closed spec fn view(&self) -> Seq<Seq<Seq<char>>> {
        Seq::new(self.commands@.len(), |i: int| words(self.commands@[i]@))
    }
}

/// The text of one line of a listing: the number, ` > `, and the command as
/// it is shown.
pub open spec fn numbered(number: nat, shown: Seq<char>) -> Seq<char> {
    decimal_text(number) + seq![' ', '>', ' '] + shown
}

/// How a command is shown in a listing: its tokens joined by single spaces,
/// in the debugging form of the text.
pub open spec fn shown_command(command: Seq<Seq<char>>) -> Seq<char> {
    debug_text(joined(command, seq![' ']))
}

/// How many commands a listing of the newest `num` shows, out of `held`.
pub open spec fn shown_count(held: nat, num: nat) -> nat {
    if num > held {
        held
    } else {
        num
    }
}

/// The complete listing: every command, oldest first, numbered from 1.
pub open spec fn full_listing(history: Seq<Seq<Seq<char>>>) -> Seq<Seq<char>> {
    Seq::new(history.len(), |i: int| numbered((i + 1) as nat, shown_command(history[i])))
}

/// The listing of the newest `num` commands, oldest first, or of all commands
/// where fewer are held; each is numbered by its place in the history, counted
/// from 0.
pub open spec fn recent_listing(history: Seq<Seq<Seq<char>>>, num: nat) -> Seq<Seq<char>> {
    let shown = shown_count(history.len(), num);
    let first = history.len() - shown;
    Seq::new(shown, |k: int| numbered((first + k) as nat, shown_command(history[first + k])))
}

/// One line of a listing, from its number and the command as it is shown.
pub fn history_line(number: usize, shown: &str) -> (line: String)
    ensures
        line@ == numbered(number as nat, shown@),
{
    let mut line = decimal(number);
    proof {
        reveal_strlit(" > ");
    }
    line.append(" > ");
    line.append(shown);
    assert(line@ =~= numbered(number as nat, shown@));
    line
}

impl History {
    /// A history without commands.
    pub fn new() -> (history: Self)
        ensures
            history@ == Seq::<Seq<Seq<char>>>::empty(),
    {
        let history = History { commands: Vec::new() };
        assert(history@ =~= Seq::<Seq<Seq<char>>>::empty());
        history
    }

    /// How many commands are held.
    pub fn len(&self) -> (n: usize)
        ensures
            n == self@.len(),
    {
        self.commands.len()
    }

    /// The newest command, if any is held.
    pub fn last_command(&self) -> (newest: Option<&Vec<String>>)
        ensures
            match newest {
                Some(command) => self@.len() > 0 && words(command@) == self@.last(),
                None => self@.len() == 0,
            },
    {
        let held: usize = self.commands.len();
        if held == 0 {
            None
        } else {
            Some(&self.commands[held - 1])
        }
    }

    /// Adds `command` as the newest entry.
    pub fn add_to_history(&mut self, command: &Vec<String>)
        ensures
            final(self)@ == old(self)@.push(words(command@)),
    {
        let copy = copy_of(command.as_slice());
        self.commands.push(copy);
        assert(self@ =~= old(self)@.push(words(command@)));
    }

    /// The line that lists the command at `index` under `number`.
    fn line_of(&self, index: usize, number: usize) -> (line: String)
        requires
            index < self@.len(),
        ensures
            line@ == numbered(number as nat, shown_command(self@[index as int])),
    {
        proof {
            reveal_strlit(" ");
            assert(" "@ =~= seq![' ']);
        }
        let text = join(self.commands[index].as_slice(), " ");
        let shown = quoted(text.as_str());
        history_line(number, shown.as_str())
    }

    /// The lines of the complete listing.
    pub fn display_full_history(&self) -> (lines: Vec<String>)
        ensures
            words(lines@) == full_listing(self@),
    {
        let mut lines: Vec<String> = Vec::new();
        let mut i: usize = 0;
        while i < self.commands.len()
            invariant
                i <= self@.len(),
                self@.len() == self.commands@.len(),
                lines@.len() == i,
                forall|k: int|
                    0 <= k < i ==> (#[trigger] lines@[k])@ == numbered(
                        (k + 1) as nat,
                        shown_command(self@[k]),
                    ),
            decreases self@.len() - i,
        {
            lines.push(self.line_of(i, i + 1));
            i += 1;
        }
        assert(words(lines@) =~= full_listing(self@));
        lines
    }

    /// The lines of the listing of the newest `num` commands.
    pub fn display_num_commands(&self, num: usize) -> (lines: Vec<String>)
        ensures
            words(lines@) == recent_listing(self@, num as nat),
    {
        let total: usize = self.commands.len();
        let num_commands: usize = if num > total {
            total
        } else {
            num
        };
        let first: usize = total - num_commands;
        let mut lines: Vec<String> = Vec::new();
        let mut count: usize = 0;
        while count != num_commands
            invariant
                total == self@.len(),
                num_commands <= total,
                first == total - num_commands,
                count <= num_commands,
                lines@.len() == count,
                forall|k: int|
                    0 <= k < count ==> (#[trigger] lines@[k])@ == numbered(
                        (first + k) as nat,
                        shown_command(self@[first + k]),
                    ),
            decreases num_commands - count,
        {
            lines.push(self.line_of(first + count, first + count));
            count += 1;
        }
        assert(words(lines@) =~= recent_listing(self@, num as nat));
        lines
    }
}

} // verus!
