//! What the interpreter says: the prompt, the report on a process that has
//! ended, and the texts of the errors that end the work on a line.

use crate::assembler::{AssemblyError, AssemblyErrorView, Effect, EffectView};
use crate::builtin::{Builtin, BuiltinError, BuiltinErrorView};
use crate::lexer::LexError;
use crate::text::{decimal, decimal_text, same_text, words};
use vstd::prelude::*;

verus! {

/// `text` in the colour `color`, which is the three numbers of an ANSI
/// colour sequence separated by semicolons.
pub open spec fn colored_text(color: Seq<char>, text: Seq<char>) -> Seq<char> {
    "\x1b[38;2;"@ + color + "m"@ + text + "\x1b[0m"@
}

/// Wraps `text` in the escape sequences that show it in `color`.
pub fn colored(color: &str, text: &str) -> (shown: String)
    ensures
        shown@ == colored_text(color@, text@),
{
    let mut shown = "\x1b[38;2;".to_owned();
    shown.append(color);
    shown.append("m");
    shown.append(text);
    shown.append("\x1b[0m");
    shown
}

/// The prompt of the interpreter whose own process has the identifier `pid`.
pub open spec fn prompt_text(pid: nat) -> Seq<char> {
    "("@ + decimal_text(pid) + ") $ "@
}

/// The prompt, which shows the identifier of the interpreter's own process.
pub fn prompt(pid: u32) -> (text: String)
    ensures
        text@ == prompt_text(pid as nat),
{
    let mut text = "(".to_owned();
    text.append(decimal(pid as usize).as_str());
    text.append(") $ ");
    text
}

/// The report on the last process of a line: its identifier and how it
/// ended.
pub open spec fn completion_text(pid: nat, status: Seq<char>) -> Seq<char> {
    "Child "@ + decimal_text(pid) + " exited with status "@ + status
}

/// The report on the process `pid`, which has ended with `status`.
pub fn completion_report(pid: u32, status: &str) -> (text: String)
    ensures
        text@ == completion_text(pid as nat, status@),
{
    let mut text = "Child ".to_owned();
    text.append(decimal(pid as usize).as_str());
    text.append(" exited with status ");
    text.append(status);
    text
}

/// What is said when the last process of a line cannot be run.
pub open spec fn execution_failure_text(reason: Seq<char>) -> Seq<char> {
    "Error: Could not execute process.\n"@ + reason
}

/// What is said when the last process of a line cannot be run for `reason`.
pub fn execution_failure(reason: &str) -> (text: String)
    ensures
        text@ == execution_failure_text(reason@),
{
    let mut text = "Error: Could not execute process.\n".to_owned();
    text.append(reason);
    text
}

/// Whether a line asks the interpreter to stop: its first token is `exit`.
pub open spec fn asks_to_exit(tokens: Seq<Seq<char>>) -> bool {
    tokens.len() > 0 && tokens[0] == "exit"@
}

/// Whether a line whose last process could not be run asks the interpreter
/// to stop.
pub fn is_exit_request(tokens: &[String]) -> (exit: bool)
    ensures
        exit == asks_to_exit(words(tokens@)),
{
    tokens.len() > 0 && same_text(tokens[0].as_str(), "exit")
}

/// What a lexing error says.
pub open spec fn lex_error_text(error: LexError) -> Seq<char> {
    match error {
        LexError::UnterminatedQuote { at } => "unterminated quote at character "@ + decimal_text(
            at as nat,
        ),
    }
}

/// What an assembly error says.
pub open spec fn assembly_error_text(error: AssemblyErrorView) -> Seq<char> {
    match error {
        AssemblyErrorView::ExpectedProgram { found } => "expected program before redirector "@
            + found,
        AssemblyErrorView::MissingOperand { operator } => if operator == "|"@ {
            "Usage: <command> | <command>"@
        } else {
            "Usage: <command> [args] "@ + operator + " <file>"@
        },
        AssemblyErrorView::UnknownOperator { operator } => "unknown operator "@ + operator,
    }
}

/// The headline under which a failure of a built-in command is reported.
pub open spec fn failure_headline(builtin: Builtin) -> Seq<char> {
    match builtin {
        Builtin::ListFiles => "Could not list contents"@,
        Builtin::Remove => "Could not remove file/directory"@,
        Builtin::Touch => "Could not create file"@,
        Builtin::ChangeDirectory => "Could not change directories"@,
        Builtin::WorkingDirectory => "Could not print the current directory"@,
        Builtin::History => "Could not display history"@,
        Builtin::Clear => "Could not clear the screen"@,
        Builtin::ShowFile => "Could not display file contents"@,
    }
}

/// What is said when a built-in command fails for `reason`.
pub open spec fn builtin_failure_text(builtin: Builtin, reason: Seq<char>) -> Seq<char> {
    "Error: "@ + failure_headline(builtin) + "\n"@ + reason
}

/// What is said when an effect of assembly cannot be carried out for
/// `reason`: the file, or the program, and the reason.
pub open spec fn resource_error_text(effect: EffectView, reason: Seq<char>) -> Seq<char> {
    match effect {
        EffectView::Open { path, mode, stream } => path + ": "@ + reason,
        EffectView::Spawn { process } => process.program + ": "@ + reason,
    }
}

impl LexError {
    /// What the error says.
    pub fn message(&self) -> (text: String)
        ensures
            text@ == lex_error_text(*self),
    {
        match self {
            LexError::UnterminatedQuote { at } => {
                let mut text = "unterminated quote at character ".to_owned();
                text.append(decimal(*at).as_str());
                text
            },
        }
    }
}

impl AssemblyError {
    /// What the error says.
    pub fn message(&self) -> (text: String)
        ensures
            text@ == assembly_error_text(self@),
    {
        match self {
            AssemblyError::ExpectedProgram { found } => {
                let mut text = "expected program before redirector ".to_owned();
                text.append(found.as_str());
                text
            },
            AssemblyError::MissingOperand { operator } => {
                if same_text(operator.as_str(), "|") {
                    "Usage: <command> | <command>".to_owned()
                } else {
                    let mut text = "Usage: <command> [args] ".to_owned();
                    text.append(operator.as_str());
                    text.append(" <file>");
                    text
                }
            },
            AssemblyError::UnknownOperator { operator } => {
                let mut text = "unknown operator ".to_owned();
                text.append(operator.as_str());
                text
            },
        }
    }
}

/// The headline under which a failure of `builtin` is reported.
fn headline(builtin: Builtin) -> (text: &'static str)
    ensures
        text@ == failure_headline(builtin),
{
    match builtin {
        Builtin::ListFiles => "Could not list contents",
        Builtin::Remove => "Could not remove file/directory",
        Builtin::Touch => "Could not create file",
        Builtin::ChangeDirectory => "Could not change directories",
        Builtin::WorkingDirectory => "Could not print the current directory",
        Builtin::History => "Could not display history",
        Builtin::Clear => "Could not clear the screen",
        Builtin::ShowFile => "Could not display file contents",
    }
}

/// What is said when `builtin` fails for `reason`, be it an error in its
/// arguments or a failure of the work itself.
pub fn builtin_failure(builtin: Builtin, reason: &str) -> (text: String)
    ensures
        text@ == builtin_failure_text(builtin, reason@),
{
    let mut text = "Error: ".to_owned();
    text.append(headline(builtin));
    text.append("\n");
    text.append(reason);
    text
}

impl BuiltinError {
    /// What the error says.
    pub fn message(&self) -> (text: String)
        ensures
            text@ == builtin_failure_text(self.builtin, self.reason@),
    {
        builtin_failure(self.builtin, self.reason.as_str())
    }
}

/// What is said when `effect` cannot be carried out for `reason`, the
/// message of the operating system: it names the file that could not be
/// opened, or the program that could not be started.
pub fn resource_error(effect: &Effect, reason: &str) -> (text: String)
    ensures
        text@ == resource_error_text(effect@, reason@),
{
    let mut text = match effect {
        Effect::Open { path, mode, stream } => path.clone(),
        Effect::Spawn { process } => process.program.clone(),
    };
    text.append(": ");
    text.append(reason);
    text
}

} // verus!
