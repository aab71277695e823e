//! The built-in commands: which first token names one, and what each of them
//! is asked to do once its arguments have been checked.  Doing it is left to
//! the caller.

use crate::history::{full_listing, recent_listing, History};
use crate::text::{copy_of, number_of, parse_number, same_text, words};
use vstd::prelude::*;
use vstd::slice::slice_subrange;

verus! {

/// The built-in commands.
#[derive(Clone, Copy, Debug, PartialEq, Eq, Structural)]
pub enum Builtin {
    /// `ls`
    ListFiles,
    /// `rm`
    Remove,
    /// `touch`
    Touch,
    /// `cd`
    ChangeDirectory,
    /// `pwd`
    WorkingDirectory,
    /// `history`
    History,
    /// `clear`
    Clear,
    /// `cat`
    ShowFile,
}

/// The built-in command that `name` names, if it names one.
pub open spec fn builtin_named(name: Seq<char>) -> Option<Builtin> {
    if name == "ls"@ {
        Some(Builtin::ListFiles)
    } else if name == "rm"@ {
        Some(Builtin::Remove)
    } else if name == "touch"@ {
        Some(Builtin::Touch)
    } else if name == "cd"@ {
        Some(Builtin::ChangeDirectory)
    } else if name == "pwd"@ {
        Some(Builtin::WorkingDirectory)
    } else if name == "history"@ {
        Some(Builtin::History)
    } else if name == "clear"@ {
        Some(Builtin::Clear)
    } else if name == "cat"@ {
        Some(Builtin::ShowFile)
    } else {
        None
    }
}

/// The built-in command that `name` names, if it names one.
pub fn builtin_kind(name: &str) -> (kind: Option<Builtin>)
    ensures
        kind == builtin_named(name@),
{
    if same_text(name, "ls") {
        Some(Builtin::ListFiles)
    } else if same_text(name, "rm") {
        Some(Builtin::Remove)
    } else if same_text(name, "touch") {
        Some(Builtin::Touch)
    } else if same_text(name, "cd") {
        Some(Builtin::ChangeDirectory)
    } else if same_text(name, "pwd") {
        Some(Builtin::WorkingDirectory)
    } else if same_text(name, "history") {
        Some(Builtin::History)
    } else if same_text(name, "clear") {
        Some(Builtin::Clear)
    } else if same_text(name, "cat") {
        Some(Builtin::ShowFile)
    } else {
        None
    }
}

/// What a built-in command is asked to do.
#[derive(Clone, Debug, PartialEq, Eq)]
pub enum BuiltinRequest {
    /// List the contents of each of `directories`, or of the current
    /// directory where none is given.
    ListFiles { directories: Vec<String> },
    /// Remove each of `files`.
    RemoveFiles { files: Vec<String> },
    /// Remove each of `directories` with all that it holds.
    RemoveDirectories { directories: Vec<String> },
    /// Create each of `files` that is absent, and renew the modification time
    /// of each that exists.
    Touch { files: Vec<String> },
    /// Make `directory` the current directory.
    ChangeDirectory { directory: String },
    /// Print the current directory.
    PrintWorkingDirectory,
    /// Print `lines`, a listing of the history.
    ShowHistory { lines: Vec<String> },
    /// Clear the screen.
    ClearScreen,
    /// Print the lines of `file`.
    ShowFile { file: String },
}

/// A request over characters.
pub enum RequestView {
    ListFiles { directories: Seq<Seq<char>> },
    RemoveFiles { files: Seq<Seq<char>> },
    RemoveDirectories { directories: Seq<Seq<char>> },
    Touch { files: Seq<Seq<char>> },
    ChangeDirectory { directory: Seq<char> },
    PrintWorkingDirectory,
    ShowHistory { lines: Seq<Seq<char>> },
    ClearScreen,
    ShowFile { file: Seq<char> },
}

impl View for BuiltinRequest {
    type V = RequestView;

    open spec fn view(&self) -> RequestView {
        match *self {
            BuiltinRequest::ListFiles { directories } => RequestView::ListFiles {
                directories: words(directories@),
            },
            BuiltinRequest::RemoveFiles { files } => RequestView::RemoveFiles {
                files: words(files@),
            },
            BuiltinRequest::RemoveDirectories { directories } => RequestView::RemoveDirectories {
                directories: words(directories@),
            },
            BuiltinRequest::Touch { files } => RequestView::Touch { files: words(files@) },
            BuiltinRequest::ChangeDirectory { directory } => RequestView::ChangeDirectory {
                directory: directory@,
            },
            BuiltinRequest::PrintWorkingDirectory => RequestView::PrintWorkingDirectory,
            BuiltinRequest::ShowHistory { lines } => RequestView::ShowHistory {
                lines: words(lines@),
            },
            BuiltinRequest::ClearScreen => RequestView::ClearScreen,
            BuiltinRequest::ShowFile { file } => RequestView::ShowFile { file: file@ },
        }
    }
}

/// The command that a request is addressed to.
pub open spec fn request_kind(request: RequestView) -> Builtin {
    match request {
        RequestView::ListFiles { .. } => Builtin::ListFiles,
        RequestView::RemoveFiles { .. } => Builtin::Remove,
        RequestView::RemoveDirectories { .. } => Builtin::Remove,
        RequestView::Touch { .. } => Builtin::Touch,
        RequestView::ChangeDirectory { .. } => Builtin::ChangeDirectory,
        RequestView::PrintWorkingDirectory => Builtin::WorkingDirectory,
        RequestView::ShowHistory { .. } => Builtin::History,
        RequestView::ClearScreen => Builtin::Clear,
        RequestView::ShowFile { .. } => Builtin::ShowFile,
    }
}

impl BuiltinRequest {
    /// The command that the request is addressed to.
    pub fn kind(&self) -> (kind: Builtin)
        ensures
            kind == request_kind(self@),
    {
        match self {
            BuiltinRequest::ListFiles { .. } => Builtin::ListFiles,
            BuiltinRequest::RemoveFiles { .. } => Builtin::Remove,
            BuiltinRequest::RemoveDirectories { .. } => Builtin::Remove,
            BuiltinRequest::Touch { .. } => Builtin::Touch,
            BuiltinRequest::ChangeDirectory { .. } => Builtin::ChangeDirectory,
            BuiltinRequest::PrintWorkingDirectory => Builtin::WorkingDirectory,
            BuiltinRequest::ShowHistory { .. } => Builtin::History,
            BuiltinRequest::ClearScreen => Builtin::Clear,
            BuiltinRequest::ShowFile { .. } => Builtin::ShowFile,
        }
    }
}

/// A built-in command that was called with arguments it cannot take.
#[derive(Clone, Debug, PartialEq, Eq)]
pub struct BuiltinError {
    /// The command that was called.
    pub builtin: Builtin,
    /// What is wrong, or how the command is to be called.
    pub reason: String,
}

/// A built-in error over characters.
pub struct BuiltinErrorView {
    pub builtin: Builtin,
    pub reason: Seq<char>,
}

impl View for BuiltinError {
    type V = BuiltinErrorView;

    open spec fn view(&self) -> BuiltinErrorView {
        BuiltinErrorView { builtin: self.builtin, reason: self.reason@ }
    }
}

/// `ls` takes any arguments: each is a directory to list.
pub open spec fn list_files_request(args: Seq<Seq<char>>) -> RequestView {
    RequestView::ListFiles {
        directories: if args.len() > 0 {
            args.skip(1)
        } else {
            Seq::empty()
        },
    }
}

/// `rm` needs an argument.  After `-r` the arguments are directories,
/// otherwise all of them are files.
pub open spec fn file_remove_request(args: Seq<Seq<char>>) -> Result<RequestView, BuiltinErrorView> {
    if args.len() < 2 {
        Err(
            BuiltinErrorView {
                builtin: Builtin::Remove,
                reason: "usage: rm [-r] <file1 file2 ...>"@,
            },
        )
    } else if args[1] == "-r"@ {
        Ok(RequestView::RemoveDirectories { directories: args.skip(2) })
    } else {
        Ok(RequestView::RemoveFiles { files: args.skip(1) })
    }
}

/// `touch` needs an argument; each is a file.
pub open spec fn touch_request(args: Seq<Seq<char>>) -> Result<RequestView, BuiltinErrorView> {
    if args.len() <= 1 {
        Err(
            BuiltinErrorView {
                builtin: Builtin::Touch,
                reason: "usage: touch <file1 file2 ...>"@,
            },
        )
    } else {
        Ok(RequestView::Touch { files: args.skip(1) })
    }
}

/// `cd` needs an argument; the first is the directory, others are ignored.
pub open spec fn change_dir_request(args: Seq<Seq<char>>) -> Result<RequestView, BuiltinErrorView> {
    if args.len() <= 1 {
        Err(
            BuiltinErrorView {
                builtin: Builtin::ChangeDirectory,
                reason: "Usage: cd <directory path>"@,
            },
        )
    } else {
        Ok(RequestView::ChangeDirectory { directory: args[1] })
    }
}

/// `history` alone lists every command; with one argument, a number that a
/// `usize` holds, it lists that many of the newest.
pub open spec fn history_request(args: Seq<Seq<char>>, history: Seq<Seq<Seq<char>>>) -> Result<
    RequestView,
    BuiltinErrorView,
> {
    if args.len() == 1 {
        Ok(RequestView::ShowHistory { lines: full_listing(history) })
    } else if args.len() == 2 {
        match number_of(args[1]) {
            Some(num) if num <= usize::MAX => Ok(
                RequestView::ShowHistory { lines: recent_listing(history, num) },
            ),
            _ => Err(
                BuiltinErrorView {
                    builtin: Builtin::History,
                    reason: "Non-number argument given"@,
                },
            ),
        }
    } else {
        Err(
            BuiltinErrorView {
                builtin: Builtin::History,
                reason: "Usage: history <num of previous commands>"@,
            },
        )
    }
}

/// `clear` takes no argument.
pub open spec fn clear_request(args: Seq<Seq<char>>) -> Result<RequestView, BuiltinErrorView> {
    if args.len() > 1 {
        Err(BuiltinErrorView { builtin: Builtin::Clear, reason: "Usage: clear"@ })
    } else {
        Ok(RequestView::ClearScreen)
    }
}

/// `cat` takes exactly one argument, the file.
pub open spec fn display_file_request(args: Seq<Seq<char>>) -> Result<RequestView, BuiltinErrorView> {
    if args.len() != 2 {
        Err(
            BuiltinErrorView {
                builtin: Builtin::ShowFile,
                reason: "Usage: cat <path to file>"@,
            },
        )
    } else {
        Ok(RequestView::ShowFile { file: args[1] })
    }
}

/// What the tokens of a line ask of the built-in commands: nothing, where
/// the first token names none of them (an empty line among them); otherwise
/// the request of the command named, or the error in its arguments.
pub open spec fn request_of(commands: Seq<Seq<char>>, history: Seq<Seq<Seq<char>>>) -> Result<
    Option<RequestView>,
    BuiltinErrorView,
> {
    if commands.len() == 0 {
        Ok(None)
    } else {
        match builtin_named(commands[0]) {
            None => Ok(None),
            Some(kind) => {
                let request = match kind {
                    Builtin::ListFiles => Ok(list_files_request(commands)),
                    Builtin::Remove => file_remove_request(commands),
                    Builtin::Touch => touch_request(commands),
                    Builtin::ChangeDirectory => change_dir_request(commands),
                    Builtin::WorkingDirectory => Ok(RequestView::PrintWorkingDirectory),
                    Builtin::History => history_request(commands, history),
                    Builtin::Clear => clear_request(commands),
                    Builtin::ShowFile => display_file_request(commands),
                };
                match request {
                    Ok(r) => Ok(Some(r)),
                    Err(e) => Err(e),
                }
            },
        }
    }
}

/// What a result of the request functions says, over characters.
pub open spec fn request_view(result: Result<BuiltinRequest, BuiltinError>) -> Result<
    RequestView,
    BuiltinErrorView,
> {
    match result {
        Ok(request) => Ok(request@),
        Err(error) => Err(error@),
    }
}

/// What a result of the dispatch says, over characters.
pub open spec fn dispatch_view(result: Result<Option<BuiltinRequest>, BuiltinError>) -> Result<
    Option<RequestView>,
    BuiltinErrorView,
> {
    match result {
        Ok(Some(request)) => Ok(Some(request@)),
        Ok(None) => Ok(None),
        Err(error) => Err(error@),
    }
}

/// The arguments from index `from` on, copied.
fn arguments_from(args: &[String], from: usize) -> (rest: Vec<String>)
    requires
        from <= args@.len(),
    ensures
        words(rest@) == words(args@).skip(from as int),
{
    let rest = copy_of(slice_subrange(args, from, args.len()));
    assert(words(args@.subrange(from as int, args@.len() as int)) =~= words(args@).skip(
        from as int,
    ));
    rest
}

/// The request of `ls`.
pub fn list_files_builtin(args: &[String]) -> (request: BuiltinRequest)
    ensures
        request@ == list_files_request(words(args@)),
{
    if args.len() == 0 {
        assert(words(Seq::<String>::empty()) =~= Seq::<Seq<char>>::empty());
        BuiltinRequest::ListFiles { directories: Vec::new() }
    } else {
        BuiltinRequest::ListFiles { directories: arguments_from(args, 1) }
    }
}

/// The request of `rm`, or the error in its arguments.
pub fn file_remove_builtin(args: &[String]) -> (result: Result<BuiltinRequest, BuiltinError>)
    ensures
        request_view(result) == file_remove_request(words(args@)),
{
    if args.len() < 2 {
        Err(
            BuiltinError {
                builtin: Builtin::Remove,
                reason: "usage: rm [-r] <file1 file2 ...>".to_owned(),
            },
        )
    } else if same_text(args[1].as_str(), "-r") {
        Ok(BuiltinRequest::RemoveDirectories { directories: arguments_from(args, 2) })
    } else {
        Ok(BuiltinRequest::RemoveFiles { files: arguments_from(args, 1) })
    }
}

/// The request of `touch`, or the error in its arguments.
pub fn touch_builtin(args: &[String]) -> (result: Result<BuiltinRequest, BuiltinError>)
    ensures
        request_view(result) == touch_request(words(args@)),
{
    if args.len() <= 1 {
        Err(
            BuiltinError {
                builtin: Builtin::Touch,
                reason: "usage: touch <file1 file2 ...>".to_owned(),
            },
        )
    } else {
        Ok(BuiltinRequest::Touch { files: arguments_from(args, 1) })
    }
}

/// The request of `cd`, or the error in its arguments.
pub fn change_dir_builtin(args: &[String]) -> (result: Result<BuiltinRequest, BuiltinError>)
    ensures
        request_view(result) == change_dir_request(words(args@)),
{
    if args.len() <= 1 {
        Err(
            BuiltinError {
                builtin: Builtin::ChangeDirectory,
                reason: "Usage: cd <directory path>".to_owned(),
            },
        )
    } else {
        Ok(BuiltinRequest::ChangeDirectory { directory: args[1].clone() })
    }
}

/// The request of `pwd`.
pub fn pwd_builtin() -> (request: BuiltinRequest)
    ensures
        request@ == RequestView::PrintWorkingDirectory,
{
    BuiltinRequest::PrintWorkingDirectory
}

/// The request of `history`, or the error in its arguments.
pub fn history_builtin(args: &[String], history: &History) -> (result: Result<
    BuiltinRequest,
    BuiltinError,
>)
    ensures
        request_view(result) == history_request(words(args@), history@),
{
    if args.len() == 1 {
        Ok(BuiltinRequest::ShowHistory { lines: history.display_full_history() })
    } else if args.len() == 2 {
        match parse_number(args[1].as_str()) {
            Some(num) => Ok(
                BuiltinRequest::ShowHistory { lines: history.display_num_commands(num) },
            ),
            None => Err(
                BuiltinError {
                    builtin: Builtin::History,
                    reason: "Non-number argument given".to_owned(),
                },
            ),
        }
    } else {
        Err(
            BuiltinError {
                builtin: Builtin::History,
                reason: "Usage: history <num of previous commands>".to_owned(),
            },
        )
    }
}

/// The request of `clear`, or the error in its arguments.
pub fn clear_builtin(args: &[String]) -> (result: Result<BuiltinRequest, BuiltinError>)
    ensures
        request_view(result) == clear_request(words(args@)),
{
    if args.len() > 1 {
        Err(BuiltinError { builtin: Builtin::Clear, reason: "Usage: clear".to_owned() })
    } else {
        Ok(BuiltinRequest::ClearScreen)
    }
}

/// The request of `cat`, or the error in its arguments.
pub fn display_file_contents(args: &[String]) -> (result: Result<BuiltinRequest, BuiltinError>)
    ensures
        request_view(result) == display_file_request(words(args@)),
{
    if args.len() != 2 {
        Err(
            BuiltinError {
                builtin: Builtin::ShowFile,
                reason: "Usage: cat <path to file>".to_owned(),
            },
        )
    } else {
        Ok(BuiltinRequest::ShowFile { file: args[1].clone() })
    }
}

/// Checks the first token of a line against the names of the built-in
/// commands.  Where it names one, the result is what that command is asked
/// to do, or the error in its arguments; where it names none, or the line is
/// empty, the result is `None` and the line is left to the pipeline engine.
pub fn builtin(commands: &[String], history: &History) -> (result: Result<
    Option<BuiltinRequest>,
    BuiltinError,
>)
    ensures
        dispatch_view(result) == request_of(words(commands@), history@),
{
    if commands.len() == 0 {
        return Ok(None);
    }
    let request = match builtin_kind(commands[0].as_str()) {
        None => {
            return Ok(None);
        },
        Some(Builtin::ListFiles) => Ok(list_files_builtin(commands)),
        Some(Builtin::Remove) => file_remove_builtin(commands),
        Some(Builtin::Touch) => touch_builtin(commands),
        Some(Builtin::ChangeDirectory) => change_dir_builtin(commands),
        Some(Builtin::WorkingDirectory) => Ok(pwd_builtin()),
        Some(Builtin::History) => history_builtin(commands, history),
        Some(Builtin::Clear) => clear_builtin(commands),
        Some(Builtin::ShowFile) => display_file_contents(commands),
    };
    match request {
        Ok(r) => Ok(Some(r)),
        Err(e) => Err(e),
    }
}

} // verus!
