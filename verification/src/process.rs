//! Process specifications: what is to be run, and where its three standard
//! streams lead.

use crate::text::{copy_of, words};
use vstd::prelude::*;

verus! {

/// How a file is opened for a redirection.
#[derive(Clone, Copy, Debug, PartialEq, Eq, Structural)]
pub enum OpenMode {
    /// Read only; the file has to exist.
    Read,
    /// Write, creating the file if it is absent and emptying it if it is not.
    Truncate,
    /// Write at the end, creating the file if it is absent.
    Append,
}

/// One of the three standard streams of a process.
#[derive(Clone, Copy, Debug, PartialEq, Eq, Structural)]
pub enum Stream {
    Stdin,
    Stdout,
    Stderr,
}

/// Where one standard stream of a process leads.
#[derive(Clone, Debug, PartialEq, Eq)]
pub enum StreamBinding {
    /// The stream of the parent.
    Inherit,
    /// A handle on the file at `path`, opened in `mode`.
    File { path: String, mode: OpenMode },
    /// The end of a pipe: as standard input, what the process upstream
    /// writes; as standard output, what the process downstream reads.
    Pipe,
}

/// A stream binding over characters.
pub enum BindingView {
    Inherit,
    File { path: Seq<char>, mode: OpenMode },
    Pipe,
}

impl View for StreamBinding {
    type V = BindingView;

    open spec fn view(&self) -> BindingView {
        match *self {
            StreamBinding::Inherit => BindingView::Inherit,
            StreamBinding::File { path, mode } => BindingView::File { path: path@, mode },
            StreamBinding::Pipe => BindingView::Pipe,
        }
    }
}

/// A process that is ready to be started: a program, its arguments in order,
/// and the bindings of its three standard streams.
#[derive(Clone, Debug, PartialEq, Eq)]
pub struct ProcessSpec {
    pub program: String,
    pub args: Vec<String>,
    pub stdin: StreamBinding,
    pub stdout: StreamBinding,
    pub stderr: StreamBinding,
}

/// A process specification over characters.
pub struct ProcessView {
    pub program: Seq<char>,
    pub args: Seq<Seq<char>>,
    pub stdin: BindingView,
    pub stdout: BindingView,
    pub stderr: BindingView,
}

impl View for ProcessSpec {
    type V = ProcessView;

    open spec fn view(&self) -> ProcessView {
        ProcessView {
            program: self.program@,
            args: words(self.args@),
            stdin: self.stdin@,
            stdout: self.stdout@,
            stderr: self.stderr@,
        }
    }
}

/// The process that runs `program` on `args`, with every stream inherited.
pub open spec fn plain_process(program: Seq<char>, args: Seq<Seq<char>>) -> ProcessView {
    ProcessView {
        program,
        args,
        stdin: BindingView::Inherit,
        stdout: BindingView::Inherit,
        stderr: BindingView::Inherit,
    }
}

impl ProcessSpec {
    /// The process that runs `program` on `args`, with every stream inherited.
    pub fn new(program: &str, args: &[String]) -> (process: ProcessSpec)
        ensures
            process@ == plain_process(program@, words(args@)),
    {
        ProcessSpec {
            program: program.to_owned(),
            args: copy_of(args),
            stdin: StreamBinding::Inherit,
            stdout: StreamBinding::Inherit,
            stderr: StreamBinding::Inherit,
        }
    }
}

} // verus!
