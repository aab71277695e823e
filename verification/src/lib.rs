//! The pipeline engine of a small interactive command interpreter.
//!
//! A raw input line is split into tokens by the lexer, the classifier tells
//! operator tokens from ordinary text, and the assembler folds the tokens into
//! the process that is to be run last, together with the side effects (file
//! opens, early spawns) that wiring the chain requires.  Carrying those effects
//! out against the operating system is left to the caller, and so is the work
//! of the built-in commands, of which this crate checks the arguments.

pub mod assembler;
pub mod assembler_laws;
pub mod builtin;
pub mod config;
pub mod history;
pub mod listing;
pub mod lexer;
pub mod lexer_laws;
pub mod operator;
pub mod process;
pub mod report;
pub mod shell;
pub mod text;

pub use assembler::{parse_line, redirect, AssemblyError, Effect};
pub use builtin::{builtin, Builtin, BuiltinError, BuiltinRequest};
pub use config::Config;
pub use history::History;
pub use lexer::{parse, ArgParser, LexError};
pub use operator::{is_operator, operator_kind, OperatorKind};
pub use process::{OpenMode, ProcessSpec, Stream, StreamBinding};
pub use shell::{LinePlan, Session, Verdict};
