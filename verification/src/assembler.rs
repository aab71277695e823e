//! The pipeline assembler: folds the tokens of a line, from left to right and
//! without grouping, into the process that is to be run last, and records on
//! the way the side effects that wiring the chain requires.
//!
//! Assembly itself touches nothing outside of its arguments.  Each file that a
//! redirection names and each process that a pipe needs upstream is written to
//! a log of effects, in the order in which they are due; whoever carries the
//! log out opens the files and starts the upstream processes in that order.

use crate::operator::{is_operator, is_operator_text, operator_kind, operator_kind_of, OperatorKind};
use crate::process::{
    plain_process, BindingView, OpenMode, ProcessSpec, ProcessView, Stream, StreamBinding,
};
use crate::text::words;
use vstd::prelude::*;
use vstd::slice::slice_subrange;

verus! {

/// A side effect that assembly asks for.
#[derive(Clone, Debug, PartialEq, Eq)]
pub enum Effect {
    /// Open the file at `path` in `mode`; the handle is `stream` of the
    /// process that is being assembled.
    Open { path: String, mode: OpenMode, stream: Stream },
    /// Start `process` with its standard output captured in a pipe; the
    /// other end of the pipe is the standard input of the process that is
    /// assembled next.
    Spawn { process: ProcessSpec },
}

/// An effect over characters.
pub enum EffectView {
    Open { path: Seq<char>, mode: OpenMode, stream: Stream },
    Spawn { process: ProcessView },
}

impl View for Effect {
    type V = EffectView;

    open spec fn view(&self) -> EffectView {
        match *self {
            Effect::Open { path, mode, stream } => EffectView::Open { path: path@, mode, stream },
            Effect::Spawn { process } => EffectView::Spawn { process: process@ },
        }
    }
}

/// The view of every effect of a log, in order.
pub open spec fn effect_views(log: Seq<Effect>) -> Seq<EffectView> {
    Seq::new(log.len(), |i: int| log[i]@)
}

/// Why a line cannot be assembled.
#[derive(Clone, Debug, PartialEq, Eq)]
pub enum AssemblyError {
    /// An operator stands where no process precedes it; `found` is the
    /// token met where a program was expected.
    ExpectedProgram { found: String },
    /// `operator` is not followed by the file name or program that it needs.
    MissingOperand { operator: String },
    /// `operator` has the shape of an operator and no meaning.
    UnknownOperator { operator: String },
}

/// An assembly error over characters.
pub enum AssemblyErrorView {
    ExpectedProgram { found: Seq<char> },
    MissingOperand { operator: Seq<char> },
    UnknownOperator { operator: Seq<char> },
}

impl View for AssemblyError {
    type V = AssemblyErrorView;

    open spec fn view(&self) -> AssemblyErrorView {
        match *self {
            AssemblyError::ExpectedProgram { found } => AssemblyErrorView::ExpectedProgram {
                found: found@,
            },
            AssemblyError::MissingOperand { operator } => AssemblyErrorView::MissingOperand {
                operator: operator@,
            },
            AssemblyError::UnknownOperator { operator } => AssemblyErrorView::UnknownOperator {
                operator: operator@,
            },
        }
    }
}

/// What an assembly step or a whole assembly comes to, over characters: the
/// effects it asks for, in order, and then the process in hand or the error.
pub struct AssemblyView {
    pub effects: Seq<EffectView>,
    pub outcome: Result<Option<ProcessView>, AssemblyErrorView>,
}

/// What the result of an assembly function says, over characters.
pub open spec fn outcome_view(result: Result<Option<ProcessSpec>, AssemblyError>) -> Result<
    Option<ProcessView>,
    AssemblyErrorView,
> {
    match result {
        Ok(Some(process)) => Ok(Some(process@)),
        Ok(None) => Ok(None),
        Err(error) => Err(error@),
    }
}

/// An assembly that fails at once.
pub open spec fn refused(error: AssemblyErrorView) -> AssemblyView {
    AssemblyView { effects: Seq::empty(), outcome: Err(error) }
}

/// `process` with `binding` as its `stream`.
pub open spec fn rebound(process: ProcessView, stream: Stream, binding: BindingView) -> ProcessView {
    match stream {
        Stream::Stdin => ProcessView { stdin: binding, ..process },
        Stream::Stdout => ProcessView { stdout: binding, ..process },
        Stream::Stderr => ProcessView { stderr: binding, ..process },
    }
}

/// The step that binds `stream` of `process` to the file at `path`.
pub open spec fn file_step(process: ProcessView, stream: Stream, path: Seq<char>, mode: OpenMode) -> AssemblyView {
    AssemblyView {
        effects: seq![EffectView::Open { path, mode, stream }],
        outcome: Ok(Some(rebound(process, stream, BindingView::File { path, mode }))),
    }
}

/// What an operator of `kind` does to `process`, given the segment of plain
/// tokens that follows the operator; the segment is not empty.
pub open spec fn operator_step(kind: OperatorKind, segment: Seq<Seq<char>>, process: ProcessView) -> AssemblyView {
    let path = segment[0];
    match kind {
        OperatorKind::Pipe => AssemblyView {
            effects: seq![
                EffectView::Spawn { process: rebound(process, Stream::Stdout, BindingView::Pipe) },
            ],
            outcome: Ok(
                Some(
                    rebound(
                        plain_process(segment[0], segment.skip(1)),
                        Stream::Stdin,
                        BindingView::Pipe,
                    ),
                ),
            ),
        },
        OperatorKind::StdinFrom => file_step(process, Stream::Stdin, path, OpenMode::Read),
        OperatorKind::StdoutTruncate => file_step(process, Stream::Stdout, path, OpenMode::Truncate),
        OperatorKind::StdoutAppend => file_step(process, Stream::Stdout, path, OpenMode::Append),
        OperatorKind::Stderr => file_step(process, Stream::Stderr, path, OpenMode::Truncate),
        OperatorKind::StdoutAndStderr => {
            let binding = BindingView::File { path, mode: OpenMode::Truncate };
            AssemblyView {
                effects: seq![
                    EffectView::Open { path, mode: OpenMode::Truncate, stream: Stream::Stdout },
                    EffectView::Open { path, mode: OpenMode::Truncate, stream: Stream::Stderr },
                ],
                outcome: Ok(
                    Some(rebound(rebound(process, Stream::Stdout, binding), Stream::Stderr, binding)),
                ),
            }
        },
    }
}

/// One step of assembly: what `redirector`, followed by the plain tokens of
/// `segment`, makes of the process in hand.
///
/// A redirector that is no operator (the empty text stands for "none") lets
/// the segment name a new process, which takes the place of the one in hand.
/// An operator needs a process in hand and at least one token after it; of a
/// file redirection only the first token of the segment is used.
pub open spec fn step_of(
    redirector: Seq<char>,
    segment: Seq<Seq<char>>,
    process: Option<ProcessView>,
) -> AssemblyView {
    if !is_operator_text(redirector) {
        if segment.len() == 0 {
            refused(AssemblyErrorView::ExpectedProgram { found: redirector })
        } else {
            AssemblyView {
                effects: Seq::empty(),
                outcome: Ok(Some(plain_process(segment[0], segment.skip(1)))),
            }
        }
    } else if operator_kind_of(redirector) is None {
        refused(AssemblyErrorView::UnknownOperator { operator: redirector })
    } else if process is None {
        refused(AssemblyErrorView::ExpectedProgram { found: redirector })
    } else if segment.len() == 0 {
        refused(AssemblyErrorView::MissingOperand { operator: redirector })
    } else {
        operator_step(operator_kind_of(redirector)->Some_0, segment, process->Some_0)
    }
}

/// How many tokens, starting at index `from`, are plain text: the length of
/// the operand segment that starts there.
pub open spec fn plain_run(tokens: Seq<Seq<char>>, from: int) -> nat
    decreases tokens.len() - from,
{
    if 0 <= from < tokens.len() && !is_operator_text(tokens[from]) {
        1 + plain_run(tokens, from + 1)
    } else {
        0
    }
}

/// An operand segment that starts inside the tokens ends inside them or at
/// their end.
pub proof fn segment_stays_inside(tokens: Seq<Seq<char>>, from: int)
    requires
        0 <= from <= tokens.len(),
    ensures
        from + plain_run(tokens, from) <= tokens.len(),
    decreases tokens.len() - from,
{
    if from < tokens.len() {
        segment_stays_inside(tokens, from + 1);
    }
}

/// `rest`, with `effects` due before its own.
pub open spec fn followed_by(effects: Seq<EffectView>, rest: AssemblyView) -> AssemblyView {
    AssemblyView { effects: effects + rest.effects, outcome: rest.outcome }
}

/// The assembly of the tokens from index `from` on, with `process` in hand.
///
/// Without tokens left, the process in hand is the result.  Otherwise one
/// step is taken: the leading operator, if the first token is one, and the
/// operand segment up to the next operator are folded into the process in
/// hand, and assembly goes on behind the segment.  An operator with no process
/// in hand, and any step that fails, ends the assembly with that error.
pub open spec fn assemble_from(
    tokens: Seq<Seq<char>>,
    from: int,
    process: Option<ProcessView>,
) -> AssemblyView
    decreases tokens.len() - from,
    via assemble_from_terminates
{
    if from < 0 || from >= tokens.len() {
        AssemblyView { effects: Seq::empty(), outcome: Ok(process) }
    } else {
        let leads = is_operator_text(tokens[from]);
        if leads && process is None {
            refused(AssemblyErrorView::ExpectedProgram { found: tokens[from] })
        } else {
            let redirector = if leads {
                tokens[from]
            } else {
                Seq::empty()
            };
            let start = if leads {
                from + 1
            } else {
                from
            };
            let end = from + 1 + plain_run(tokens, from + 1);
            let step = step_of(redirector, tokens.subrange(start, end), process);
            match step.outcome {
                Err(_) => step,
                Ok(next) => followed_by(step.effects, assemble_from(tokens, end, next)),
            }
        }
    }
}

#[via_fn]
proof fn assemble_from_terminates(
    tokens: Seq<Seq<char>>,
    from: int,
    process: Option<ProcessView>,
) {
    if 0 <= from < tokens.len() {
        segment_stays_inside(tokens, from + 1);
    }
}

/// The assembly of a whole token sequence, with `process` in hand at the start.
pub open spec fn assembly_of(tokens: Seq<Seq<char>>, process: Option<ProcessView>) -> AssemblyView {
    assemble_from(tokens, 0, process)
}

/// The view of the process in hand, if there is one.
pub open spec fn process_view(process: Option<ProcessSpec>) -> Option<ProcessView> {
    match process {
        Some(p) => Some(p@),
        None => None,
    }
}

/// An assembly function has done what `asked` says: the log holds what it
/// held before and then the effects asked for, and the outcome is the one asked
/// for.
pub open spec fn carried_out(
    asked: AssemblyView,
    log_before: Seq<Effect>,
    log_after: Seq<Effect>,
    outcome: Result<Option<ProcessView>, AssemblyErrorView>,
) -> bool {
    &&& effect_views(log_after) == effect_views(log_before) + asked.effects
    &&& outcome == asked.outcome
}

/// Binds `stream` of `process` to the file at `path` and logs the opening.
fn bind_file(
    process: ProcessSpec,
    stream: Stream,
    path: &String,
    mode: OpenMode,
    effects: &mut Vec<Effect>,
) -> (bound: ProcessSpec)
    ensures
        carried_out(
            file_step(process@, stream, path@, mode),
            old(effects)@,
            final(effects)@,
            Ok(Some(bound@)),
        ),
{
    let mut bound = process;
    let binding = StreamBinding::File { path: path.clone(), mode };
    match stream {
        Stream::Stdin => {
            bound.stdin = binding;
        },
        Stream::Stdout => {
            bound.stdout = binding;
        },
        Stream::Stderr => {
            bound.stderr = binding;
        },
    }
    effects.push(Effect::Open { path: path.clone(), mode, stream });
    assert(effect_views(effects@) =~= effect_views(old(effects)@) + seq![
        EffectView::Open { path: path@, mode, stream },
    ]);
    bound
}

/// `>>`: standard output is appended to the file named first in `tokens`.
fn handle_append_redirect(
    tokens: &[String],
    process: ProcessSpec,
    effects: &mut Vec<Effect>,
) -> (next: ProcessSpec)
    requires
        tokens@.len() > 0,
    ensures
        carried_out(
            operator_step(OperatorKind::StdoutAppend, words(tokens@), process@),
            old(effects)@,
            final(effects)@,
            Ok(Some(next@)),
        ),
{
    bind_file(process, Stream::Stdout, &tokens[0], OpenMode::Append, effects)
}

/// `2>`: standard error is written to the file named first in `tokens`,
/// which is created or emptied.  Nothing is run here: the process is started
/// once, when the line is executed.
fn handle_stderr_redirect(
    tokens: &[String],
    process: ProcessSpec,
    effects: &mut Vec<Effect>,
) -> (next: ProcessSpec)
    requires
        tokens@.len() > 0,
    ensures
        carried_out(
            operator_step(OperatorKind::Stderr, words(tokens@), process@),
            old(effects)@,
            final(effects)@,
            Ok(Some(next@)),
        ),
{
    bind_file(process, Stream::Stderr, &tokens[0], OpenMode::Truncate, effects)
}

/// `&>`: standard output and standard error are both written to the file
/// named first in `tokens`, through two handles that are opened one after the
/// other.
fn handle_stdout_stderr_redirect(
    tokens: &[String],
    process: ProcessSpec,
    effects: &mut Vec<Effect>,
) -> (next: ProcessSpec)
    requires
        tokens@.len() > 0,
    ensures
        carried_out(
            operator_step(OperatorKind::StdoutAndStderr, words(tokens@), process@),
            old(effects)@,
            final(effects)@,
            Ok(Some(next@)),
        ),
{
    let with_stdout = bind_file(process, Stream::Stdout, &tokens[0], OpenMode::Truncate, effects);
    let ghost between = effect_views(effects@);
    let next = bind_file(with_stdout, Stream::Stderr, &tokens[0], OpenMode::Truncate, effects);
    assert(effect_views(effects@) =~= effect_views(old(effects)@) + operator_step(
        OperatorKind::StdoutAndStderr,
        words(tokens@),
        process@,
    ).effects) by {
        assert(effect_views(effects@) == between + seq![
            EffectView::Open {
                path: tokens@[0]@,
                mode: OpenMode::Truncate,
                stream: Stream::Stderr,
            },
        ]);
    }
    next
}

/// `>` and `1>`: standard output is written to the file named first in
/// `tokens`, which is created or emptied.
fn handle_stdout_redirect(
    tokens: &[String],
    process: ProcessSpec,
    effects: &mut Vec<Effect>,
) -> (next: ProcessSpec)
    requires
        tokens@.len() > 0,
    ensures
        carried_out(
            operator_step(OperatorKind::StdoutTruncate, words(tokens@), process@),
            old(effects)@,
            final(effects)@,
            Ok(Some(next@)),
        ),
{
    bind_file(process, Stream::Stdout, &tokens[0], OpenMode::Truncate, effects)
}

/// `<`: standard input is read from the file named first in `tokens`.
fn handle_stdin_redirect(
    tokens: &[String],
    process: ProcessSpec,
    effects: &mut Vec<Effect>,
) -> (next: ProcessSpec)
    requires
        tokens@.len() > 0,
    ensures
        carried_out(
            operator_step(OperatorKind::StdinFrom, words(tokens@), process@),
            old(effects)@,
            final(effects)@,
            Ok(Some(next@)),
        ),
{
    bind_file(process, Stream::Stdin, &tokens[0], OpenMode::Read, effects)
}

/// `|`: the process in hand is to be started now, with its standard output
/// captured, and `commands` names the process that reads what it writes.
fn handle_pipe(commands: &[String], process: ProcessSpec, effects: &mut Vec<Effect>) -> (next:
    ProcessSpec)
    requires
        commands@.len() > 0,
    ensures
        carried_out(
            operator_step(OperatorKind::Pipe, words(commands@), process@),
            old(effects)@,
            final(effects)@,
            Ok(Some(next@)),
        ),
{
    let mut upstream = process;
    upstream.stdout = StreamBinding::Pipe;
    let mut next = ProcessSpec::new(
        commands[0].as_str(),
        slice_subrange(commands, 1, commands.len()),
    );
    next.stdin = StreamBinding::Pipe;
    assert(words(commands@.subrange(1, commands@.len() as int)) =~= words(commands@).skip(1));
    let ghost spawned = upstream@;
    effects.push(Effect::Spawn { process: upstream });
    assert(effect_views(effects@) =~= effect_views(old(effects)@) + seq![
        EffectView::Spawn { process: spawned },
    ]);
    next
}

/// Takes one step of assembly: folds `redirector` and the plain tokens of
/// `command` that follow it into `process`, and appends to `effects` what the
/// step asks for.
///
/// With a `redirector` that is no operator, such as the empty text, `command`
/// names a new process.  With an operator, `command` gives the file name (its
/// first token; further ones are ignored) or, for a pipe, the program and
/// arguments of the next process.  The step fails, and logs nothing, where an
/// operator has no meaning, no process in hand or no token after it, and
/// where a new process is asked for without a program.
pub fn redirect(
    redirector: &str,
    command: &[String],
    process: Option<ProcessSpec>,
    effects: &mut Vec<Effect>,
) -> (result: Result<Option<ProcessSpec>, AssemblyError>)
    ensures
        carried_out(
            step_of(redirector@, words(command@), process_view(process)),
            old(effects)@,
            final(effects)@,
            outcome_view(result),
        ),
{
    assert(effect_views(effects@) + Seq::<EffectView>::empty() =~= effect_views(effects@));
    if !is_operator(redirector) {
        if command.len() == 0 {
            Err(AssemblyError::ExpectedProgram { found: redirector.to_owned() })
        } else {
            assert(words(command@.subrange(1, command@.len() as int)) =~= words(command@).skip(1));
            Ok(
                Some(
                    ProcessSpec::new(
                        command[0].as_str(),
                        slice_subrange(command, 1, command.len()),
                    ),
                ),
            )
        }
    } else {
        match operator_kind(redirector) {
            None => Err(AssemblyError::UnknownOperator { operator: redirector.to_owned() }),
            Some(kind) => match process {
                None => Err(AssemblyError::ExpectedProgram { found: redirector.to_owned() }),
                Some(current) => {
                    if command.len() == 0 {
                        Err(AssemblyError::MissingOperand { operator: redirector.to_owned() })
                    } else {
                        let next = match kind {
                            OperatorKind::Pipe => handle_pipe(command, current, effects),
                            OperatorKind::StdinFrom => handle_stdin_redirect(
                                command,
                                current,
                                effects,
                            ),
                            OperatorKind::StdoutTruncate => handle_stdout_redirect(
                                command,
                                current,
                                effects,
                            ),
                            OperatorKind::StdoutAppend => handle_append_redirect(
                                command,
                                current,
                                effects,
                            ),
                            OperatorKind::Stderr => handle_stderr_redirect(
                                command,
                                current,
                                effects,
                            ),
                            OperatorKind::StdoutAndStderr => handle_stdout_stderr_redirect(
                                command,
                                current,
                                effects,
                            ),
                        };
                        Ok(Some(next))
                    }
                },
            },
        }
    }
}

/// Assembles the tokens of a line, from left to right, starting with
/// `process` in hand, and appends to `effects` the side effects that the
/// assembly asks for, in the order in which they are due.
///
/// The result is the process that is to be run last, `None` where the line
/// names none, or the first error met; the effects logged up to an error are
/// those of the steps before it.
pub fn parse_line(
    tokens: &[String],
    process: Option<ProcessSpec>,
    effects: &mut Vec<Effect>,
) -> (result: Result<Option<ProcessSpec>, AssemblyError>)
    ensures
        carried_out(
            assembly_of(words(tokens@), process_view(process)),
            old(effects)@,
            final(effects)@,
            outcome_view(result),
        ),
{
    let n: usize = tokens.len();
    let ghost line = words(tokens@);
    let ghost log_before = effect_views(effects@);
    let ghost whole = assembly_of(line, process_view(process));
    let ghost mut done: Seq<EffectView> = Seq::empty();
    let mut current = process;
    let mut from: usize = 0;
    proof {
        assert(done + whole.effects =~= whole.effects);
        assert(log_before + done =~= log_before);
    }
    while from < n
        invariant
            n == tokens@.len(),
            line == words(tokens@),
            from <= n,
            log_before == effect_views(old(effects)@),
            whole == assembly_of(line, process_view(process)),
            effect_views(effects@) == log_before + done,
            whole == followed_by(done, assemble_from(line, from as int, process_view(current))),
        decreases n - from,
    {
        let ghost here = assemble_from(line, from as int, process_view(current));
        let leads = is_operator(tokens[from].as_str());
        if leads && current.is_none() {
            proof {
                assert(done + here.effects =~= done);
            }
            return Err(AssemblyError::ExpectedProgram { found: tokens[from].clone() });
        }
        let mut end: usize = from + 1;
        while end < n && !is_operator(tokens[end].as_str())
            invariant
                n == tokens@.len(),
                line == words(tokens@),
                from < end <= n,
                plain_run(line, from as int + 1) == (end - from - 1) + plain_run(line, end as int),
            decreases n - end,
        {
            end += 1;
        }
        let start: usize = if leads {
            from + 1
        } else {
            from
        };
        let segment = slice_subrange(tokens, start, end);
        proof {
            reveal_strlit("");
            assert(words(segment@) =~= line.subrange(start as int, end as int));
            assert(""@ =~= Seq::<char>::empty());
        }
        let ghost step = step_of(
            if leads {
                line[from as int]
            } else {
                Seq::empty()
            },
            line.subrange(start as int, end as int),
            process_view(current),
        );
        let outcome = if leads {
            redirect(tokens[from].as_str(), segment, current, effects)
        } else {
            redirect("", segment, current, effects)
        };
        proof {
            assert(effect_views(effects@) =~= log_before + (done + step.effects));
        }
        match outcome {
            Err(error) => {
                return Err(error);
            },
            Ok(next) => {
                proof {
                    let rest = assemble_from(line, end as int, process_view(next));
                    assert(done + (step.effects + rest.effects) =~= (done + step.effects)
                        + rest.effects);
                    done = done + step.effects;
                }
                current = next;
            },
        }
        from = end;
    }
    proof {
        let here = assemble_from(line, from as int, process_view(current));
        assert(done + here.effects =~= done);
    }
    Ok(current)
}

} // verus!
