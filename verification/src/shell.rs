//! The decisions of the read-eval loop: what is to be done with a line that
//! was entered, and what follows once its last process has been run.  The
//! loop itself, with all that it reads, starts and prints, is the caller's.

use crate::assembler::{
    assembly_of, effect_views, outcome_view, parse_line, AssemblyError, AssemblyView, Effect,
};
use crate::builtin::{builtin, request_of, BuiltinRequest, RequestView};
use crate::config::{default_settings, Config};
use crate::history::History;
use crate::lexer::{parse, tokens_of, LexError};
use crate::process::ProcessSpec;
use crate::report::{
    asks_to_exit, builtin_failure_text, completion_report, completion_text, execution_failure,
    execution_failure_text, is_exit_request, lex_error_text,
};
use crate::text::words;
use vstd::prelude::*;

verus! {

/// What is to be done with a line.
#[derive(Debug, PartialEq, Eq)]
pub enum LinePlan {
    /// The line is refused: `message` is to be shown as an error, and
    /// nothing else happens.
    Refuse { message: String },
    /// A built-in command is to do `request`.
    RunBuiltin { request: BuiltinRequest },
    /// The pipeline engine has assembled the line.  The `effects` are to be
    /// carried out in order; if one of them fails, the work on the line ends
    /// there.  After them the `outcome` says what is left to do: to run a
    /// process and wait for it, nothing, or to show an assembly error.
    RunPipeline { effects: Vec<Effect>, outcome: Result<Option<ProcessSpec>, AssemblyError> },
}

/// A plan over characters.
pub enum PlanView {
    Refuse { message: Seq<char> },
    RunBuiltin { request: RequestView },
    RunPipeline { assembly: AssemblyView },
}

impl View for LinePlan {
    type V = PlanView;

    open spec fn view(&self) -> PlanView {
        match *self {
            LinePlan::Refuse { message } => PlanView::Refuse { message: message@ },
            LinePlan::RunBuiltin { request } => PlanView::RunBuiltin { request: request@ },
            LinePlan::RunPipeline { effects, outcome } => PlanView::RunPipeline {
                assembly: AssemblyView {
                    effects: effect_views(effects@),
                    outcome: outcome_view(outcome),
                },
            },
        }
    }
}

/// What is to be done with the tokens of a line, given the history, which
/// holds the line already: a built-in command comes first where the first
/// token names one, and any other line goes to the pipeline engine.
pub open spec fn plan_of(tokens: Seq<Seq<char>>, history: Seq<Seq<Seq<char>>>) -> PlanView {
    match request_of(tokens, history) {
        Err(error) => PlanView::Refuse {
            message: builtin_failure_text(error.builtin, error.reason),
        },
        Ok(Some(request)) => PlanView::RunBuiltin { request },
        Ok(None) => PlanView::RunPipeline { assembly: assembly_of(tokens, None) },
    }
}

/// What follows the run of the last process of a line.
#[derive(Clone, Debug, PartialEq, Eq)]
pub enum Verdict {
    /// The process has ended: `text` reports it.
    Report { text: String },
    /// The process could not be run: `text` says so, as an error.
    Complain { text: String },
    /// The process could not be run and the line asks to leave: the loop ends.
    Quit,
}

/// A verdict over characters.
pub enum VerdictView {
    Report { text: Seq<char> },
    Complain { text: Seq<char> },
    Quit,
}

impl View for Verdict {
    type V = VerdictView;

    open spec fn view(&self) -> VerdictView {
        match *self {
            Verdict::Report { text } => VerdictView::Report { text: text@ },
            Verdict::Complain { text } => VerdictView::Complain { text: text@ },
            Verdict::Quit => VerdictView::Quit,
        }
    }
}

/// How the run of a process ended, over characters: with its identifier and
/// status, or with the reason why it could not be run.
pub open spec fn run_view(run: Result<(u32, String), String>) -> Result<(nat, Seq<char>), Seq<char>> {
    match run {
        Ok((pid, status)) => Ok((pid as nat, status@)),
        Err(reason) => Err(reason@),
    }
}

/// What follows the run of the last process of the line `tokens`.  A process
/// that has ended is reported.  One that could not be run ends the loop where
/// the line begins with `exit`, and is complained of otherwise.
pub open spec fn verdict_of(tokens: Seq<Seq<char>>, run: Result<(nat, Seq<char>), Seq<char>>) -> VerdictView {
    match run {
        Ok((pid, status)) => VerdictView::Report { text: completion_text(pid, status) },
        Err(reason) => if asks_to_exit(tokens) {
            VerdictView::Quit
        } else {
            VerdictView::Complain { text: execution_failure_text(reason) }
        },
    }
}

/// What is to be done with the tokens of a line that the history holds
/// already.
pub fn plan_line(tokens: &[String], history: &History) -> (plan: LinePlan)
    ensures
        plan@ == plan_of(words(tokens@), history@),
{
    match builtin(tokens, history) {
        Err(error) => LinePlan::Refuse { message: error.message() },
        Ok(Some(request)) => LinePlan::RunBuiltin { request },
        Ok(None) => {
            let mut effects: Vec<Effect> = Vec::new();
            let outcome = parse_line(tokens, None, &mut effects);
            proof {
                let asked = assembly_of(words(tokens@), None).effects;
                assert(effect_views(Seq::<Effect>::empty()) + asked =~= asked);
            }
            LinePlan::RunPipeline { effects, outcome }
        },
    }
}

/// What follows the run of the last process of the line `tokens`.
pub fn after_run(tokens: &[String], run: Result<(u32, String), String>) -> (verdict: Verdict)
    ensures
        verdict@ == verdict_of(words(tokens@), run_view(run)),
{
    match run {
        Ok((pid, status)) => Verdict::Report { text: completion_report(pid, status.as_str()) },
        Err(reason) => {
            if is_exit_request(tokens) {
                Verdict::Quit
            } else {
                Verdict::Complain { text: execution_failure(reason.as_str()) }
            }
        },
    }
}

/// The tokens of the line entered last, or none where no line was entered.
pub open spec fn newest_line(history: Seq<Seq<Seq<char>>>) -> Seq<Seq<char>> {
    if history.len() > 0 {
        history.last()
    } else {
        Seq::empty()
    }
}

/// The state that lasts from one line to the next: the history of the
/// commands entered, and the settings.
pub struct Session {
    pub history: History,
    pub config: Config,
}

impl Session {
    /// A session without history, under the default settings.
    pub fn new() -> (session: Self)
        ensures
            session.history@ == Seq::<Seq<Seq<char>>>::empty(),
            session.config@ == default_settings(),
    {
        Session { history: History::new(), config: Config::new() }
    }

    /// Takes a line as it was entered: splits it into tokens, adds them to
    /// the history, and says what is to be done with them.  A line that is
    /// malformed is refused and leaves the history as it is.
    pub fn enter(&mut self, line: String) -> (plan: LinePlan)
        ensures
            final(self).config@ == old(self).config@,
            match tokens_of(line@) {
                Ok(tokens) => final(self).history@ == old(self).history@.push(tokens) && plan@
                    == plan_of(tokens, final(self).history@),
                Err(at) => final(self).history@ == old(self).history@ && plan@
                    == (PlanView::Refuse {
                    message: lex_error_text(LexError::UnterminatedQuote { at: at as usize }),
                }),
            },
    {
        match parse(line) {
            Ok(tokens) => {
                self.history.add_to_history(&tokens);
                plan_line(tokens.as_slice(), &self.history)
            },
            Err(error) => LinePlan::Refuse { message: error.message() },
        }
    }

    /// What follows the run of the last process of the line entered last.
    pub fn after_run(&self, run: Result<(u32, String), String>) -> (verdict: Verdict)
        ensures
            verdict@ == verdict_of(newest_line(self.history@), run_view(run)),
    {
        match self.history.last_command() {
            Some(tokens) => after_run(tokens.as_slice(), run),
            None => {
                let none: Vec<String> = Vec::new();
                assert(words(none@) =~= Seq::<Seq<char>>::empty());
                after_run(none.as_slice(), run)
            },
        }
    }
}

} // verus!
