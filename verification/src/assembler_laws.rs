//! What holds of the assembler on every token sequence.

use crate::assembler::{
    assemble_from, assembly_of, carried_out, effect_views, operator_step, plain_run, refused,
    segment_stays_inside, step_of, AssemblyErrorView, AssemblyView, Effect, EffectView,
};
use crate::operator::{is_operator_text, operator_kind_of, OperatorKind};
use crate::process::{plain_process, BindingView, OpenMode, ProcessView, Stream};
use vstd::prelude::*;

verus! {

/// No token of the sequence has the shape of an operator.
pub open spec fn all_plain(tokens: Seq<Seq<char>>) -> bool {
    forall|i: int| 0 <= i < tokens.len() ==> !is_operator_text(#[trigger] tokens[i])
}

/// Where no token is an operator, an operand segment runs to the end.
proof fn plain_tokens_are_one_segment(tokens: Seq<Seq<char>>, from: int)
    requires
        all_plain(tokens),
        0 <= from <= tokens.len(),
    ensures
        from + plain_run(tokens, from) == tokens.len(),
    decreases tokens.len() - from,
{
    if from < tokens.len() {
        plain_tokens_are_one_segment(tokens, from + 1);
    }
}

/// A line without tokens is a no-op: nothing is asked for, and what was in
/// hand stays in hand.
pub proof fn empty_line_is_a_no_op(process: Option<ProcessView>)
    ensures
        assembly_of(Seq::empty(), process) == (AssemblyView {
            effects: Seq::empty(),
            outcome: Ok(process),
        }),
{
}

/// A line without operator tokens assembles to exactly one process, whose
/// program is the first token and whose arguments are the remaining tokens,
/// in order; every stream is inherited, and no effect is asked for.
pub proof fn plain_line_is_one_process(tokens: Seq<Seq<char>>)
    requires
        tokens.len() > 0,
        all_plain(tokens),
    ensures
        assembly_of(tokens, None) == (AssemblyView {
            effects: Seq::empty(),
            outcome: Ok(Some(plain_process(tokens[0], tokens.skip(1)))),
        }),
{
    plain_tokens_are_one_segment(tokens, 1);
    let end = tokens.len() as int;
    assert(tokens.subrange(0, end) =~= tokens);
    let step = step_of(Seq::empty(), tokens, None);
    let rest = assemble_from(tokens, end, step.outcome->Ok_0);
    assert(step.effects + rest.effects =~= Seq::<EffectView>::empty());
}

/// A line that begins with an operator token is refused, because a program
/// was expected where the operator stands, and asks for no effect at all.
pub proof fn leading_operator_is_refused(tokens: Seq<Seq<char>>)
    requires
        tokens.len() > 0,
        is_operator_text(tokens[0]),
    ensures
        assembly_of(tokens, None) == refused(
            AssemblyErrorView::ExpectedProgram { found: tokens[0] },
        ),
{
}

/// Assembling the same tokens twice, from the same process in hand, gives the
/// same outcome and asks for the same effects in the same order, whatever the
/// logs held before.
pub proof fn assembly_is_repeatable(
    tokens: Seq<Seq<char>>,
    process: Option<ProcessView>,
    first_log_before: Seq<Effect>,
    first_log_after: Seq<Effect>,
    first_outcome: Result<Option<ProcessView>, AssemblyErrorView>,
    second_log_before: Seq<Effect>,
    second_log_after: Seq<Effect>,
    second_outcome: Result<Option<ProcessView>, AssemblyErrorView>,
)
    requires
        carried_out(
            assembly_of(tokens, process),
            first_log_before,
            first_log_after,
            first_outcome,
        ),
        carried_out(
            assembly_of(tokens, process),
            second_log_before,
            second_log_after,
            second_outcome,
        ),
    ensures
        first_outcome == second_outcome,
        effect_views(first_log_after).skip(first_log_before.len() as int) == effect_views(
            second_log_after,
        ).skip(second_log_before.len() as int),
{
    let asked = assembly_of(tokens, process).effects;
    assert((effect_views(first_log_before) + asked).skip(first_log_before.len() as int) =~= asked);
    assert((effect_views(second_log_before) + asked).skip(second_log_before.len() as int)
        =~= asked);
}

/// Where `stream` of the process that is being assembled leads once the
/// first `upto` effects of a log have been carried out: to the file opened
/// last for it since the last spawn; without one, standard input leads to the
/// pipe of the process spawned last, and anything else is inherited.
pub open spec fn wired_binding(effects: Seq<EffectView>, upto: int, stream: Stream) -> BindingView
    decreases upto,
{
    if upto <= 0 || upto > effects.len() {
        BindingView::Inherit
    } else {
        match effects[upto - 1] {
            EffectView::Spawn { .. } => if stream == Stream::Stdin {
                BindingView::Pipe
            } else {
                BindingView::Inherit
            },
            EffectView::Open { path, mode, stream: opened } => if opened == stream {
                BindingView::File { path, mode }
            } else {
                wired_binding(effects, upto - 1, stream)
            },
        }
    }
}

/// Every process that a log spawns reads and reports where the log in front
/// of its spawn leads, and writes to a pipe.
pub open spec fn spawned_as_wired(effects: Seq<EffectView>) -> bool {
    forall|k: int|
        0 <= k < effects.len() ==> (#[trigger] effects[k] matches EffectView::Spawn { process }
            ==> {
            &&& process.stdin == wired_binding(effects, k, Stream::Stdin)
            &&& process.stdout == BindingView::Pipe
            &&& process.stderr == wired_binding(effects, k, Stream::Stderr)
        })
}

/// The three streams of `process` lead where the whole log leads.
pub open spec fn bound_as_wired(effects: Seq<EffectView>, process: ProcessView) -> bool {
    &&& process.stdin == wired_binding(effects, effects.len() as int, Stream::Stdin)
    &&& process.stdout == wired_binding(effects, effects.len() as int, Stream::Stdout)
    &&& process.stderr == wired_binding(effects, effects.len() as int, Stream::Stderr)
}

/// Where a log leads after some of its effects does not depend on the later
/// ones.
proof fn later_effects_change_nothing(
    effects: Seq<EffectView>,
    more: Seq<EffectView>,
    upto: int,
    stream: Stream,
)
    requires
        upto <= effects.len(),
    ensures
        wired_binding(effects + more, upto, stream) == wired_binding(effects, upto, stream),
    decreases upto,
{
    if upto > 0 {
        assert((effects + more)[upto - 1] == effects[upto - 1]);
        later_effects_change_nothing(effects, more, upto - 1, stream);
    }
}

/// A log that spawns as wired still does so with more effects behind it, if
/// those spawn as wired too.
proof fn spawns_stay_wired(effects: Seq<EffectView>, more: Seq<EffectView>)
    requires
        spawned_as_wired(effects),
        forall|k: int|
            0 <= k < more.len() ==> (#[trigger] more[k] matches EffectView::Spawn { process } ==> {
                &&& process.stdin == wired_binding(effects + more, effects.len() + k, Stream::Stdin)
                &&& process.stdout == BindingView::Pipe
                &&& process.stderr == wired_binding(
                    effects + more,
                    effects.len() + k,
                    Stream::Stderr,
                )
            }),
    ensures
        spawned_as_wired(effects + more),
{
    let all = effects + more;
    assert forall|k: int| 0 <= k < all.len() implies (#[trigger] all[k] matches EffectView::Spawn {
        process,
    } ==> {
        &&& process.stdin == wired_binding(all, k, Stream::Stdin)
        &&& process.stdout == BindingView::Pipe
        &&& process.stderr == wired_binding(all, k, Stream::Stderr)
    }) by {
        if k < effects.len() {
            assert(all[k] == effects[k]);
            later_effects_change_nothing(effects, more, k, Stream::Stdin);
            later_effects_change_nothing(effects, more, k, Stream::Stderr);
        } else {
            assert(all[k] == more[k - effects.len()]);
        }
    }
}

/// One step with an operator keeps the log and the process in hand wired.
proof fn step_keeps_wiring(
    kind: OperatorKind,
    segment: Seq<Seq<char>>,
    process: ProcessView,
    done: Seq<EffectView>,
)
    requires
        segment.len() > 0,
        spawned_as_wired(done),
        bound_as_wired(done, process),
    ensures
        ({
            let step = operator_step(kind, segment, process);
            &&& step.outcome matches Ok(Some(next))
            &&& spawned_as_wired(done + step.effects)
            &&& bound_as_wired(done + step.effects, next)
        }),
{
    let step = operator_step(kind, segment, process);
    let all = done + step.effects;
    let n = done.len() as int;
    later_effects_change_nothing(done, step.effects, n, Stream::Stdin);
    later_effects_change_nothing(done, step.effects, n, Stream::Stdout);
    later_effects_change_nothing(done, step.effects, n, Stream::Stderr);
    assert(all[n] == step.effects[0]);
    if kind == OperatorKind::StdoutAndStderr {
        assert(all[n + 1] == step.effects[1]);
        assert(wired_binding(all, n + 1, Stream::Stdout) == BindingView::File {
            path: segment[0],
            mode: OpenMode::Truncate,
        });
    }
    spawns_stay_wired(done, step.effects);
}

/// From an operator on, assembly keeps the log and the process in hand wired.
proof fn steps_keep_wiring(
    tokens: Seq<Seq<char>>,
    from: int,
    process: ProcessView,
    done: Seq<EffectView>,
)
    requires
        0 <= from <= tokens.len(),
        from < tokens.len() ==> is_operator_text(tokens[from]),
        spawned_as_wired(done),
        bound_as_wired(done, process),
    ensures
        ({
            let rest = assemble_from(tokens, from, Some(process));
            &&& spawned_as_wired(done + rest.effects)
            &&& rest.outcome matches Ok(last) ==> last matches Some(p) && bound_as_wired(
                done + rest.effects,
                p,
            )
        }),
    decreases tokens.len() - from,
{
    let rest = assemble_from(tokens, from, Some(process));
    if from >= tokens.len() {
        assert(done + rest.effects =~= done);
    } else {
        let end = from + 1 + plain_run(tokens, from + 1);
        segment_stays_inside(tokens, from + 1);
        let segment = tokens.subrange(from + 1, end);
        let step = step_of(tokens[from], segment, Some(process));
        match step.outcome {
            Err(_) => {
                assert(done + rest.effects =~= done);
            },
            Ok(next) => {
                let kind = operator_kind_of(tokens[from])->Some_0;
                step_keeps_wiring(kind, segment, process, done);
                segment_ends_at_operator(tokens, from + 1);
                steps_keep_wiring(tokens, end, next->Some_0, done + step.effects);
                let tail = assemble_from(tokens, end, next);
                assert(done + (step.effects + tail.effects) =~= (done + step.effects)
                    + tail.effects);
            },
        }
    }
}

/// Behind an operand segment stands an operator, or nothing.
proof fn segment_ends_at_operator(tokens: Seq<Seq<char>>, from: int)
    requires
        0 <= from <= tokens.len(),
    ensures
        from + plain_run(tokens, from) < tokens.len() ==> is_operator_text(
            tokens[from + plain_run(tokens, from)],
        ),
    decreases tokens.len() - from,
{
    if from < tokens.len() && !is_operator_text(tokens[from]) {
        segment_ends_at_operator(tokens, from + 1);
    }
}

/// The bindings of the processes follow the log.  Whoever carries the
/// effects of a line out in order, keeps for each stream the file opened last
/// for it, and starts afresh after each spawn with the new pipe as standard
/// input, holds at each spawn, and at the end, exactly the handles that the
/// process spawned there, or the process to be run last, is bound to.  Each
/// spawned process writes to its pipe.  And a line that assembles without
/// error leaves no process in hand only where it has no tokens.
pub proof fn bindings_follow_the_log(tokens: Seq<Seq<char>>)
    ensures
        ({
            let assembly = assembly_of(tokens, None);
            &&& spawned_as_wired(assembly.effects)
            &&& assembly.outcome matches Ok(Some(last)) ==> bound_as_wired(assembly.effects, last)
            &&& assembly.outcome == Ok::<Option<ProcessView>, AssemblyErrorView>(None)
                <==> tokens.len() == 0
        }),
{
    let assembly = assembly_of(tokens, None);
    if tokens.len() > 0 && !is_operator_text(tokens[0]) {
        let end = 1 + plain_run(tokens, 1);
        segment_stays_inside(tokens, 1);
        segment_ends_at_operator(tokens, 1);
        let first = plain_process(tokens[0], tokens.subrange(0, end as int).skip(1));
        let step = step_of(Seq::empty(), tokens.subrange(0, end as int), None);
        assert(step.effects =~= Seq::<EffectView>::empty());
        steps_keep_wiring(tokens, end as int, first, Seq::empty());
        let tail = assemble_from(tokens, end as int, Some(first));
        assert(Seq::<EffectView>::empty() + tail.effects =~= tail.effects);
        assert(step.effects + tail.effects =~= tail.effects);
    }
}

} // verus!
