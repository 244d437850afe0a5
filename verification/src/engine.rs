//! The execution engine: the state machine that walks a workflow graph from
//! its `Start` step until an `End` step or a classified halt.
//!
//! One run owns its context and its step cursor.  Every visited step gets a
//! sequence id, emits `start` and `end` events, and either advances the
//! cursor, finishes the run, or halts it; a halt emits exactly one `error`
//! event and is never retried.  External effects are performed by the host
//! through a callback, and the engine is verified for every outcome the
//! host can return.

use vstd::prelude::*;
use vstd::string::*;
use crate::commands::{
    eval_inputs, names_of, output_names_of, CommandAction, CommandKind, CommandRegistry,
};
use crate::commands::log_command::{outputs_log, prepare_log};
use crate::commands::read_file_command::{outputs_read_file, prepare_read_file};
use crate::commands::write_file_command::prepare_write_file;
use crate::commands::append_file_command::prepare_append_file;
use crate::commands::delete_file_command::prepare_delete_file;
use crate::commands::rest_api_command::{outputs_rest_api, prepare_rest_api};
use crate::commands::outputs_status;
use crate::context::Context;
use crate::effect::{Effect, IoOutcome};
use crate::event::{error_count, Event, EventKind};
use crate::utils::str_eq;
use crate::value::{Value, ValueModel};
use crate::workflow::{start_count, Condition, Step, Workflow};

verus! {

broadcast use crate::event::lemma_error_count_push;

/// The context variable a command result named `name` is bound under: the
/// first matching declared rename, or `name` itself.
pub open spec fn rename_of(renames: Seq<(String, String)>, name: Seq<char>) -> Seq<char>
    decreases renames.len(),
{
    if renames.len() == 0 {
        name
    } else if renames[0].0@ == name {
        renames[0].1@
    } else {
        rename_of(renames.drop_first(), name)
    }
}

/// The context after folding command outputs into it, in order, later
/// writes to one variable winning.
pub open spec fn folded(
    m: Map<Seq<char>, ValueModel>,
    outs: Seq<(String, Value)>,
    renames: Seq<(String, String)>,
) -> Map<Seq<char>, ValueModel>
    decreases outs.len(),
{
    if outs.len() == 0 {
        m
    } else {
        folded(m, outs.drop_last(), renames).insert(
            rename_of(renames, outs.last().0@),
            outs.last().1@,
        )
    }
}

/// The context variables a fold of outputs named `names` writes.
pub open spec fn bound_of_names(names: Seq<Seq<char>>, renames: Seq<(String, String)>) -> Set<
    Seq<char>,
>
    decreases names.len(),
{
    if names.len() == 0 {
        Set::empty()
    } else {
        bound_of_names(names.drop_last(), renames).insert(rename_of(renames, names.last()))
    }
}

/// A command's outputs become visible atomically: folding them binds every
/// declared output variable, and a variable not among them is untouched.
pub proof fn lemma_outputs_visibility(
    m: Map<Seq<char>, ValueModel>,
    outs: Seq<(String, Value)>,
    renames: Seq<(String, String)>,
)
    ensures
        forall|k: Seq<char>|
            bound_of_names(names_of(outs), renames).contains(k) ==> #[trigger] folded(
                m,
                outs,
                renames,
            ).contains_key(k),
        forall|k: Seq<char>|
            !bound_of_names(names_of(outs), renames).contains(k) ==> (#[trigger] folded(
                m,
                outs,
                renames,
            ).contains_key(k) <==> m.contains_key(k)),
        forall|k: Seq<char>|
            !bound_of_names(names_of(outs), renames).contains(k) && m.contains_key(k)
                ==> #[trigger] folded(m, outs, renames)[k] == m[k],
    decreases outs.len(),
{
    if outs.len() > 0 {
        lemma_outputs_visibility(m, outs.drop_last(), renames);
        assert(names_of(outs).drop_last() =~= names_of(outs.drop_last()));
        assert(names_of(outs).last() == outs.last().0@);
        let sub = folded(m, outs.drop_last(), renames);
        let subnames = bound_of_names(names_of(outs.drop_last()), renames);
        let nm = rename_of(renames, outs.last().0@);
        assert(folded(m, outs, renames) == sub.insert(nm, outs.last().1@));
        assert(bound_of_names(names_of(outs), renames) == subnames.insert(nm));
        assert forall|k: Seq<char>|
            bound_of_names(names_of(outs), renames).contains(k) implies #[trigger] folded(
            m,
            outs,
            renames,
        ).contains_key(k) by {
            if k != nm {
                assert(subnames.contains(k));
                assert(sub.contains_key(k));
            }
        };
        assert forall|k: Seq<char>|
            !bound_of_names(names_of(outs), renames).contains(k) implies (#[trigger] folded(
            m,
            outs,
            renames,
        ).contains_key(k) <==> m.contains_key(k)) by {
            assert(k != nm);
            assert(!subnames.contains(k));
            assert(folded(m, outs, renames).contains_key(k) == sub.contains_key(k));
        };
        assert forall|k: Seq<char>|
            !bound_of_names(names_of(outs), renames).contains(k) && m.contains_key(
                k,
            ) implies #[trigger] folded(m, outs, renames)[k] == m[k] by {
            assert(k != nm);
            assert(!subnames.contains(k));
            assert(folded(m, outs, renames)[k] == sub[k]);
        };
    }
}

/// The variable a command result is bound under, per the step's declared
/// renames.
fn rename_output(renames: &Vec<(String, String)>, name: &String) -> (r: String)
    ensures
        r@ == rename_of(renames@, name@),
{
    let n = renames.len();
    proof {
        assert(renames@.skip(0) =~= renames@);
    }
    for i in 0..n
        invariant
            n == renames@.len(),
            rename_of(renames@, name@) == rename_of(renames@.skip(i as int), name@),
    {
        proof {
            assert(renames@.skip(i as int)[0] == renames@[i as int]);
            assert(renames@.skip(i as int).drop_first() =~= renames@.skip(i + 1));
        }
        if str_eq(renames[i].0.as_str(), name.as_str()) {
            return renames[i].1.clone();
        }
    }
    name.clone()
}

/// Folds command outputs into the context, in order, under their declared
/// names.
pub fn fold_outputs(
    ctx: &mut Context,
    outs: &Vec<(String, Value)>,
    renames: &Vec<(String, String)>,
)
    ensures
        final(ctx)@ == folded(old(ctx)@, outs@, renames@),
{
    let n = outs.len();
    for i in 0..n
        invariant
            n == outs@.len(),
            ctx@ == folded(old(ctx)@, outs@.take(i as int), renames@),
    {
        proof {
            assert(outs@.take(i + 1).drop_last() =~= outs@.take(i as int));
            assert(outs@.take(i + 1).last() == outs@[i as int]);
        }
        let target = rename_output(renames, &outs[i].0);
        ctx.set_variable(target.as_str(), outs[i].1.duplicate());
    }
    proof {
        assert(outs@.take(n as int) =~= outs@);
    }
}

/// How one condition clause fared when the engine examined it.
#[derive(Debug)]
pub enum ClauseCheck {
    /// The clause is the `else` marker; it always matches.
    Else,
    /// Its expression evaluated to true.
    True,
    /// Its expression evaluated to false.
    False,
    /// Its evaluation failed; the failure is logged and the clause treated
    /// as a non-match.
    Failed(String),
}

/// Examines a condition step's clauses strictly in order and selects the
/// successor of the first that matches: the first whose expression is the
/// literal `else` or evaluated to true.  An evaluation failure only skips
/// its own clause.  The second result records how far the engine looked and
/// what it saw.
pub fn run_condition(ctx: &Context, conditions: &Vec<Condition>) -> (r: (
    Option<String>,
    Vec<ClauseCheck>,
))
    ensures
        ({
            let sel = r.0;
            let checked = r.1;
            &&& checked@.len() <= conditions@.len()
            &&& forall|j: int|
                0 <= j < checked@.len() ==> ((#[trigger] checked@[j]) is Else <==> conditions@[j].exp@
                    == "else"@)
            &&& match sel {
                Some(next) => checked@.len() >= 1 && (checked@.last() is Else
                    || checked@.last() is True) && next@ == conditions@[checked@.len() - 1].next@
                    && (forall|j: int|
                    0 <= j < checked@.len() - 1 ==> ((#[trigger] checked@[j]) is False
                        || checked@[j] is Failed)),
                None => checked@.len() == conditions@.len() && (forall|j: int|
                    0 <= j < checked@.len() ==> ((#[trigger] checked@[j]) is False
                        || checked@[j] is Failed)),
            }
        }),
{
    let mut checked: Vec<ClauseCheck> = Vec::new();
    let n = conditions.len();
    for i in 0..n
        invariant
            n == conditions@.len(),
            checked@.len() == i,
            forall|j: int|
                0 <= j < i ==> ((#[trigger] checked@[j]) is Else <==> conditions@[j].exp@
                    == "else"@),
            forall|j: int|
                0 <= j < i ==> ((#[trigger] checked@[j]) is False || checked@[j] is Failed),
    {
        if str_eq(conditions[i].exp.as_str(), "else") {
            checked.push(ClauseCheck::Else);
            return (Some(conditions[i].next.clone()), checked);
        }
        match ctx.evaluate_bool(conditions[i].exp.as_str()) {
            Ok(true) => {
                checked.push(ClauseCheck::True);
                return (Some(conditions[i].next.clone()), checked);
            },
            Ok(false) => {
                checked.push(ClauseCheck::False);
            },
            Err(e) => {
                checked.push(ClauseCheck::Failed(e));
            },
        }
    }
    (None, checked)
}

/// Why a run stopped before reaching an `End` step.  None of these is
/// retried; the run surfaces the reason to its caller.
#[derive(Debug)]
pub enum HaltReason {
    /// The workflow has no `Start` step, or more than one.
    UnresolvedStart,
    /// A `next` reference names no step of the graph.
    DanglingReference { step: String },
    /// A `Command` step names a command the registry does not hold.
    UnknownCommand { step: String, command: String },
    /// A `Condition` step had no matching clause and no `else`.
    NoConditionMatched { step: String },
    /// A command's configuration could not be used: a required input was
    /// missing, an input failed to evaluate, or an input value is
    /// unsupported.
    CommandFailed { step: String, cause: String },
    /// The run visited more steps than the configured loop guard allows.
    LoopLimitExceeded,
}

/// How a run ended.
#[derive(Debug)]
pub enum RunState {
    Completed,
    Halted(HaltReason),
}

/// What one run left behind: how it ended, how many steps it visited, and
/// the events it emitted.
#[derive(Debug)]
pub struct RunResult {
    pub state: RunState,
    pub visited: u64,
    pub events: Vec<Event>,
}

/// What one visited step decided.
#[derive(Debug)]
pub enum StepVerdict {
    Continue { next: String },
    Finished,
    Halt { reason: HaltReason },
}

/// Every event of `es` belongs to the visited step `step` with sequence id
/// `id`.
pub open spec fn events_of_step(es: Seq<Event>, id: u64, step: Seq<char>) -> bool {
    forall|j: int| 0 <= j < es.len() ==> (#[trigger] es[j]).id == id && es[j].step@ == step
}


/// Executes one resolved step: emits its events, updates the context only
/// through a command's declared output bindings, and decides how the run
/// goes on.
pub fn execute_step<F: Fn(Effect) -> IoOutcome>(
    reg: &CommandRegistry,
    ctx: &mut Context,
    step_name: &String,
    step: &Step,
    seq_id: u64,
    io: &F,
) -> (r: (StepVerdict, Vec<Event>))
    requires
        forall|e: Effect| #[trigger] call_requires(*io, (e,)),
    ensures
        r.1@.len() >= 1,
        r.1@[0].kind is Start,
        events_of_step(r.1@, seq_id, step_name@),
        r.0 is Halt ==> error_count(r.1@) == 1 && r.1@.last().kind is Error,
        !(r.0 is Halt) ==> error_count(r.1@) == 0,
        r.0 is Finished ==> r.1@.last().kind is End,
        match step {
            Step::Start { next } => final(ctx)@ == old(ctx)@ && (r.0 matches StepVerdict::Continue {
                next: nx,
            } && nx@ == next@),
            Step::End => final(ctx)@ == old(ctx)@ && r.0 is Finished,
            Step::Condition { conditions } => final(ctx)@ == old(ctx)@ && match r.0 {
                StepVerdict::Continue { next: nx } => exists|i: int|
                    0 <= i < conditions@.len() && (#[trigger] conditions@[i]).next@ == nx@ && (
                    forall|j: int|
                        0 <= j < i ==> (#[trigger] conditions@[j]).exp@ != "else"@),
                StepVerdict::Halt { reason } => (reason matches HaltReason::NoConditionMatched {
                    step: st,
                } && st@ == step_name@) && (forall|i: int|
                    0 <= i < conditions@.len() ==> (#[trigger] conditions@[i]).exp@ != "else"@),
                StepVerdict::Finished => false,
            },
            Step::Command { command, inputs, outputs, next } => match r.0 {
                StepVerdict::Halt { reason } => final(ctx)@ == old(ctx)@ && match reason {
                    HaltReason::UnknownCommand { step: st, command: c } => st@ == step_name@ && c@
                        == command@ && !reg@.contains_key(command@),
                    HaltReason::CommandFailed { step: st, cause: _ } => st@ == step_name@
                        && reg@.contains_key(command@),
                    _ => false,
                },
                StepVerdict::Continue { next: nx } => nx@ == next@ && reg@.contains_key(command@)
                    && (forall|k: Seq<char>|
                    bound_of_names(output_names_of(reg@[command@]), outputs@).contains(k)
                        ==> #[trigger] final(ctx)@.contains_key(k)) && (forall|k: Seq<char>|
                    !bound_of_names(output_names_of(reg@[command@]), outputs@).contains(k) ==> ((
                    #[trigger] final(ctx)@.contains_key(k) <==> old(ctx)@.contains_key(k)) && (old(
                        ctx,
                    )@.contains_key(k) ==> final(ctx)@[k] == old(ctx)@[k]))) && (reg@[command@]
                    is Log ==> r.1@.len() == 3 && r.1@[1].kind is Log && r.1@[2].kind is End
                    && final(ctx)@ == old(ctx)@.insert(
                    rename_of(outputs@, "message"@),
                    ValueModel::Str(r.1@[1].message@),
                )),
                StepVerdict::Finished => false,
            },
        },
{
    let mut evs: Vec<Event> = Vec::new();
    evs.push(
        Event {
            id: seq_id,
            kind: EventKind::Start,
            step: step_name.clone(),
            message: String::from_str("step started"),
        },
    );
    match step {
        Step::Start { next } => {
            evs.push(
                Event {
                    id: seq_id,
                    kind: EventKind::End,
                    step: step_name.clone(),
                    message: String::from_str("step ended"),
                },
            );
            (StepVerdict::Continue { next: next.clone() }, evs)
        },
        Step::End => {
            evs.push(
                Event {
                    id: seq_id,
                    kind: EventKind::End,
                    step: step_name.clone(),
                    message: String::from_str("workflow finished"),
                },
            );
            (StepVerdict::Finished, evs)
        },
        Step::Condition { conditions } => {
            let (sel, checked) = run_condition(ctx, conditions);
            let m = checked.len();
            for j in 0..m
                invariant
                    m == checked@.len(),
                    evs@.len() >= 1,
                    evs@[0].kind is Start,
                    error_count(evs@) == 0,
                    events_of_step(evs@, seq_id, step_name@),
            {
                match &checked[j] {
                    ClauseCheck::Failed(e) => {
                        evs.push(
                            Event {
                                id: seq_id,
                                kind: EventKind::Log,
                                step: step_name.clone(),
                                message: e.clone(),
                            },
                        );
                    },
                    _ => {},
                }
            }
            match sel {
                Some(next) => {
                    evs.push(
                        Event {
                            id: seq_id,
                            kind: EventKind::End,
                            step: step_name.clone(),
                            message: String::from_str("step ended"),
                        },
                    );
                    proof {
                        let sel = checked@.len() - 1;
                        assert forall|j: int|
                            0 <= j < sel implies (#[trigger] conditions@[j]).exp@ != "else"@ by {
                            assert(checked@[j] is False || checked@[j] is Failed);
                            assert(!(checked@[j] is Else));
                        };
                        assert(0 <= sel < conditions@.len() && conditions@[sel].next@ == next@ && (
                        forall|j: int| 0 <= j < sel ==> (#[trigger] conditions@[j]).exp@ != "else"@));
                    }
                    (StepVerdict::Continue { next }, evs)
                },
                None => {
                    proof {
                        assert forall|i: int|
                            0 <= i < conditions@.len() implies (#[trigger] conditions@[i]).exp@
                            != "else"@ by {
                            assert(!(checked@[i] is Else));
                        };
                    }
                    evs.push(
                        Event {
                            id: seq_id,
                            kind: EventKind::Error,
                            step: step_name.clone(),
                            message: String::from_str("no condition matched"),
                        },
                    );
                    (
                        StepVerdict::Halt {
                            reason: HaltReason::NoConditionMatched { step: step_name.clone() },
                        },
                        evs,
                    )
                },
            }
        },
        Step::Command { command, inputs, outputs, next } => {
            let kind = match reg.lookup(command.as_str()) {
                Some(k) => k,
                None => {
                    let mut msg = String::from_str("unknown command: ");
                    msg.append(command.as_str());
                    evs.push(
                        Event {
                            id: seq_id,
                            kind: EventKind::Error,
                            step: step_name.clone(),
                            message: msg,
                        },
                    );
                    return (
                        StepVerdict::Halt {
                            reason: HaltReason::UnknownCommand {
                                step: step_name.clone(),
                                command: command.clone(),
                            },
                        },
                        evs,
                    );
                },
            };
            let vals = match eval_inputs(ctx, inputs) {
                Ok(v) => v,
                Err(e) => {
                    evs.push(
                        Event {
                            id: seq_id,
                            kind: EventKind::Error,
                            step: step_name.clone(),
                            message: e.clone(),
                        },
                    );
                    return (
                        StepVerdict::Halt {
                            reason: HaltReason::CommandFailed {
                                step: step_name.clone(),
                                cause: e,
                            },
                        },
                        evs,
                    );
                },
            };
            let prepared = match kind {
                CommandKind::Log => prepare_log(&vals),
                CommandKind::ReadFile => prepare_read_file(&vals),
                CommandKind::WriteFile => prepare_write_file(&vals),
                CommandKind::AppendFile => prepare_append_file(&vals),
                CommandKind::DeleteFile => prepare_delete_file(&vals),
                CommandKind::RestApi => prepare_rest_api(&vals),
            };
            let action = match prepared {
                Ok(a) => a,
                Err(e) => {
                    evs.push(
                        Event {
                            id: seq_id,
                            kind: EventKind::Error,
                            step: step_name.clone(),
                            message: e.clone(),
                        },
                    );
                    return (
                        StepVerdict::Halt {
                            reason: HaltReason::CommandFailed {
                                step: step_name.clone(),
                                cause: e,
                            },
                        },
                        evs,
                    );
                },
            };
            let outs = match action {
                CommandAction::Emit { message } => {
                    evs.push(
                        Event {
                            id: seq_id,
                            kind: EventKind::Log,
                            step: step_name.clone(),
                            message: message.clone(),
                        },
                    );
                    outputs_log(&message)
                },
                CommandAction::Io { effect } => {
                    let outcome = (*io)(effect);
                    match kind {
                        CommandKind::Log => outputs_log(&String::new()),
                        CommandKind::ReadFile => outputs_read_file(&outcome),
                        CommandKind::WriteFile => outputs_status(&outcome),
                        CommandKind::AppendFile => outputs_status(&outcome),
                        CommandKind::DeleteFile => outputs_status(&outcome),
                        CommandKind::RestApi => outputs_rest_api(&outcome),
                    }
                },
            };
            fold_outputs(ctx, &outs, outputs);
            proof {
                lemma_outputs_visibility(old(ctx)@, outs@, outputs@);
                assert(names_of(outs@) == output_names_of(reg@[command@]));
                if reg@[command@] is Log {
                    assert(outs@.len() == 1);
                    assert(names_of(outs@)[0] == outs@[0].0@);
                    assert(outs@[0].0@ == "message"@);
                    assert(outs@.drop_last() =~= Seq::<(String, Value)>::empty());
                    reveal_with_fuel(folded, 2);
                    assert(folded(old(ctx)@, outs@.drop_last(), outputs@) == old(ctx)@);
                    assert(folded(old(ctx)@, outs@, outputs@) == old(ctx)@.insert(
                        rename_of(outputs@, outs@[0].0@),
                        outs@[0].1@,
                    ));
                }
            }
            evs.push(
                Event {
                    id: seq_id,
                    kind: EventKind::End,
                    step: step_name.clone(),
                    message: String::from_str("step ended"),
                },
            );
            (StepVerdict::Continue { next: next.clone() }, evs)
        },
    }
}

/// Runs a workflow from its unique `Start` step until an `End` step
/// completes it or a classified condition halts it.
///
/// The host performs each requested effect through `io`.  `loop_guard`
/// caps revisits: a run visits at most `steps * loop_guard` steps before
/// it is halted, whatever the graph and the evaluator do.  Every halt
/// reason is tied to its cause: start resolution fails exactly when the
/// workflow does not have one `Start` step, a dangling reference really
/// resolves to nothing, an unknown command is really unregistered, a
/// no-match halt names an else-less `Condition` step of the graph, and a
/// command failure names a `Command` step whose command is registered.
/// Sequence ids never decrease along the event stream and count the
/// visited steps.
pub fn run<F: Fn(Effect) -> IoOutcome>(
    wf: &Workflow,
    reg: &CommandRegistry,
    ctx: &mut Context,
    loop_guard: u64,
    io: &F,
) -> (r: RunResult)
    requires
        forall|e: Effect| #[trigger] call_requires(*io, (e,)),
    ensures
        r.visited as int <= (wf.steps@.len() as int) * (loop_guard as int),
        (r.state matches RunState::Halted(HaltReason::UnresolvedStart)) <==> start_count(
            wf.steps@,
        ) != 1,
        forall|j: int| 0 <= j < r.events@.len() ==> (#[trigger] r.events@[j]).id <= r.visited,
        forall|j: int, k: int|
            0 <= j <= k < r.events@.len() ==> (#[trigger] r.events@[j]).id <= (
            #[trigger] r.events@[k]).id,
        match r.state {
            RunState::Completed => error_count(r.events@) == 0 && r.events@.len() >= 1
                && r.events@.last().kind is End && r.events@.last().id + 1 == r.visited && (forall|
                j: int,
            |
                0 <= j < r.events@.len() ==> (#[trigger] r.events@[j]).id < r.visited),
            RunState::Halted(reason) => error_count(r.events@) == 1 && r.events@.len() >= 1
                && r.events@.last().kind is Error && (reason matches HaltReason::UnknownCommand {
                step,
                command,
            } ==> r.events@.last().step@ == step@ && !reg@.contains_key(command@)) && (reason
                matches HaltReason::DanglingReference { step } ==> r.events@.last().step@ == step@
                && (forall|i: int|
                0 <= i < wf.steps@.len() ==> #[trigger] wf.steps@[i].0@ != step@)) && (reason
                matches HaltReason::NoConditionMatched { step } ==> r.events@.last().step@
                == step@ && (exists|i: int|
                0 <= i < wf.steps@.len() && #[trigger] wf.steps@[i].0@ == step@ && (wf.steps@[i].1
                    matches Step::Condition { conditions } && (forall|j: int|
                    0 <= j < conditions@.len() ==> (#[trigger] conditions@[j]).exp@ != "else"@))))
                && (reason matches HaltReason::CommandFailed { step, cause }
                ==> r.events@.last().step@ == step@ && (exists|i: int|
                0 <= i < wf.steps@.len() && #[trigger] wf.steps@[i].0@ == step@ && (wf.steps@[i].1
                    matches Step::Command { command, .. } && reg@.contains_key(command@)))) && (
            reason
                matches HaltReason::LoopLimitExceeded ==> (r.visited as int == (
                wf.steps@.len() as int) * (loop_guard as int) || r.visited == u64::MAX)),
        },
{
    let mut events: Vec<Event> = Vec::new();
    let start_idx = match wf.find_start() {
        Some(i) => i,
        None => {
            events.push(
                Event {
                    id: 0,
                    kind: EventKind::Error,
                    step: String::new(),
                    message: String::from_str("workflow has no unique start step"),
                },
            );
            return RunResult {
                state: RunState::Halted(HaltReason::UnresolvedStart),
                visited: 0,
                events,
            };
        },
    };
    let len64: u64 = wf.steps.len() as u64;
    let budget: u64 = match len64.checked_mul(loop_guard) {
        Some(b) => b,
        None => u64::MAX,
    };
    proof {
        assert(budget as int <= (wf.steps@.len() as int) * (loop_guard as int));
    }
    let mut current: String = wf.steps[start_idx].0.clone();
    let mut visited: u64 = 0;
    loop
        invariant
            visited <= budget,
            budget as int <= (wf.steps@.len() as int) * (loop_guard as int),
            budget as int == (wf.steps@.len() as int) * (loop_guard as int) || budget == u64::MAX,
            start_count(wf.steps@) == 1,
            error_count(events@) == 0,
            forall|j: int| 0 <= j < events@.len() ==> (#[trigger] events@[j]).id < visited,
            forall|j: int, k: int|
                0 <= j <= k < events@.len() ==> (#[trigger] events@[j]).id <= (
                #[trigger] events@[k]).id,
            forall|e: Effect| #[trigger] call_requires(*io, (e,)),
        decreases budget - visited,
    {
        if visited >= budget {
            events.push(
                Event {
                    id: visited,
                    kind: EventKind::Error,
                    step: current,
                    message: String::from_str("loop limit exceeded"),
                },
            );
            return RunResult {
                state: RunState::Halted(HaltReason::LoopLimitExceeded),
                visited,
                events,
            };
        }
        let step = match wf.find_step(current.as_str()) {
            Some(s) => s,
            None => {
                let mut msg = String::from_str("dangling step reference: ");
                msg.append(current.as_str());
                events.push(
                    Event {
                        id: visited,
                        kind: EventKind::Error,
                        step: current.clone(),
                        message: msg,
                    },
                );
                return RunResult {
                    state: RunState::Halted(HaltReason::DanglingReference { step: current }),
                    visited,
                    events,
                };
            },
        };
        let (verdict, step_events) = execute_step(reg, ctx, &current, step, visited, io);
        let ghost pre = events@;
        let ghost stepevs = step_events@;
        let mut step_events = step_events;
        events.append(&mut step_events);
        proof {
            crate::event::lemma_error_count_add(pre, stepevs);
            assert(events@.last() == stepevs.last());
            assert forall|j: int|
                0 <= j < events@.len() implies (#[trigger] events@[j]).id <= visited by {
                if j < pre.len() {
                    assert(events@[j] == pre[j]);
                } else {
                    assert(events@[j] == stepevs[j - pre.len()]);
                }
            };
            assert forall|j: int, k: int|
                0 <= j <= k < events@.len() implies (#[trigger] events@[j]).id <= (
                #[trigger] events@[k]).id by {
                if k < pre.len() {
                    assert(events@[j] == pre[j]);
                    assert(events@[k] == pre[k]);
                } else {
                    assert(events@[k] == stepevs[k - pre.len()]);
                    assert(events@[k].id == visited);
                    if j < pre.len() {
                        assert(events@[j] == pre[j]);
                        assert(events@[j].id < visited);
                    } else {
                        assert(events@[j] == stepevs[j - pre.len()]);
                    }
                }
            };
        }
        match verdict {
            StepVerdict::Continue { next } => {
                visited = visited + 1;
                current = next;
            },
            StepVerdict::Finished => {
                visited = visited + 1;
                return RunResult { state: RunState::Completed, visited, events };
            },
            StepVerdict::Halt { reason } => {
                visited = visited + 1;
                return RunResult { state: RunState::Halted(reason), visited, events };
            },
        }
    }
}

} // verus!
