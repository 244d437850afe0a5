//! The pluggable command layer: named, side-effecting units of work invoked
//! from `Command` steps.
//!
//! A command receives its configured inputs as expressions, already
//! evaluated against the context, and decides either to emit a log message
//! or to request one external effect; the host's outcome is then turned
//! into the command's declared outputs.  The registry maps command names to
//! the built-in implementations and is immutable once built.

use vstd::prelude::*;
use vstd::string::*;
use crate::context::Context;
use crate::effect::{Effect, IoOutcome};
use crate::utils::str_eq;
use crate::value::Value;

pub mod append_file_command;
pub mod delete_file_command;
pub mod log_command;
pub mod read_file_command;
pub mod rest_api_command;
pub mod write_file_command;

verus! {

/// The first value configured under `key`, or `None` when the inputs do not
/// mention it.
pub open spec fn spec_input(vals: Seq<(String, String)>, key: Seq<char>) -> Option<Seq<char>>
    decreases vals.len(),
{
    if vals.len() == 0 {
        None
    } else if vals[0].0@ == key {
        Some(vals[0].1@)
    } else {
        spec_input(vals.drop_first(), key)
    }
}

/// The names of a command's outputs, in the order they are reported.
pub open spec fn names_of(outs: Seq<(String, Value)>) -> Seq<Seq<char>> {
    outs.map_values(|p: (String, Value)| p.0@)
}

/// Looks a named input up among the evaluated inputs of a step.
pub fn get_input<'a>(vals: &'a Vec<(String, String)>, key: &str) -> (r: Option<&'a String>)
    ensures
        match r {
            Some(s) => spec_input(vals@, key@) == Some(s@),
            None => spec_input(vals@, key@) is None,
        },
{
    let n = vals.len();
    proof {
        assert(vals@.skip(0) =~= vals@);
    }
    for i in 0..n
        invariant
            n == vals@.len(),
            spec_input(vals@, key@) == spec_input(vals@.skip(i as int), key@),
    {
        proof {
            assert(vals@.skip(i as int)[0] == vals@[i as int]);
            assert(vals@.skip(i as int).drop_first() =~= vals@.skip(i + 1));
        }
        if str_eq(vals[i].0.as_str(), key) {
            return Some(&vals[i].1);
        }
    }
    None
}

/// Evaluates every configured input expression against the context, in
/// order.  The first evaluation failure fails the whole step, a
/// configuration-class error; on success the input names are kept as
/// configured, each now bound to the string its expression produced.
pub fn eval_inputs(ctx: &Context, inputs: &Vec<(String, String)>) -> (r: Result<
    Vec<(String, String)>,
    String,
>)
    ensures
        match r {
            Ok(vals) => vals@.len() == inputs@.len() && forall|i: int|
                0 <= i < vals@.len() ==> #[trigger] vals@[i].0@ == inputs@[i].0@,
            Err(_) => inputs@.len() > 0,
        },
{
    let mut vals: Vec<(String, String)> = Vec::new();
    let n = inputs.len();
    for i in 0..n
        invariant
            n == inputs@.len(),
            vals@.len() == i,
            forall|j: int| 0 <= j < i ==> #[trigger] vals@[j].0@ == inputs@[j].0@,
    {
        match ctx.evaluate_str(inputs[i].1.as_str()) {
            Ok(v) => {
                vals.push((inputs[i].0.clone(), v));
            },
            Err(e) => {
                let mut m = String::from_str("failed to evaluate input ");
                m.append(inputs[i].0.as_str());
                m.append(": ");
                m.append(e.as_str());
                return Err(m);
            },
        }
    }
    Ok(vals)
}

/// The outputs of the commands that report a bare success flag.
pub open spec fn status_output_names() -> Seq<Seq<char>> {
    seq!["success"@, "error"@]
}

/// Turns the host's outcome of a write-style effect into `success` and
/// `error` outputs: a runtime failure is captured, never aborting the run.
pub fn outputs_status(outcome: &IoOutcome) -> (r: Vec<(String, Value)>)
    ensures
        names_of(r@) == status_output_names(),
        r@.len() == 2,
        match outcome {
            IoOutcome::Done(Ok(_)) => r@[0].1@ == crate::value::ValueModel::Bool(true) && r@[1].1@
                == crate::value::ValueModel::Str(Seq::<char>::empty()),
            IoOutcome::Done(Err(e)) => r@[0].1@ == crate::value::ValueModel::Bool(false)
                && r@[1].1@ == crate::value::ValueModel::Str(e@),
            _ => r@[0].1@ == crate::value::ValueModel::Bool(false) && r@[1].1@
                == crate::value::ValueModel::Str("unexpected outcome from host"@),
        },
{
    let mut outs: Vec<(String, Value)> = Vec::new();
    match outcome {
        IoOutcome::Done(Ok(_)) => {
            outs.push((String::from_str("success"), Value::Bool(true)));
            outs.push((String::from_str("error"), Value::Str(String::new())));
        },
        IoOutcome::Done(Err(e)) => {
            outs.push((String::from_str("success"), Value::Bool(false)));
            outs.push((String::from_str("error"), Value::Str(e.clone())));
        },
        _ => {
            outs.push((String::from_str("success"), Value::Bool(false)));
            outs.push((
                String::from_str("error"),
                Value::Str(String::from_str("unexpected outcome from host")),
            ));
        },
    }
    proof {
        assert(names_of(outs@) =~= status_output_names());
    }
    outs
}

/// What a prepared command asks of the engine: echo a log message, or hand
/// an effect to the host.
#[derive(Debug)]
pub enum CommandAction {
    Emit { message: String },
    Io { effect: Effect },
}

/// Selects one built-in command implementation.
#[derive(Debug, Clone, Copy, PartialEq, Eq, Structural)]
pub enum CommandKind {
    Log,
    ReadFile,
    WriteFile,
    AppendFile,
    DeleteFile,
    RestApi,
}

/// The names of the outputs each built-in command reports, in order.
pub open spec fn output_names_of(kind: CommandKind) -> Seq<Seq<char>> {
    match kind {
        CommandKind::Log => log_command::log_output_names(),
        CommandKind::ReadFile => read_file_command::read_file_output_names(),
        CommandKind::WriteFile => status_output_names(),
        CommandKind::AppendFile => status_output_names(),
        CommandKind::DeleteFile => status_output_names(),
        CommandKind::RestApi => rest_api_command::rest_api_output_names(),
    }
}

/// The contract every step-kind handler satisfies: a stable non-empty name
/// for the registry, input preparation, and outputs under declared names.
pub trait WorkflowCommand {
    /// The registry key.
    spec fn spec_name(&self) -> Seq<char>;

    /// The names of the outputs the command reports, in order.
    spec fn spec_output_names(&self) -> Seq<Seq<char>>;

    /// The registry key, stable and non-empty.
    fn name(&self) -> (r: String)
        ensures
            r@ == self.spec_name(),
            r@.len() > 0,
    ;

    /// Resolves the command's inputs from the evaluated step configuration;
    /// a missing required input or an unusable value is a configuration
    /// error that halts the run.
    fn prepare(&self, vals: &Vec<(String, String)>) -> (r: Result<CommandAction, String>);

    /// Turns the host's outcome into the command's outputs; every declared
    /// output name is reported on every outcome.
    fn outputs(&self, outcome: &IoOutcome) -> (r: Vec<(String, Value)>)
        ensures
            names_of(r@) == self.spec_output_names(),
    ;
}

/// The registered commands, read back as a map from name to implementation.
pub open spec fn reg_map(s: Seq<(String, CommandKind)>) -> Map<Seq<char>, CommandKind>
    decreases s.len(),
{
    if s.len() == 0 {
        Map::empty()
    } else {
        reg_map(s.drop_last()).insert(s.last().0@, s.last().1)
    }
}

/// No command name is registered twice.
pub open spec fn reg_keys_unique(s: Seq<(String, CommandKind)>) -> bool {
    forall|i: int, j: int| 0 <= i < j < s.len() ==> s[i].0@ != s[j].0@
}

proof fn lemma_reg_map_index(s: Seq<(String, CommandKind)>, i: int)
    requires
        reg_keys_unique(s),
        0 <= i < s.len(),
    ensures
        reg_map(s).contains_key(s[i].0@),
        reg_map(s)[s[i].0@] == s[i].1,
    decreases s.len(),
{
    if i < s.len() - 1 {
        assert(s.drop_last()[i] == s[i]);
        lemma_reg_map_index(s.drop_last(), i);
    }
}

proof fn lemma_reg_map_absent(s: Seq<(String, CommandKind)>, k: Seq<char>)
    requires
        forall|i: int| 0 <= i < s.len() ==> s[i].0@ != k,
    ensures
        !reg_map(s).contains_key(k),
    decreases s.len(),
{
    if s.len() > 0 {
        lemma_reg_map_absent(s.drop_last(), k);
    }
}

proof fn lemma_reg_map_update(s: Seq<(String, CommandKind)>, i: int, p: (String, CommandKind))
    requires
        reg_keys_unique(s),
        0 <= i < s.len(),
        p.0@ == s[i].0@,
    ensures
        reg_map(s.update(i, p)) == reg_map(s).insert(p.0@, p.1),
    decreases s.len(),
{
    let t = s.update(i, p);
    if i == s.len() - 1 {
        assert(t.drop_last() =~= s.drop_last());
        assert(reg_map(s.drop_last()).insert(p.0@, p.1) =~= reg_map(s).insert(p.0@, p.1));
    } else {
        assert(t.drop_last() =~= s.drop_last().update(i, p));
        assert(s.drop_last()[i] == s[i]);
        lemma_reg_map_update(s.drop_last(), i, p);
        assert(t.last() == s.last());
        assert(s[s.len() - 1].0@ != s[i].0@);
        assert(reg_map(s.drop_last()).insert(p.0@, p.1).insert(s.last().0@, s.last().1)
            =~= reg_map(s).insert(p.0@, p.1));
    }
}

/// The index of the first entry named `name`, or the length when none is.
fn reg_find(entries: &Vec<(String, CommandKind)>, name: &str) -> (r: usize)
    ensures
        r <= entries@.len(),
        r < entries@.len() ==> entries@[r as int].0@ == name@,
        forall|j: int| 0 <= j < r ==> entries@[j].0@ != name@,
{
    let n = entries.len();
    for i in 0..n
        invariant
            n == entries@.len(),
            forall|j: int| 0 <= j < i ==> entries@[j].0@ != name@,
    {
        if str_eq(entries[i].0.as_str(), name) {
            return i;
        }
    }
    n
}

/// The immutable mapping from command name to implementation, built once
/// before any run starts.
pub struct CommandRegistry {
    entries: Vec<(String, CommandKind)>,
}

impl View for CommandRegistry {
    type V = Map<Seq<char>, CommandKind>;

    closed spec fn view(&self) -> Map<Seq<char>, CommandKind> {
        reg_map(self.entries@)
    }
}

impl CommandRegistry {
    #[verifier::type_invariant]
    spec fn inv(self) -> bool {
        reg_keys_unique(self.entries@)
    }

    /// An empty registry.
    pub fn new() -> (r: CommandRegistry)
        ensures
            r@ == Map::<Seq<char>, CommandKind>::empty(),
    {
        CommandRegistry { entries: Vec::new() }
    }

    /// Registers `kind` under `name`, replacing any prior entry of that
    /// name.
    pub fn register(&mut self, name: &str, kind: CommandKind)
        ensures
            final(self)@ == old(self)@.insert(name@, kind),
    {
        proof {
            use_type_invariant(&*self);
        }
        let mut entries: Vec<(String, CommandKind)> = Vec::new();
        core::mem::swap(&mut self.entries, &mut entries);
        let ghost orig = entries@;
        let i = reg_find(&entries, name);
        if i < entries.len() {
            entries.set(i, (String::from_str(name), kind));
            proof {
                lemma_reg_map_update(orig, i as int, entries@[i as int]);
            }
        } else {
            entries.push((String::from_str(name), kind));
            proof {
                assert(entries@.drop_last() =~= orig);
            }
        }
        core::mem::swap(&mut self.entries, &mut entries);
    }

    /// Resolves a command name; `None` exactly when nothing is registered
    /// under it.
    pub fn lookup(&self, name: &str) -> (r: Option<CommandKind>)
        ensures
            match r {
                Some(k) => self@.contains_key(name@) && self@[name@] == k,
                None => !self@.contains_key(name@),
            },
    {
        proof {
            use_type_invariant(self);
        }
        let i = reg_find(&self.entries, name);
        if i < self.entries.len() {
            proof {
                lemma_reg_map_index(self.entries@, i as int);
            }
            Some(self.entries[i].1)
        } else {
            proof {
                lemma_reg_map_absent(self.entries@, name@);
            }
            None
        }
    }
}

/// The registry of every built-in command under its documented name.
pub fn register_default_commands() -> (r: CommandRegistry)
    ensures
        r@ == Map::<Seq<char>, CommandKind>::empty().insert("Log"@, CommandKind::Log).insert(
            "WriteFile"@,
            CommandKind::WriteFile,
        ).insert("ReadFile"@, CommandKind::ReadFile).insert(
            "AppendFile"@,
            CommandKind::AppendFile,
        ).insert("DeleteFile"@, CommandKind::DeleteFile).insert("RestApi"@, CommandKind::RestApi),
{
    let mut registry = CommandRegistry::new();
    registry.register("Log", CommandKind::Log);
    registry.register("WriteFile", CommandKind::WriteFile);
    registry.register("ReadFile", CommandKind::ReadFile);
    registry.register("AppendFile", CommandKind::AppendFile);
    registry.register("DeleteFile", CommandKind::DeleteFile);
    registry.register("RestApi", CommandKind::RestApi);
    registry
}

} // verus!
