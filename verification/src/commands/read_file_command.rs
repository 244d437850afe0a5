//! The `ReadFile` command: evaluates its `path` input, asks the host for
//! the file's text, and reports `success`, `content` and `error`.

use vstd::prelude::*;
use vstd::string::*;
use crate::commands::{get_input, names_of, spec_input, CommandAction, WorkflowCommand};
use crate::effect::{Effect, IoOutcome};
use crate::value::{Value, ValueModel};

verus! {

/// The outputs a `ReadFile` invocation reports.
pub open spec fn read_file_output_names() -> Seq<Seq<char>> {
    seq!["success"@, "content"@, "error"@]
}

/// Prepares a `ReadFile` invocation from the evaluated `path` input.
pub fn prepare_read_file(vals: &Vec<(String, String)>) -> (r: Result<CommandAction, String>)
    ensures
        match r {
            Ok(a) => (a matches CommandAction::Io { effect: Effect::ReadFile { path } }
                && spec_input(vals@, "path"@) == Some(path@)),
            Err(_) => spec_input(vals@, "path"@) is None,
        },
{
    match get_input(vals, "path") {
        Some(p) => Ok(CommandAction::Io { effect: Effect::ReadFile { path: p.clone() } }),
        None => Err(String::from_str("missing required input: path")),
    }
}

/// The outputs of a `ReadFile` invocation for each outcome the host can
/// produce: a runtime read failure is captured in `success` and `error`,
/// never aborting the run.
pub fn outputs_read_file(outcome: &IoOutcome) -> (r: Vec<(String, Value)>)
    ensures
        names_of(r@) == read_file_output_names(),
        r@.len() == 3,
        match outcome {
            IoOutcome::Content(Ok(c)) => r@[0].1@ == ValueModel::Bool(true) && r@[1].1@
                == ValueModel::Str(c@) && r@[2].1@ == ValueModel::Str(Seq::<char>::empty()),
            IoOutcome::Content(Err(e)) => r@[0].1@ == ValueModel::Bool(false) && r@[1].1@
                == ValueModel::Str(Seq::<char>::empty()) && r@[2].1@ == ValueModel::Str(e@),
            _ => r@[0].1@ == ValueModel::Bool(false) && r@[1].1@ == ValueModel::Str(
                Seq::<char>::empty(),
            ) && r@[2].1@ == ValueModel::Str("unexpected outcome from host"@),
        },
{
    let mut outs: Vec<(String, Value)> = Vec::new();
    match outcome {
        IoOutcome::Content(Ok(c)) => {
            outs.push((String::from_str("success"), Value::Bool(true)));
            outs.push((String::from_str("content"), Value::Str(c.clone())));
            outs.push((String::from_str("error"), Value::Str(String::new())));
        },
        IoOutcome::Content(Err(e)) => {
            outs.push((String::from_str("success"), Value::Bool(false)));
            outs.push((String::from_str("content"), Value::Str(String::new())));
            outs.push((String::from_str("error"), Value::Str(e.clone())));
        },
        _ => {
            outs.push((String::from_str("success"), Value::Bool(false)));
            outs.push((String::from_str("content"), Value::Str(String::new())));
            outs.push((
                String::from_str("error"),
                Value::Str(String::from_str("unexpected outcome from host")),
            ));
        },
    }
    proof {
        assert(names_of(outs@) =~= read_file_output_names());
    }
    outs
}

/// The built-in handler behind the registry name `ReadFile`.
#[derive(Debug)]
pub struct ReadFileCommand;

impl WorkflowCommand for ReadFileCommand {
    open spec fn spec_name(&self) -> Seq<char> {
        "ReadFile"@
    }

    open spec fn spec_output_names(&self) -> Seq<Seq<char>> {
        read_file_output_names()
    }

    fn name(&self) -> (r: String) {
        proof {
            reveal_strlit("ReadFile");
        }
        String::from_str("ReadFile")
    }

    fn prepare(&self, vals: &Vec<(String, String)>) -> (r: Result<CommandAction, String>) {
        prepare_read_file(vals)
    }

    fn outputs(&self, outcome: &IoOutcome) -> (r: Vec<(String, Value)>) {
        outputs_read_file(outcome)
    }
}

} // verus!
