//! The `WriteFile` command: evaluates its `path` and `text` inputs, asks
//! the host to write the file, and reports `success` and `error`.

use vstd::prelude::*;
use vstd::string::*;
use crate::commands::{
    get_input, outputs_status, spec_input, status_output_names, CommandAction, WorkflowCommand,
};
use crate::effect::{Effect, IoOutcome};
use crate::value::Value;

verus! {

/// Prepares a `WriteFile` invocation from the evaluated `path` and `text`
/// inputs.
pub fn prepare_write_file(vals: &Vec<(String, String)>) -> (r: Result<CommandAction, String>)
    ensures
        match r {
            Ok(a) => (a matches CommandAction::Io { effect: Effect::WriteFile { path, content } }
                && spec_input(vals@, "path"@) == Some(path@) && spec_input(vals@, "text"@) == Some(
                content@,
            )),
            Err(_) => spec_input(vals@, "path"@) is None || spec_input(vals@, "text"@) is None,
        },
{
    let path = match get_input(vals, "path") {
        Some(p) => p.clone(),
        None => {
            return Err(String::from_str("missing required input: path"));
        },
    };
    let content = match get_input(vals, "text") {
        Some(t) => t.clone(),
        None => {
            return Err(String::from_str("missing required input: text"));
        },
    };
    Ok(CommandAction::Io { effect: Effect::WriteFile { path, content } })
}

/// The built-in handler behind the registry name `WriteFile`.
#[derive(Debug)]
pub struct WriteFileCommand;

impl WorkflowCommand for WriteFileCommand {
    open spec fn spec_name(&self) -> Seq<char> {
        "WriteFile"@
    }

    open spec fn spec_output_names(&self) -> Seq<Seq<char>> {
        status_output_names()
    }

    fn name(&self) -> (r: String) {
        proof {
            reveal_strlit("WriteFile");
        }
        String::from_str("WriteFile")
    }

    fn prepare(&self, vals: &Vec<(String, String)>) -> (r: Result<CommandAction, String>) {
        prepare_write_file(vals)
    }

    fn outputs(&self, outcome: &IoOutcome) -> (r: Vec<(String, Value)>) {
        outputs_status(outcome)
    }
}

} // verus!
