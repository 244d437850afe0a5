//! The `AppendFile` command: evaluates its `path` and `text` inputs, asks
//! the host to append to the file (creating it when absent), and reports
//! `success` and `error`.

use vstd::prelude::*;
use vstd::string::*;
use crate::commands::{
    get_input, outputs_status, spec_input, status_output_names, CommandAction, WorkflowCommand,
};
use crate::effect::{Effect, IoOutcome};
use crate::value::Value;

verus! {

/// Prepares an `AppendFile` invocation from the evaluated `path` and `text`
/// inputs.
pub fn prepare_append_file(vals: &Vec<(String, String)>) -> (r: Result<CommandAction, String>)
    ensures
        match r {
            Ok(a) => (a matches CommandAction::Io { effect: Effect::AppendFile { path, content } }
                && spec_input(vals@, "path"@) == Some(path@) && spec_input(vals@, "text"@) == Some(
                content@,
            )),
            Err(_) => spec_input(vals@, "path"@) is None || spec_input(vals@, "text"@) is None,
        },
{
    let path = match get_input(vals, "path") {
        Some(p) => p.clone(),
        None => {
            return Err(String::from_str("missing required input: path"));
        },
    };
    let content = match get_input(vals, "text") {
        Some(t) => t.clone(),
        None => {
            return Err(String::from_str("missing required input: text"));
        },
    };
    Ok(CommandAction::Io { effect: Effect::AppendFile { path, content } })
}

/// The built-in handler behind the registry name `AppendFile`.
#[derive(Debug)]
pub struct AppendFileCommand;

impl WorkflowCommand for AppendFileCommand {
    open spec fn spec_name(&self) -> Seq<char> {
        "AppendFile"@
    }

    open spec fn spec_output_names(&self) -> Seq<Seq<char>> {
        status_output_names()
    }

    fn name(&self) -> (r: String) {
        proof {
            reveal_strlit("AppendFile");
        }
        String::from_str("AppendFile")
    }

    fn prepare(&self, vals: &Vec<(String, String)>) -> (r: Result<CommandAction, String>) {
        prepare_append_file(vals)
    }

    fn outputs(&self, outcome: &IoOutcome) -> (r: Vec<(String, Value)>) {
        outputs_status(outcome)
    }
}

} // verus!
