//! The `DeleteFile` command: evaluates its `path` input, asks the host to
//! remove the file, and reports `success` and `error`.

use vstd::prelude::*;
use vstd::string::*;
use crate::commands::{
    get_input, outputs_status, spec_input, status_output_names, CommandAction, WorkflowCommand,
};
use crate::effect::{Effect, IoOutcome};
use crate::value::Value;

verus! {

/// Prepares a `DeleteFile` invocation from the evaluated `path` input.
pub fn prepare_delete_file(vals: &Vec<(String, String)>) -> (r: Result<CommandAction, String>)
    ensures
        match r {
            Ok(a) => (a matches CommandAction::Io { effect: Effect::DeleteFile { path } }
                && spec_input(vals@, "path"@) == Some(path@)),
            Err(_) => spec_input(vals@, "path"@) is None,
        },
{
    match get_input(vals, "path") {
        Some(p) => Ok(CommandAction::Io { effect: Effect::DeleteFile { path: p.clone() } }),
        None => Err(String::from_str("missing required input: path")),
    }
}

/// The built-in handler behind the registry name `DeleteFile`.
#[derive(Debug)]
pub struct DeleteFileCommand;

impl WorkflowCommand for DeleteFileCommand {
    open spec fn spec_name(&self) -> Seq<char> {
        "DeleteFile"@
    }

    open spec fn spec_output_names(&self) -> Seq<Seq<char>> {
        status_output_names()
    }

    fn name(&self) -> (r: String) {
        proof {
            reveal_strlit("DeleteFile");
        }
        String::from_str("DeleteFile")
    }

    fn prepare(&self, vals: &Vec<(String, String)>) -> (r: Result<CommandAction, String>) {
        prepare_delete_file(vals)
    }

    fn outputs(&self, outcome: &IoOutcome) -> (r: Vec<(String, Value)>) {
        outputs_status(outcome)
    }
}

} // verus!
