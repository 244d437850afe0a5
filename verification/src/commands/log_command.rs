//! The `Log` command: evaluates its `message` input, has the engine emit a
//! `log` event carrying it, and echoes it under the `message` output.

use vstd::prelude::*;
use vstd::string::*;
use crate::commands::{get_input, names_of, spec_input, CommandAction, WorkflowCommand};
use crate::effect::IoOutcome;
use crate::value::{Value, ValueModel};

verus! {

/// The outputs a `Log` invocation reports: the echoed message.
pub open spec fn log_output_names() -> Seq<Seq<char>> {
    seq!["message"@]
}

/// Prepares a `Log` invocation from the evaluated `message` input.
pub fn prepare_log(vals: &Vec<(String, String)>) -> (r: Result<CommandAction, String>)
    ensures
        match r {
            Ok(a) => (a matches CommandAction::Emit { message } && spec_input(vals@, "message"@)
                == Some(message@)),
            Err(_) => spec_input(vals@, "message"@) is None,
        },
{
    match get_input(vals, "message") {
        Some(m) => Ok(CommandAction::Emit { message: m.clone() }),
        None => Err(String::from_str("missing required input: message")),
    }
}

/// The outputs of a `Log` invocation: the message, under `message`.
pub fn outputs_log(message: &String) -> (r: Vec<(String, Value)>)
    ensures
        names_of(r@) == log_output_names(),
        r@.len() == 1,
        r@[0].1@ == ValueModel::Str(message@),
{
    let mut outs: Vec<(String, Value)> = Vec::new();
    outs.push((String::from_str("message"), Value::Str(message.clone())));
    proof {
        assert(names_of(outs@) =~= log_output_names());
    }
    outs
}

/// The built-in handler behind the registry name `Log`.
#[derive(Debug)]
pub struct LogCommand;

impl WorkflowCommand for LogCommand {
    open spec fn spec_name(&self) -> Seq<char> {
        "Log"@
    }

    open spec fn spec_output_names(&self) -> Seq<Seq<char>> {
        log_output_names()
    }

    fn name(&self) -> (r: String) {
        proof {
            reveal_strlit("Log");
        }
        String::from_str("Log")
    }

    fn prepare(&self, vals: &Vec<(String, String)>) -> (r: Result<CommandAction, String>) {
        prepare_log(vals)
    }

    /// A `Log` invocation needs no host outcome; on a foreign outcome the
    /// echoed message is empty.
    fn outputs(&self, _outcome: &IoOutcome) -> (r: Vec<(String, Value)>) {
        outputs_log(&String::new())
    }
}

} // verus!
