//! A verified workflow interpreter: a declarative graph of named steps is
//! walked from its unique `Start` step, branching on evaluated conditions and
//! dispatching named commands, until an `End` step or a classified halt.
//!
//! The step-transition state machine, the variable context threaded across
//! steps, and the command dispatch contract are verified; expression
//! evaluation is delegated to an embedded scripting engine behind a narrow
//! trusted boundary, and file or network effects are handed to the host as
//! plain requests.

pub mod commands;
pub mod context;
pub mod effect;
pub mod engine;
pub mod event;
pub mod utils;
pub mod value;
pub mod workflow;

pub use value::Value;
