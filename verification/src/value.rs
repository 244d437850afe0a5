//! The primitive value domain of a workflow run.
//!
//! Workflow inputs and context variables range over null, booleans, signed
//! integers and strings.  Null is an explicit marker, not an empty string;
//! non-integral numbers from a workflow document are carried by their decimal
//! rendering as strings, a choice the loader makes before values reach this
//! library.

use vstd::prelude::*;

verus! {

/// The mathematical model of a [`Value`]: the same four variants over
/// unbounded integers and character sequences.
pub enum ValueModel {
    Null,
    Bool(bool),
    Int(int),
    Str(Seq<char>),
}

/// A primitive workflow value: the type of workflow inputs, of context
/// variables, and of command outputs.
#[derive(Debug)]
pub enum Value {
    Null,
    Bool(bool),
    Int(i64),
    Str(String),
}

impl View for Value {
    type V = ValueModel;

    open spec fn view(&self) -> ValueModel {
        match self {
            Value::Null => ValueModel::Null,
            Value::Bool(b) => ValueModel::Bool(*b),
            Value::Int(i) => ValueModel::Int(*i as int),
            Value::Str(s) => ValueModel::Str(s@),
        }
    }
}

impl Value {
    /// An explicit copy; the copy denotes the same model value.
    pub fn duplicate(&self) -> (r: Value)
        ensures
            r@ == self@,
    {
        match self {
            Value::Null => Value::Null,
            Value::Bool(b) => Value::Bool(*b),
            Value::Int(i) => Value::Int(*i),
            Value::Str(s) => Value::Str(s.clone()),
        }
    }
}

} // verus!
