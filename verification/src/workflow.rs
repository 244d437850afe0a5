//! The static workflow graph: named steps connected by explicit `next`
//! references.
//!
//! A graph has exactly one `Start` step and any number of `End` steps; the
//! engine resolves references lazily, so a dangling `next` is detected the
//! moment it would be followed.  Steps are addressed by name; a document
//! loader that numbers its steps simply uses the rendered index as the name.

use vstd::prelude::*;
use crate::utils::str_eq;
use crate::value::Value;

verus! {

/// Credentials for basic authentication on an HTTP request.
#[derive(Debug)]
pub struct BasicAuth {
    pub username: String,
    pub password: String,
}

/// One clause of a `Condition` step: an expression and the step to follow
/// when the expression is the first to hold.  The literal expression `else`
/// always holds.
#[derive(Debug)]
pub struct Condition {
    pub exp: String,
    pub next: String,
}

/// One node of the workflow graph.
#[derive(Debug)]
pub enum Step {
    /// The entry point; exactly one per workflow.
    Start { next: String },
    /// Clean termination.
    End,
    /// Branching: clauses are tried strictly in order and the first that
    /// holds selects the successor; no match halts the run.
    Condition { conditions: Vec<Condition> },
    /// A named command from the registry.  `inputs` maps each parameter name
    /// to an expression evaluated immediately before dispatch; `outputs`
    /// renames a command result before it is bound in the context, results
    /// it does not mention keeping their own names.
    Command {
        command: String,
        inputs: Vec<(String, String)>,
        outputs: Vec<(String, String)>,
        next: String,
    },
}

/// A workflow document: a name, initial variable bindings, and the step
/// collection keyed by step name.
#[derive(Debug)]
pub struct Workflow {
    pub name: String,
    pub inputs: Vec<(String, Value)>,
    pub steps: Vec<(String, Step)>,
}

/// How many steps of `s` are `Start` steps.
pub open spec fn start_count(s: Seq<(String, Step)>) -> nat
    decreases s.len(),
{
    if s.len() == 0 {
        0
    } else {
        start_count(s.drop_last()) + (if s.last().1 is Start {
            1nat
        } else {
            0nat
        })
    }
}

impl Workflow {
    /// Resolves a step name to its first matching step, or `None` when the
    /// reference dangles.
    pub fn find_step<'a>(&'a self, name: &str) -> (r: Option<&'a Step>)
        ensures
            match r {
                Some(s) => exists|i: int|
                    0 <= i < self.steps@.len() && #[trigger] self.steps@[i].0@ == name@ && *s
                        == self.steps@[i].1,
                None => forall|i: int|
                    0 <= i < self.steps@.len() ==> #[trigger] self.steps@[i].0@ != name@,
            },
    {
        let n = self.steps.len();
        for i in 0..n
            invariant
                n == self.steps@.len(),
                forall|j: int| 0 <= j < i ==> #[trigger] self.steps@[j].0@ != name@,
        {
            if str_eq(self.steps[i].0.as_str(), name) {
                return Some(&self.steps[i].1);
            }
        }
        None
    }

    /// Resolves the unique `Start` step, or `None` when the workflow has no
    /// `Start` step or more than one.
    pub fn find_start(&self) -> (r: Option<usize>)
        ensures
            match r {
                Some(i) => start_count(self.steps@) == 1 && i < self.steps@.len()
                    && self.steps@[i as int].1 is Start,
                None => start_count(self.steps@) != 1,
            },
    {
        let n = self.steps.len();
        let mut found: usize = 0;
        let mut cnt: usize = 0;
        for i in 0..n
            invariant
                n == self.steps@.len(),
                cnt == start_count(self.steps@.take(i as int)),
                cnt <= i,
                cnt >= 1 ==> found < i && self.steps@[found as int].1 is Start,
        {
            proof {
                assert(self.steps@.take(i + 1).drop_last() =~= self.steps@.take(i as int));
                assert(self.steps@.take(i + 1).last() == self.steps@[i as int]);
            }
            match &self.steps[i].1 {
                Step::Start { .. } => {
                    if cnt == 0 {
                        found = i;
                    }
                    cnt = cnt + 1;
                },
                _ => {},
            }
        }
        proof {
            assert(self.steps@.take(n as int) =~= self.steps@);
        }
        if cnt == 1 {
            Some(found)
        } else {
            None
        }
    }
}

} // verus!
