//! The expression context: the mutable variable scope shared by every step of
//! one workflow run, wrapping the embedded expression evaluator.
//!
//! The context is modelled as a map from variable name to [`ValueModel`].
//! Expressions are evaluated by the rhai scripting engine against a fresh
//! scope holding the current variables, so a script cannot mutate the
//! context: variables change only through [`Context::set_variable`].

use vstd::prelude::*;
use vstd::string::*;
use crate::utils::str_eq;
use crate::value::{Value, ValueModel};

verus! {

/// Declares rhai::Engine to the verifier as an opaque type, so a context
/// can own the evaluator it wraps.
#[verifier::external_type_specification]
#[verifier::external_body]
pub struct ExEngine(rhai::Engine);

/// Relies on rhai::Engine::new: builds the scripting engine with its standard
/// operator and function packages.
#[verifier::external_body]
fn new_engine() -> rhai::Engine {
    rhai::Engine::new()
}

/// Relies on rhai::Engine::eval_with_scope::<bool>: runs the script with the
/// given variables bound in a fresh scope and returns its boolean result; a
/// parse failure, an evaluation failure or a non-boolean result comes back as
/// `Err`.  Scripts may consult engine state beyond the arguments, so nothing
/// is claimed of the result.
#[verifier::external_body]
fn eval_bool_raw(engine: &rhai::Engine, vars: &Vec<(String, Value)>, expr: &str) -> Result<
    bool,
    String,
> {
    let mut scope = rhai::Scope::new();
    for (name, value) in vars.iter() {
        match value {
            Value::Null => scope.push(name.clone(), ()),
            Value::Bool(b) => scope.push(name.clone(), *b),
            Value::Int(i) => scope.push(name.clone(), *i),
            Value::Str(s) => scope.push(name.clone(), s.clone()),
        };
    }
    engine.eval_with_scope::<bool>(&mut scope, expr).map_err(|e| e.to_string())
}

/// Relies on rhai::Engine::eval_with_scope::<String>: as `eval_bool_raw`, but
/// for a string result.
#[verifier::external_body]
fn eval_str_raw(engine: &rhai::Engine, vars: &Vec<(String, Value)>, expr: &str) -> Result<
    String,
    String,
> {
    let mut scope = rhai::Scope::new();
    for (name, value) in vars.iter() {
        match value {
            Value::Null => scope.push(name.clone(), ()),
            Value::Bool(b) => scope.push(name.clone(), *b),
            Value::Int(i) => scope.push(name.clone(), *i),
            Value::Str(s) => scope.push(name.clone(), s.clone()),
        };
    }
    engine.eval_with_scope::<String>(&mut scope, expr).map_err(|e| e.to_string())
}

/// The variable bindings of a run, read back as a map.
pub open spec fn vars_map(s: Seq<(String, Value)>) -> Map<Seq<char>, ValueModel>
    decreases s.len(),
{
    if s.len() == 0 {
        Map::empty()
    } else {
        vars_map(s.drop_last()).insert(s.last().0@, s.last().1@)
    }
}

/// No two bindings carry the same variable name.
pub open spec fn keys_unique(s: Seq<(String, Value)>) -> bool {
    forall|i: int, j: int| 0 <= i < j < s.len() ==> s[i].0@ != s[j].0@
}

proof fn lemma_vars_map_index(s: Seq<(String, Value)>, i: int)
    requires
        keys_unique(s),
        0 <= i < s.len(),
    ensures
        vars_map(s).contains_key(s[i].0@),
        vars_map(s)[s[i].0@] == s[i].1@,
    decreases s.len(),
{
    if i < s.len() - 1 {
        assert(s.drop_last()[i] == s[i]);
        lemma_vars_map_index(s.drop_last(), i);
    }
}

proof fn lemma_vars_map_absent(s: Seq<(String, Value)>, k: Seq<char>)
    requires
        forall|i: int| 0 <= i < s.len() ==> s[i].0@ != k,
    ensures
        !vars_map(s).contains_key(k),
    decreases s.len(),
{
    if s.len() > 0 {
        lemma_vars_map_absent(s.drop_last(), k);
    }
}

proof fn lemma_vars_map_update(s: Seq<(String, Value)>, i: int, p: (String, Value))
    requires
        keys_unique(s),
        0 <= i < s.len(),
        p.0@ == s[i].0@,
    ensures
        vars_map(s.update(i, p)) == vars_map(s).insert(p.0@, p.1@),
    decreases s.len(),
{
    let t = s.update(i, p);
    assert(t.len() == s.len());
    if i == s.len() - 1 {
        assert(t.drop_last() =~= s.drop_last());
        assert(vars_map(t) == vars_map(s.drop_last()).insert(p.0@, p.1@));
        assert(vars_map(s.drop_last()).insert(p.0@, p.1@) =~= vars_map(s).insert(p.0@, p.1@));
    } else {
        assert(t.drop_last() =~= s.drop_last().update(i, p));
        assert(s.drop_last()[i] == s[i]);
        lemma_vars_map_update(s.drop_last(), i, p);
        assert(t.last() == s.last());
        assert(vars_map(t) == vars_map(s.drop_last()).insert(p.0@, p.1@).insert(
            s.last().0@,
            s.last().1@,
        ));
        assert(s[s.len() - 1].0@ != s[i].0@);
        assert(vars_map(s.drop_last()).insert(p.0@, p.1@).insert(s.last().0@, s.last().1@)
            =~= vars_map(s).insert(p.0@, p.1@));
    }
}

/// The index of the first binding named `name`, or the length when none is.
fn find_key(vars: &Vec<(String, Value)>, name: &str) -> (r: usize)
    ensures
        r <= vars@.len(),
        r < vars@.len() ==> vars@[r as int].0@ == name@,
        forall|j: int| 0 <= j < r ==> vars@[j].0@ != name@,
{
    let n = vars.len();
    for i in 0..n
        invariant
            n == vars@.len(),
            forall|j: int| 0 <= j < i ==> vars@[j].0@ != name@,
    {
        if str_eq(vars[i].0.as_str(), name) {
            return i;
        }
    }
    n
}

/// The mutable variable scope of one workflow run.  It owns the embedded
/// expression evaluator; evaluation reads the variables and never writes
/// them.
pub struct Context {
    vars: Vec<(String, Value)>,
    engine: rhai::Engine,
}

impl View for Context {
    type V = Map<Seq<char>, ValueModel>;

    closed spec fn view(&self) -> Map<Seq<char>, ValueModel> {
        vars_map(self.vars@)
    }
}

impl Context {
    #[verifier::type_invariant]
    spec fn inv(self) -> bool {
        keys_unique(self.vars@)
    }

    /// An empty context: no variable is bound.
    pub fn new() -> (r: Context)
        ensures
            r@ == Map::<Seq<char>, ValueModel>::empty(),
    {
        Context { vars: Vec::new(), engine: new_engine() }
    }

    /// A context seeded from workflow inputs, later bindings of a repeated
    /// name overwriting earlier ones.
    pub fn with_inputs(inputs: &Vec<(String, Value)>) -> (r: Context)
        ensures
            r@ == vars_map(inputs@),
    {
        let mut ctx = Context::new();
        let n = inputs.len();
        for i in 0..n
            invariant
                n == inputs@.len(),
                ctx@ == vars_map(inputs@.take(i as int)),
        {
            proof {
                assert(inputs@.take(i + 1).drop_last() =~= inputs@.take(i as int));
                assert(inputs@.take(i + 1).last() == inputs@[i as int]);
            }
            ctx.set_variable(inputs[i].0.as_str(), inputs[i].1.duplicate());
        }
        proof {
            assert(inputs@.take(n as int) =~= inputs@);
        }
        ctx
    }

    /// Binds `name` to `value`, overwriting any prior binding of that name.
    pub fn set_variable(&mut self, name: &str, value: Value)
        ensures
            final(self)@ == old(self)@.insert(name@, value@),
    {
        proof {
            use_type_invariant(&*self);
        }
        let mut vars: Vec<(String, Value)> = Vec::new();
        core::mem::swap(&mut self.vars, &mut vars);
        let ghost orig = vars@;
        let i = find_key(&vars, name);
        if i < vars.len() {
            vars.set(i, (String::from_str(name), value));
            proof {
                lemma_vars_map_update(orig, i as int, vars@[i as int]);
            }
        } else {
            vars.push((String::from_str(name), value));
            proof {
                assert(vars@.drop_last() =~= orig);
            }
        }
        core::mem::swap(&mut self.vars, &mut vars);
    }

    /// Looks a variable up; `None` exactly when the name is unbound.
    pub fn get_variable(&self, name: &str) -> (r: Option<&Value>)
        ensures
            match r {
                Some(v) => self@.contains_key(name@) && v@ == self@[name@],
                None => !self@.contains_key(name@),
            },
    {
        proof {
            use_type_invariant(self);
        }
        let i = find_key(&self.vars, name);
        if i < self.vars.len() {
            proof {
                lemma_vars_map_index(self.vars@, i as int);
            }
            Some(&self.vars[i].1)
        } else {
            proof {
                lemma_vars_map_absent(self.vars@, name@);
            }
            None
        }
    }

    /// Evaluates a condition expression against the current variables.  The
    /// outcome is whatever the embedded evaluator produced; the variables are
    /// untouched.
    pub fn evaluate_bool(&self, expr: &str) -> Result<bool, String> {
        eval_bool_raw(&self.engine, &self.vars, expr)
    }

    /// Evaluates a string-producing expression against the current variables.
    pub fn evaluate_str(&self, expr: &str) -> Result<String, String> {
        eval_str_raw(&self.engine, &self.vars, expr)
    }
}

} // verus!
