//! The `RestApi` command: evaluates its `method`, `url` and optional
//! `body`, `auth_username` and `auth_password` inputs, gathers header and
//! query parameters from inputs named `header:<name>` and `query:<name>`,
//! asks the host to perform the request, and reports `success`, `status`
//! and `response`.
//!
//! An unsupported method is a configuration error that halts the run; a
//! network failure is a runtime failure captured in the outputs.

use vstd::prelude::*;
use vstd::string::*;
use crate::commands::{get_input, names_of, spec_input, CommandAction, WorkflowCommand};
use crate::effect::{Effect, HttpMethod, HttpRequest, IoOutcome};
use crate::value::{Value, ValueModel};
use crate::workflow::BasicAuth;

verus! {

/// The outputs a `RestApi` invocation reports.
pub open spec fn rest_api_output_names() -> Seq<Seq<char>> {
    seq!["success"@, "status"@, "response"@]
}

/// The character code of `c` with an upper-case ASCII letter folded to
/// lower case.
pub open spec fn lower_code(c: char) -> int {
    if 65 <= c as int && c as int <= 90 {
        c as int + 32
    } else {
        c as int
    }
}

/// `s` spells `t` up to ASCII case, `t` being already lower-case.
pub open spec fn folds_to(s: Seq<char>, t: Seq<char>) -> bool {
    s.len() == t.len() && forall|i: int| 0 <= i < s.len() ==> lower_code(s[i]) == t[i] as int
}

/// The request method named by `s`, compared case-insensitively; `None`
/// for an unsupported method.
pub open spec fn spec_method(s: Seq<char>) -> Option<HttpMethod> {
    if folds_to(s, "get"@) {
        Some(HttpMethod::Get)
    } else if folds_to(s, "post"@) {
        Some(HttpMethod::Post)
    } else if folds_to(s, "put"@) {
        Some(HttpMethod::Put)
    } else if folds_to(s, "delete"@) {
        Some(HttpMethod::Delete)
    } else if folds_to(s, "patch"@) {
        Some(HttpMethod::Patch)
    } else {
        None
    }
}

/// `p` is a prefix of `s`.
pub open spec fn has_prefix(s: Seq<char>, p: Seq<char>) -> bool {
    s.len() >= p.len() && forall|i: int| 0 <= i < p.len() ==> s[i] == p[i]
}

/// The inputs whose names carry the prefix `p`, each reduced to the name
/// behind the prefix, in configuration order.
pub open spec fn prefixed_of(vals: Seq<(String, String)>, p: Seq<char>) -> Seq<
    (Seq<char>, Seq<char>),
>
    decreases vals.len(),
{
    if vals.len() == 0 {
        Seq::empty()
    } else {
        prefixed_of(vals.drop_last(), p) + (if has_prefix(vals.last().0@, p) {
            seq![(vals.last().0@.skip(p.len() as int), vals.last().1@)]
        } else {
            Seq::empty()
        })
    }
}

/// String pairs read back at the specification level.
pub open spec fn pairs_view(v: Seq<(String, String)>) -> Seq<(Seq<char>, Seq<char>)> {
    v.map_values(|q: (String, String)| (q.0@, q.1@))
}

fn eq_fold(s: &str, t: &str) -> (r: bool)
    ensures
        r == folds_to(s@, t@),
{
    let sl = s.unicode_len();
    let tl = t.unicode_len();
    if sl != tl {
        return false;
    }
    for i in 0..sl
        invariant
            sl == s@.len(),
            tl == t@.len(),
            sl == tl,
            forall|j: int| 0 <= j < i ==> lower_code(s@[j]) == t@[j] as int,
    {
        let c = s.get_char(i) as u32;
        let d = t.get_char(i) as u32;
        let folded: u32 = if 65 <= c && c <= 90 {
            c + 32
        } else {
            c
        };
        if folded != d {
            return false;
        }
    }
    true
}

/// Classifies a method name, case-insensitively.
pub fn parse_method(s: &str) -> (r: Option<HttpMethod>)
    ensures
        r == spec_method(s@),
{
    if eq_fold(s, "get") {
        Some(HttpMethod::Get)
    } else if eq_fold(s, "post") {
        Some(HttpMethod::Post)
    } else if eq_fold(s, "put") {
        Some(HttpMethod::Put)
    } else if eq_fold(s, "delete") {
        Some(HttpMethod::Delete)
    } else if eq_fold(s, "patch") {
        Some(HttpMethod::Patch)
    } else {
        None
    }
}

fn starts_with_prefix(s: &str, p: &str) -> (r: bool)
    ensures
        r == has_prefix(s@, p@),
{
    let sl = s.unicode_len();
    let pl = p.unicode_len();
    if sl < pl {
        return false;
    }
    for i in 0..pl
        invariant
            sl == s@.len(),
            pl == p@.len(),
            pl <= sl,
            forall|j: int| 0 <= j < i ==> s@[j] == p@[j],
    {
        if s.get_char(i) != p.get_char(i) {
            return false;
        }
    }
    true
}

/// Gathers the inputs named under the prefix `p`, stripping it.
fn collect_prefixed(vals: &Vec<(String, String)>, p: &str) -> (r: Vec<(String, String)>)
    ensures
        pairs_view(r@) == prefixed_of(vals@, p@),
{
    let mut out: Vec<(String, String)> = Vec::new();
    let n = vals.len();
    for i in 0..n
        invariant
            n == vals@.len(),
            pairs_view(out@) == prefixed_of(vals@.take(i as int), p@),
    {
        proof {
            assert(vals@.take(i + 1).drop_last() =~= vals@.take(i as int));
            assert(vals@.take(i + 1).last() == vals@[i as int]);
        }
        if starts_with_prefix(vals[i].0.as_str(), p) {
            let pl = p.unicode_len();
            let nl = vals[i].0.as_str().unicode_len();
            let suffix = vals[i].0.as_str().substring_char(pl, nl);
            out.push((String::from_str(suffix), vals[i].1.clone()));
            proof {
                assert(suffix@ =~= vals@[i as int].0@.skip(p@.len() as int));
                assert(pairs_view(out@) =~= prefixed_of(vals@.take(i + 1), p@));
            }
        } else {
            proof {
                assert(pairs_view(out@) =~= prefixed_of(vals@.take(i + 1), p@));
            }
        }
    }
    proof {
        assert(vals@.take(n as int) =~= vals@);
    }
    out
}

/// Prepares a `RestApi` invocation: `method` and `url` are required and the
/// method must be one of the supported five; everything else is optional.
pub fn prepare_rest_api(vals: &Vec<(String, String)>) -> (r: Result<CommandAction, String>)
    ensures
        match r {
            Ok(a) => (a matches CommandAction::Io { effect: Effect::Http { request } } && ({
                &&& (spec_input(vals@, "method"@) matches Some(ms) && spec_method(ms) == Some(
                    request.method,
                ))
                &&& spec_input(vals@, "url"@) == Some(request.url@)
                &&& pairs_view(request.headers@) == prefixed_of(vals@, "header:"@)
                &&& pairs_view(request.query@) == prefixed_of(vals@, "query:"@)
                &&& match spec_input(vals@, "body"@) {
                    Some(b) => request.body matches Some(bb) && bb@ == b,
                    None => request.body is None,
                }
                &&& match spec_input(vals@, "auth_username"@) {
                    Some(u) => request.auth matches Some(auth) && auth.username@ == u
                        && auth.password@ == (match spec_input(vals@, "auth_password"@) {
                        Some(pw) => pw,
                        None => Seq::<char>::empty(),
                    }),
                    None => request.auth is None,
                }
            })),
            Err(_) => spec_input(vals@, "method"@) is None || spec_input(vals@, "url"@) is None
                || (spec_input(vals@, "method"@) matches Some(ms) && spec_method(ms) is None),
        },
{
    let method_input = match get_input(vals, "method") {
        Some(m) => m,
        None => {
            return Err(String::from_str("missing required input: method"));
        },
    };
    let url = match get_input(vals, "url") {
        Some(u) => u.clone(),
        None => {
            return Err(String::from_str("missing required input: url"));
        },
    };
    let method = match parse_method(method_input.as_str()) {
        Some(m) => m,
        None => {
            return Err(String::from_str("unsupported HTTP method"));
        },
    };
    let headers = collect_prefixed(vals, "header:");
    let query = collect_prefixed(vals, "query:");
    let body = match get_input(vals, "body") {
        Some(b) => Some(b.clone()),
        None => None,
    };
    let auth = match get_input(vals, "auth_username") {
        Some(u) => {
            let password = match get_input(vals, "auth_password") {
                Some(p) => p.clone(),
                None => String::new(),
            };
            Some(BasicAuth { username: u.clone(), password })
        },
        None => None,
    };
    Ok(
        CommandAction::Io {
            effect: Effect::Http {
                request: HttpRequest { method, url, headers, query, body, auth },
            },
        },
    )
}

/// The outputs of a `RestApi` invocation for each outcome the host can
/// produce: a network failure is captured with status `0`, never aborting
/// the run.
pub fn outputs_rest_api(outcome: &IoOutcome) -> (r: Vec<(String, Value)>)
    ensures
        names_of(r@) == rest_api_output_names(),
        r@.len() == 3,
        match outcome {
            IoOutcome::Http(Ok(resp)) => r@[0].1@ == ValueModel::Bool(true) && r@[1].1@
                == ValueModel::Int(resp.status as int) && r@[2].1@ == ValueModel::Str(resp.body@),
            IoOutcome::Http(Err(e)) => r@[0].1@ == ValueModel::Bool(false) && r@[1].1@
                == ValueModel::Int(0) && r@[2].1@ == ValueModel::Str(e@),
            _ => r@[0].1@ == ValueModel::Bool(false) && r@[1].1@ == ValueModel::Int(0) && r@[2].1@
                == ValueModel::Str("unexpected outcome from host"@),
        },
{
    let mut outs: Vec<(String, Value)> = Vec::new();
    match outcome {
        IoOutcome::Http(Ok(resp)) => {
            outs.push((String::from_str("success"), Value::Bool(true)));
            outs.push((String::from_str("status"), Value::Int(resp.status as i64)));
            outs.push((String::from_str("response"), Value::Str(resp.body.clone())));
        },
        IoOutcome::Http(Err(e)) => {
            outs.push((String::from_str("success"), Value::Bool(false)));
            outs.push((String::from_str("status"), Value::Int(0)));
            outs.push((String::from_str("response"), Value::Str(e.clone())));
        },
        _ => {
            outs.push((String::from_str("success"), Value::Bool(false)));
            outs.push((String::from_str("status"), Value::Int(0)));
            outs.push((
                String::from_str("response"),
                Value::Str(String::from_str("unexpected outcome from host")),
            ));
        },
    }
    proof {
        assert(names_of(outs@) =~= rest_api_output_names());
    }
    outs
}

/// The built-in handler behind the registry name `RestApi`.
#[derive(Debug)]
pub struct RestApiCommand;

impl WorkflowCommand for RestApiCommand {
    open spec fn spec_name(&self) -> Seq<char> {
        "RestApi"@
    }

    open spec fn spec_output_names(&self) -> Seq<Seq<char>> {
        rest_api_output_names()
    }

    fn name(&self) -> (r: String) {
        proof {
            reveal_strlit("RestApi");
        }
        String::from_str("RestApi")
    }

    fn prepare(&self, vals: &Vec<(String, String)>) -> (r: Result<CommandAction, String>) {
        prepare_rest_api(vals)
    }

    fn outputs(&self, outcome: &IoOutcome) -> (r: Vec<(String, Value)>) {
        outputs_rest_api(outcome)
    }
}

} // verus!
