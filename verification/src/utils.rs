//! Small verified helpers shared across the library.

use vstd::prelude::*;
use vstd::string::*;
use crate::context::Context;
use crate::value::Value;

verus! {

/// Character-wise equality of two string slices.
pub fn str_eq(a: &str, b: &str) -> (r: bool)
    ensures
        r == (a@ == b@),
{
    let a_len = a.unicode_len();
    let b_len = b.unicode_len();
    if a_len != b_len {
        return false;
    }
    for i in 0..a_len
        invariant
            a_len == a@.len(),
            b_len == b@.len(),
            a_len == b_len,
            forall|j: int| 0 <= j < i ==> a@[j] == b@[j],
    {
        if a.get_char(i) != b.get_char(i) {
            return false;
        }
    }
    proof {
        assert(a@ =~= b@);
    }
    true
}

/// Binds a string-valued variable in the context, as a workflow input or a
/// command output would.
pub fn set_string_var(name: &str, value: &str, ctx: &mut Context)
    ensures
        final(ctx)@ == old(ctx)@.insert(name@, crate::value::ValueModel::Str(value@)),
{
    ctx.set_variable(name, Value::Str(String::from_str(value)));
}

} // verus!
