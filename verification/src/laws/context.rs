use vstd::prelude::*;

use crate::context::register;
use crate::expr::Expr;

verus! {

/// Asking twice for a variable by the same name gives the same variable, and
/// the second time changes nothing.
pub proof fn lemma_register_idempotent(names: Seq<Seq<char>>, n: Seq<char>)
    ensures
        register(register(names, n).0, n) == register(names, n),
{
    let (ns, i) = register(names, n);
    if !names.contains(n) {
        assert(ns[names.len() as int] == n);
        assert(ns.contains(n));
        let j = ns.index_of(n);
        if j < names.len() {
            assert(names[j] == n);
        }
    }
}

/// The variable given for a name is registered under that name, and the
/// variables registered before keep their names.
pub proof fn lemma_register_names(names: Seq<Seq<char>>, n: Seq<char>)
    ensures
        0 <= register(names, n).1 < register(names, n).0.len(),
        register(names, n).0[register(names, n).1] == n,
        register(names, n).0.len() >= names.len(),
        forall|i: int| 0 <= i < names.len() ==> #[trigger] register(names, n).0[i] == names[i],
{
}

/// Reading a variable's value after assigning it gives what was assigned, and
/// the values of the other variables are untouched.
pub proof fn lemma_assign_value(values: Map<usize, Expr>, v: usize, e: Expr, w: usize)
    ensures
        values.insert(v, e).contains_key(v),
        values.insert(v, e)[v] == e,
        w != v ==> (values.insert(v, e).contains_key(w) == values.contains_key(w)),
        w != v && values.contains_key(w) ==> values.insert(v, e)[w] == values[w],
{
}

/// A variable named by `name_var` prints as that name.
pub proof fn lemma_print_named_var(
    names: Map<usize, String>,
    v: usize,
    name: String,
    text: spec_fn(u64) -> Seq<char>,
)
    ensures
        crate::visitors::pretty_printer::print(Expr::Var(v), names.insert(v, name), text) == name@,
{
}

} // verus!
