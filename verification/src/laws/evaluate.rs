use vstd::prelude::*;

use crate::expr::Expr;
use crate::visitors::evaluator::{eval, eval_all};
use crate::semantics::{value, values_product, values_sum};

verus! {

proof fn lemma_eval_all_no_values(s: Seq<Expr>, k: nat, depth: nat)
    requires
        k <= s.len(),
        forall|i: int| 0 <= i < s.len() ==> (#[trigger] s[i]).wf(),
    ensures
        eval_all(s, k, Map::empty(), depth) == Some(s.take(k as int)),
    decreases depth, s, k,
{
    if k == 0 {
        assert(s.take(0) =~= Seq::<Expr>::empty());
    } else {
        lemma_eval_all_no_values(s, (k - 1) as nat, depth);
        lemma_eval_no_values(s[k - 1], depth);
        assert(s.take(k - 1).push(s[k - 1]) =~= s.take(k as int));
    }
}

/// Evaluating with no values assigned gives every well-formed expression back
/// unchanged.
pub proof fn lemma_eval_no_values(e: Expr, depth: nat)
    requires
        e.wf(),
    ensures
        eval(e, Map::empty(), depth) == Some(e),
    decreases depth, e, 0nat,
{
    match e {
        Expr::Add(s) => {
            lemma_eval_all_no_values(s, s.len(), depth);
            assert(s.take(s.len() as int) =~= s);
        },
        Expr::Mul(s) => {
            lemma_eval_all_no_values(s, s.len(), depth);
            assert(s.take(s.len() as int) =~= s);
        },
        Expr::Pow(a, b) => {
            lemma_eval_no_values(*a, depth);
            lemma_eval_no_values(*b, depth);
        },
        Expr::Neg(a) => {
            lemma_eval_no_values(*a, depth);
        },
        Expr::Ln(a) => {
            lemma_eval_no_values(*a, depth);
        },
        _ => {},
    }
}

/// No variable of `e` has a value in `vals`.
pub open spec fn no_valued_vars(e: Expr, vals: Map<usize, Expr>) -> bool
    decreases e,
{
    match e {
        Expr::Var(v) => !vals.contains_key(v),
        Expr::Add(s) => forall|i: int| 0 <= i < s.len() ==> no_valued_vars(#[trigger] s[i], vals),
        Expr::Mul(s) => forall|i: int| 0 <= i < s.len() ==> no_valued_vars(#[trigger] s[i], vals),
        Expr::Pow(a, b) => no_valued_vars(*a, vals) && no_valued_vars(*b, vals),
        Expr::Neg(a) => no_valued_vars(*a, vals),
        Expr::Ln(a) => no_valued_vars(*a, vals),
        Expr::Const(_) => true,
    }
}

proof fn lemma_eval_all_fixed(s: Seq<Expr>, k: nat, vals: Map<usize, Expr>, depth: nat)
    requires
        k <= s.len(),
        forall|i: int| 0 <= i < s.len() ==> (#[trigger] s[i]).wf(),
        forall|i: int| 0 <= i < s.len() ==> no_valued_vars(#[trigger] s[i], vals),
    ensures
        eval_all(s, k, vals, depth) == Some(s.take(k as int)),
    decreases depth, s, k,
{
    if k == 0 {
        assert(s.take(0) =~= Seq::<Expr>::empty());
    } else {
        lemma_eval_all_fixed(s, (k - 1) as nat, vals, depth);
        lemma_eval_fixed(s[k - 1], vals, depth);
        assert(s.take(k - 1).push(s[k - 1]) =~= s.take(k as int));
    }
}

/// Evaluation leaves a well-formed expression none of whose variables has a
/// value as it is.
pub proof fn lemma_eval_fixed(e: Expr, vals: Map<usize, Expr>, depth: nat)
    requires
        e.wf(),
        no_valued_vars(e, vals),
    ensures
        eval(e, vals, depth) == Some(e),
    decreases depth, e, 0nat,
{
    match e {
        Expr::Add(s) => {
            lemma_eval_all_fixed(s, s.len(), vals, depth);
            assert(s.take(s.len() as int) =~= s);
        },
        Expr::Mul(s) => {
            lemma_eval_all_fixed(s, s.len(), vals, depth);
            assert(s.take(s.len() as int) =~= s);
        },
        Expr::Pow(a, b) => {
            lemma_eval_fixed(*a, vals, depth);
            lemma_eval_fixed(*b, vals, depth);
        },
        Expr::Neg(a) => {
            lemma_eval_fixed(*a, vals, depth);
        },
        Expr::Ln(a) => {
            lemma_eval_fixed(*a, vals, depth);
        },
        _ => {},
    }
}

proof fn lemma_eval_all_free(s: Seq<Expr>, k: nat, vals: Map<usize, Expr>, depth: nat)
    requires
        eval_all(s, k, vals, depth) is Some,
    ensures
        forall|i: int|
            0 <= i < eval_all(s, k, vals, depth).unwrap().len() ==> no_valued_vars(
                #[trigger] eval_all(s, k, vals, depth).unwrap()[i],
                vals,
            ),
    decreases depth, s, k,
{
    if k > 0 {
        lemma_eval_all_free(s, (k - 1) as nat, vals, depth);
        lemma_eval_free(s[k - 1], vals, depth);
        let t = eval_all(s, (k - 1) as nat, vals, depth).unwrap();
        let x = eval(s[k - 1], vals, depth).unwrap();
        assert forall|i: int| 0 <= i < t.push(x).len() implies no_valued_vars(#[trigger] t.push(x)[i], vals) by {
            if i < t.len() {
                assert(t.push(x)[i] == t[i]);
            }
        }
    }
}

/// What evaluation gives has no variable with a value left: every one was
/// replaced.
pub proof fn lemma_eval_free(e: Expr, vals: Map<usize, Expr>, depth: nat)
    requires
        eval(e, vals, depth) is Some,
    ensures
        no_valued_vars(eval(e, vals, depth).unwrap(), vals),
    decreases depth, e, 0nat,
{
    match e {
        Expr::Var(v) => {
            if vals.contains_key(v) {
                lemma_eval_free(vals[v], vals, (depth - 1) as nat);
            }
        },
        Expr::Add(s) => {
            lemma_eval_all_free(s, s.len(), vals, depth);
        },
        Expr::Mul(s) => {
            lemma_eval_all_free(s, s.len(), vals, depth);
        },
        Expr::Pow(a, b) => {
            lemma_eval_free(*a, vals, depth);
            lemma_eval_free(*b, vals, depth);
        },
        Expr::Neg(a) => {
            lemma_eval_free(*a, vals, depth);
        },
        Expr::Ln(a) => {
            lemma_eval_free(*a, vals, depth);
        },
        _ => {},
    }
}

/// Evaluation is idempotent: evaluating the result of an evaluation again, with
/// the same values and any bound on nesting, gives it back unchanged.
pub proof fn lemma_eval_idempotent(e: Expr, vals: Map<usize, Expr>, depth: nat, depth2: nat)
    requires
        e.wf(),
        forall|v: usize| #[trigger] vals.contains_key(v) ==> vals[v].wf(),
        eval(e, vals, depth) is Some,
    ensures
        eval(eval(e, vals, depth).unwrap(), vals, depth2) == eval(e, vals, depth),
{
    crate::laws::well_formed::lemma_eval_wf(e, vals, depth);
    lemma_eval_free(e, vals, depth);
    lemma_eval_fixed(eval(e, vals, depth).unwrap(), vals, depth2);
}

/// Every variable of `e` that has a value in `vals` has a rank below `bound`.
pub open spec fn ranks_below(e: Expr, vals: Map<usize, Expr>, rank: spec_fn(usize) -> nat, bound: nat) -> bool
    decreases e,
{
    match e {
        Expr::Var(v) => vals.contains_key(v) ==> rank(v) < bound,
        Expr::Add(s) => forall|i: int| 0 <= i < s.len() ==> ranks_below(#[trigger] s[i], vals, rank, bound),
        Expr::Mul(s) => forall|i: int| 0 <= i < s.len() ==> ranks_below(#[trigger] s[i], vals, rank, bound),
        Expr::Pow(a, b) => ranks_below(*a, vals, rank, bound) && ranks_below(*b, vals, rank, bound),
        Expr::Neg(a) => ranks_below(*a, vals, rank, bound),
        Expr::Ln(a) => ranks_below(*a, vals, rank, bound),
        Expr::Const(_) => true,
    }
}

/// The values refer to no variable in a cycle: `rank` orders the variables that
/// have a value so that each value only uses variables of lower rank, and every
/// value is well formed.
pub open spec fn acyclic(vals: Map<usize, Expr>, rank: spec_fn(usize) -> nat) -> bool {
    forall|v: usize| #[trigger] vals.contains_key(v) ==> vals[v].wf() && ranks_below(vals[v], vals, rank, rank(v))
}

proof fn lemma_eval_all_terminates(
    s: Seq<Expr>,
    k: nat,
    vals: Map<usize, Expr>,
    rank: spec_fn(usize) -> nat,
    depth: nat,
)
    requires
        k <= s.len(),
        acyclic(vals, rank),
        forall|i: int| 0 <= i < s.len() ==> (#[trigger] s[i]).wf(),
        forall|i: int| 0 <= i < s.len() ==> ranks_below(#[trigger] s[i], vals, rank, depth),
    ensures
        eval_all(s, k, vals, depth) is Some,
    decreases depth, s, k,
{
    if k > 0 {
        lemma_eval_all_terminates(s, (k - 1) as nat, vals, rank, depth);
        lemma_eval_terminates(s[k - 1], vals, rank, depth);
    }
}

/// Evaluation always finishes when the values have no cycle: a well-formed
/// expression evaluates whenever the nesting bound exceeds the rank of each
/// of its variables that has a value.
pub proof fn lemma_eval_terminates(e: Expr, vals: Map<usize, Expr>, rank: spec_fn(usize) -> nat, depth: nat)
    requires
        e.wf(),
        acyclic(vals, rank),
        ranks_below(e, vals, rank, depth),
    ensures
        eval(e, vals, depth) is Some,
    decreases depth, e, 0nat,
{
    match e {
        Expr::Var(v) => {
            if vals.contains_key(v) {
                lemma_ranks_below_mono(vals[v], vals, rank, rank(v), (depth - 1) as nat);
                lemma_eval_terminates(vals[v], vals, rank, (depth - 1) as nat);
            }
        },
        Expr::Add(s) => {
            lemma_eval_all_terminates(s, s.len(), vals, rank, depth);
        },
        Expr::Mul(s) => {
            lemma_eval_all_terminates(s, s.len(), vals, rank, depth);
        },
        Expr::Pow(a, b) => {
            lemma_eval_terminates(*a, vals, rank, depth);
            lemma_eval_terminates(*b, vals, rank, depth);
        },
        Expr::Neg(a) => {
            lemma_eval_terminates(*a, vals, rank, depth);
        },
        Expr::Ln(a) => {
            lemma_eval_terminates(*a, vals, rank, depth);
        },
        _ => {},
    }
}

proof fn lemma_ranks_below_mono(e: Expr, vals: Map<usize, Expr>, rank: spec_fn(usize) -> nat, b1: nat, b2: nat)
    requires
        ranks_below(e, vals, rank, b1),
        b1 <= b2,
    ensures
        ranks_below(e, vals, rank, b2),
    decreases e,
{
    match e {
        Expr::Add(s) => {
            assert forall|i: int| 0 <= i < s.len() implies ranks_below(#[trigger] s[i], vals, rank, b2) by {
                lemma_ranks_below_mono(s[i], vals, rank, b1, b2);
            }
        },
        Expr::Mul(s) => {
            assert forall|i: int| 0 <= i < s.len() implies ranks_below(#[trigger] s[i], vals, rank, b2) by {
                lemma_ranks_below_mono(s[i], vals, rank, b1, b2);
            }
        },
        Expr::Pow(a, b) => {
            lemma_ranks_below_mono(*a, vals, rank, b1, b2);
            lemma_ranks_below_mono(*b, vals, rank, b1, b2);
        },
        Expr::Neg(a) => {
            lemma_ranks_below_mono(*a, vals, rank, b1, b2);
        },
        Expr::Ln(a) => {
            lemma_ranks_below_mono(*a, vals, rank, b1, b2);
        },
        _ => {},
    }
}

/// `env` gives each variable that has a value in `vals` the integer value of
/// that value.
pub open spec fn env_agrees(vals: Map<usize, Expr>, env: Map<usize, int>) -> bool {
    forall|v: usize| #[trigger]
        vals.contains_key(v) ==> env.contains_key(v) && value(vals[v], env) == Some(env[v])
}

proof fn lemma_eval_all_value(s: Seq<Expr>, k: nat, vals: Map<usize, Expr>, depth: nat, env: Map<usize, int>)
    requires
        k <= s.len(),
        eval_all(s, k, vals, depth) is Some,
        env_agrees(vals, env),
    ensures
        values_sum(eval_all(s, k, vals, depth).unwrap(), env) == values_sum(s.take(k as int), env),
        values_product(eval_all(s, k, vals, depth).unwrap(), env) == values_product(s.take(k as int), env),
    decreases depth, s, k,
{
    if k > 0 {
        lemma_eval_all_value(s, (k - 1) as nat, vals, depth, env);
        lemma_eval_value(s[k - 1], vals, depth, env);
        let t = eval_all(s, (k - 1) as nat, vals, depth).unwrap();
        let x = eval(s[k - 1], vals, depth).unwrap();
        assert(t.push(x).drop_last() =~= t);
        assert(s.take(k as int).drop_last() =~= s.take(k - 1));
    } else {
        assert(s.take(0) =~= Seq::<Expr>::empty());
    }
}

/// Evaluation keeps the integer value: under an environment that gives each
/// variable with a value the value of its expression, what evaluation gives
/// has the value the expression had.
pub proof fn lemma_eval_value(e: Expr, vals: Map<usize, Expr>, depth: nat, env: Map<usize, int>)
    requires
        eval(e, vals, depth) is Some,
        env_agrees(vals, env),
    ensures
        value(eval(e, vals, depth).unwrap(), env) == value(e, env),
    decreases depth, e, 0nat,
{
    match e {
        Expr::Var(v) => {
            if vals.contains_key(v) {
                lemma_eval_value(vals[v], vals, (depth - 1) as nat, env);
            }
        },
        Expr::Add(s) => {
            lemma_eval_all_value(s, s.len(), vals, depth, env);
            assert(s.take(s.len() as int) =~= s);
        },
        Expr::Mul(s) => {
            lemma_eval_all_value(s, s.len(), vals, depth, env);
            assert(s.take(s.len() as int) =~= s);
        },
        Expr::Pow(a, b) => {
            lemma_eval_value(*a, vals, depth, env);
            lemma_eval_value(*b, vals, depth, env);
        },
        Expr::Neg(a) => {
            lemma_eval_value(*a, vals, depth, env);
        },
        Expr::Ln(a) => {},
        _ => {},
    }
}

} // verus!
