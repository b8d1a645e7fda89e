use vstd::prelude::*;

use crate::binary64::FloatOp;
use crate::constant::Constant;
use crate::expr::{all_wf, int_const, lemma_product_wf, lemma_sum_wf, Expr};
use crate::visitors::derivator::{deriv, deriv_all, deriv_terms, lemma_deriv_all_len, lemma_deriv_terms_len};
use crate::visitors::evaluator::{eval, eval_all};
use crate::visitors::fold_spec::{
    fold, fold_prod, fold_sum, prod_members, prod_result, sum_members, sum_result,
};

verus! {

proof fn lemma_all_wf_push(s: Seq<Expr>, e: Expr)
    requires
        all_wf(s),
        e.wf(),
    ensures
        all_wf(s.push(e)),
{
    assert forall|i: int| 0 <= i < s.push(e).len() implies (#[trigger] s.push(e)[i]).wf() by {
        if i < s.len() {
            assert(s.push(e)[i] == s[i]);
        }
    }
}

proof fn lemma_fold_sum_wf(s: Seq<Expr>, k: nat, sem: spec_fn(FloatOp) -> u64)
    requires
        k <= s.len(),
        all_wf(s),
        fold_sum(s, k, sem) is Some,
    ensures
        all_wf(fold_sum(s, k, sem).unwrap().rest),
    decreases s, k,
{
    if k > 0 {
        let j = (k - 1) as nat;
        lemma_fold_sum_wf(s, j, sem);
        lemma_fold_wf(s[j as int], sem);
        let acc = fold_sum(s, j, sem).unwrap();
        let m = fold(s[j as int], sem).unwrap();
        match m {
            Expr::Const(Constant::Int(_)) => {},
            Expr::Const(Constant::Fp(_)) => {},
            _ => {
                lemma_all_wf_push(acc.rest, m);
            },
        }
    }
}

proof fn lemma_fold_prod_wf(s: Seq<Expr>, k: nat, sem: spec_fn(FloatOp) -> u64)
    requires
        k <= s.len(),
        all_wf(s),
        fold_prod(s, k, sem) is Some,
    ensures
        fold_prod(s, k, sem).unwrap() matches Some(acc) ==> all_wf(acc.rest),
    decreases s, k,
{
    if k > 0 {
        let j = (k - 1) as nat;
        lemma_fold_prod_wf(s, j, sem);
        match fold_prod(s, j, sem).unwrap() {
            None => {},
            Some(acc) => {
                lemma_fold_wf(s[j as int], sem);
                let m = fold(s[j as int], sem).unwrap();
                if m != int_const(0) {
                    match m {
                        Expr::Const(Constant::Int(_)) => {},
                        Expr::Const(Constant::Fp(_)) => {},
                        _ => {
                            lemma_all_wf_push(acc.rest, m);
                        },
                    }
                }
            },
        }
    }
}

/// Constant folding keeps expressions well formed: every sum and product it
/// leaves has at least two members.
pub proof fn lemma_fold_wf(e: Expr, sem: spec_fn(FloatOp) -> u64)
    requires
        e.wf(),
        fold(e, sem) is Some,
    ensures
        fold(e, sem).unwrap().wf(),
    decreases e, 0nat,
{
    match e {
        Expr::Add(s) => {
            lemma_fold_sum_wf(s, s.len(), sem);
            let acc = fold_sum(s, s.len(), sem).unwrap();
            let t = sum_members(acc, sem);
            match (acc.int, acc.fp) {
                (Some(i), None) => {
                    if i != 0 {
                        lemma_all_wf_push(acc.rest, int_const(i));
                    }
                },
                (None, Some(f)) => lemma_all_wf_push(acc.rest, Expr::Const(Constant::Fp(f))),
                (None, None) => {},
                (Some(i), Some(f)) => lemma_all_wf_push(
                    acc.rest,
                    Expr::Const(Constant::Fp(sem(FloatOp::Add(sem(FloatOp::FromInt(i)), f)))),
                ),
            }
            assert(all_wf(t));
            if t.len() == 1 {
                assert(t[0].wf());
            }
            assert(sum_result(t).wf());
        },
        Expr::Mul(s) => {
            lemma_fold_prod_wf(s, s.len(), sem);
            match fold_prod(s, s.len(), sem).unwrap() {
                None => {},
                Some(acc) => {
                    let t = prod_members(acc, sem);
                    match (acc.int, acc.fp) {
                        (Some(i), None) => {
                            if i != 1 {
                                lemma_all_wf_push(acc.rest, int_const(i));
                            }
                        },
                        (None, Some(f)) => lemma_all_wf_push(acc.rest, Expr::Const(Constant::Fp(f))),
                        (None, None) => {},
                        (Some(i), Some(f)) => lemma_all_wf_push(
                            acc.rest,
                            Expr::Const(Constant::Fp(sem(FloatOp::Mul(sem(FloatOp::FromInt(i)), f)))),
                        ),
                    }
                    assert(all_wf(t));
                    if t.len() == 1 {
                        assert(t[0].wf());
                    }
                    assert(prod_result(t).unwrap().wf());
                },
            }
        },
        Expr::Pow(x, y) => {
            lemma_fold_wf(*x, sem);
            lemma_fold_wf(*y, sem);
        },
        Expr::Ln(x) => {
            lemma_fold_wf(*x, sem);
        },
        _ => {},
    }
}

proof fn lemma_deriv_all_wf(s: Seq<Expr>, k: nat, x: usize)
    requires
        k <= s.len(),
        all_wf(s),
    ensures
        all_wf(deriv_all(s, k, x)),
    decreases s, k,
{
    if k > 0 {
        lemma_deriv_all_wf(s, (k - 1) as nat, x);
        lemma_deriv_wf(s[k - 1], x);
        lemma_all_wf_push(deriv_all(s, (k - 1) as nat, x), deriv(s[k - 1], x));
    }
}

proof fn lemma_deriv_terms_wf(s: Seq<Expr>, k: nat, x: usize)
    requires
        k <= s.len(),
        s.len() >= 2,
        all_wf(s),
    ensures
        all_wf(deriv_terms(s, k, x)),
    decreases s, k,
{
    if k > 0 {
        let j = k - 1;
        lemma_deriv_terms_wf(s, j as nat, x);
        lemma_deriv_wf(s[j], x);
        let u = s.update(j, deriv(s[j], x));
        assert forall|i: int| 0 <= i < u.len() implies (#[trigger] u[i]).wf() by {
            if i != j {
                assert(u[i] == s[i]);
            }
        }
        assert(Expr::Mul(u).wf());
        lemma_all_wf_push(deriv_terms(s, j as nat, x), Expr::Mul(u));
    }
}

/// Differentiation keeps expressions well formed.
pub proof fn lemma_deriv_wf(e: Expr, x: usize)
    requires
        e.wf(),
    ensures
        deriv(e, x).wf(),
    decreases e, 0nat,
{
    match e {
        Expr::Ln(v) => {
            lemma_deriv_wf(*v, x);
            lemma_product_wf(deriv(*v, x), e, true);
        },
        Expr::Pow(a, b) => {
            lemma_deriv_wf(*a, x);
            lemma_deriv_wf(*b, x);
            let da = deriv(*a, x);
            let db = deriv(*b, x);
            assert(Expr::Ln(a).wf());
            lemma_product_wf(db, Expr::Ln(a), false);
            lemma_product_wf(da, *b, false);
            lemma_product_wf(crate::expr::product(da, *b, false), *a, true);
            lemma_sum_wf(
                crate::expr::product(db, Expr::Ln(a), false),
                crate::expr::product(crate::expr::product(da, *b, false), *a, true),
                false,
            );
            lemma_product_wf(
                e,
                crate::expr::sum(
                    crate::expr::product(db, Expr::Ln(a), false),
                    crate::expr::product(crate::expr::product(da, *b, false), *a, true),
                    false,
                ),
                false,
            );
        },
        Expr::Neg(v) => {
            lemma_deriv_wf(*v, x);
        },
        Expr::Add(s) => {
            lemma_deriv_all_wf(s, s.len(), x);
            lemma_deriv_all_len(s, s.len(), x);
        },
        Expr::Mul(s) => {
            lemma_deriv_terms_wf(s, s.len(), x);
            lemma_deriv_terms_len(s, s.len(), x);
        },
        _ => {},
    }
}

proof fn lemma_eval_all_wf(s: Seq<Expr>, k: nat, vals: Map<usize, Expr>, depth: nat)
    requires
        k <= s.len(),
        all_wf(s),
        forall|v: usize| #[trigger] vals.contains_key(v) ==> vals[v].wf(),
        eval_all(s, k, vals, depth) is Some,
    ensures
        all_wf(eval_all(s, k, vals, depth).unwrap()),
        eval_all(s, k, vals, depth).unwrap().len() == k,
    decreases depth, s, k,
{
    if k > 0 {
        lemma_eval_all_wf(s, (k - 1) as nat, vals, depth);
        lemma_eval_wf(s[k - 1], vals, depth);
        lemma_all_wf_push(eval_all(s, (k - 1) as nat, vals, depth).unwrap(), eval(s[k - 1], vals, depth).unwrap());
    }
}

/// Replacing variables by well-formed values keeps an expression well formed.
pub proof fn lemma_eval_wf(e: Expr, vals: Map<usize, Expr>, depth: nat)
    requires
        e.wf(),
        forall|v: usize| #[trigger] vals.contains_key(v) ==> vals[v].wf(),
        eval(e, vals, depth) is Some,
    ensures
        eval(e, vals, depth).unwrap().wf(),
    decreases depth, e, 0nat,
{
    match e {
        Expr::Var(v) => {
            if vals.contains_key(v) {
                lemma_eval_wf(vals[v], vals, (depth - 1) as nat);
            }
        },
        Expr::Add(s) => {
            lemma_eval_all_wf(s, s.len(), vals, depth);
        },
        Expr::Mul(s) => {
            lemma_eval_all_wf(s, s.len(), vals, depth);
        },
        Expr::Pow(a, b) => {
            lemma_eval_wf(*a, vals, depth);
            lemma_eval_wf(*b, vals, depth);
        },
        Expr::Neg(a) => {
            lemma_eval_wf(*a, vals, depth);
        },
        Expr::Ln(a) => {
            lemma_eval_wf(*a, vals, depth);
        },
        _ => {},
    }
}

/// No member of `e`, when `e` is a product, is itself a product.
pub open spec fn flat_product(e: Expr) -> bool {
    match e {
        Expr::Mul(s) => forall|i: int| 0 <= i < s.len() ==> !(#[trigger] s[i] is Mul),
        _ => true,
    }
}

/// Multiplying or dividing two well-formed operands, neither of which holds a
/// product directly inside a product, gives a product of at least two members,
/// none of them a product.
pub proof fn lemma_product_shape(l: Expr, r: Expr, inverse: bool)
    requires
        l.wf(),
        r.wf(),
        flat_product(l),
        flat_product(r),
    ensures
        crate::expr::product(l, r, inverse) is Mul,
        crate::expr::product(l, r, inverse)->Mul_0.len() >= 2,
        flat_product(crate::expr::product(l, r, inverse)),
{
    let fl = crate::expr::factors(l);
    let fr = crate::expr::factors(r);
    let ir = crate::expr::inverted(fr, inverse);
    let m = fl + ir;
    assert(fl.len() >= 1);
    assert(fr.len() >= 1);
    assert(ir.len() == fr.len());
    assert forall|i: int| 0 <= i < m.len() implies !(#[trigger] m[i] is Mul) by {
        if i < fl.len() {
            assert(m[i] == fl[i]);
        } else {
            assert(m[i] == ir[i - fl.len()]);
            if !inverse {
                assert(ir[i - fl.len()] == fr[i - fl.len()]);
            }
        }
    }
}

} // verus!
