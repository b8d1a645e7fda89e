use vstd::prelude::*;

use vstd::arithmetic::power::{lemma_pow0, lemma_pow1, pow};

use crate::binary64::FloatOp;
use crate::constant::Constant;
use crate::expr::{int_const, Expr};
use crate::semantics::{value, values_product, values_sum};
use crate::visitors::fold_spec::{
    fold, fold_power, fold_prod, fold_sum, prod_members, prod_result, sum_members, sum_result, Acc,
};

verus! {

/// `e` holds none of the two spots where folding changes an integer value:
/// a negation of a negation of a non-zero value (the folder keeps the inner
/// negation), and an integer power whose exponent the folder truncates to 32
/// bits with a different result. Checked in every sub-expression the folder
/// rewrites.
pub open spec fn fold_safe(e: Expr, env: Map<usize, int>, sem: spec_fn(FloatOp) -> u64) -> bool
    decreases e,
{
    match e {
        Expr::Add(s) => forall|i: int| 0 <= i < s.len() ==> fold_safe(#[trigger] s[i], env, sem),
        Expr::Mul(s) => forall|i: int| 0 <= i < s.len() ==> fold_safe(#[trigger] s[i], env, sem),
        Expr::Neg(x) => match *x {
            Expr::Neg(y) => value(*y, env) == Some(0int),
            _ => true,
        },
        Expr::Pow(x, y) => {
            &&& fold_safe(*x, env, sem)
            &&& fold_safe(*y, env, sem)
            &&& match (value(*x, env), fold(*x, sem), fold(*y, sem)) {
                (
                    Some(a),
                    Some(Expr::Const(Constant::Int(_))),
                    Some(Expr::Const(Constant::Int(k))),
                ) => k >= 0 ==> pow(a, ((k as int) as u32) as nat) == pow(a, k as nat),
                _ => true,
            }
        },
        Expr::Ln(x) => fold_safe(*x, env, sem),
        _ => true,
    }
}

/// A sum has a value exactly when each member has one.
proof fn lemma_values_sum_some(s: Seq<Expr>, env: Map<usize, int>)
    ensures
        values_sum(s, env) is Some <==> forall|i: int| 0 <= i < s.len() ==> (#[trigger] value(s[i], env)) is Some,
    decreases s.len(),
{
    if s.len() > 0 {
        lemma_values_sum_some(s.drop_last(), env);
        assert forall|i: int| 0 <= i < s.len() - 1 implies s.drop_last()[i] == s[i] by {}
        if forall|i: int| 0 <= i < s.len() ==> (#[trigger] value(s[i], env)) is Some {
            assert(value(s[s.len() - 1], env) is Some);
            assert forall|i: int| 0 <= i < s.drop_last().len() implies (#[trigger] value(
                s.drop_last()[i],
                env,
            )) is Some by {
                assert(value(s[i], env) is Some);
            }
        }
    }
}

/// A product has a value exactly when each member has one.
proof fn lemma_values_product_some(s: Seq<Expr>, env: Map<usize, int>)
    ensures
        values_product(s, env) is Some <==> forall|i: int| 0 <= i < s.len() ==> (#[trigger] value(s[i], env)) is Some,
    decreases s.len(),
{
    if s.len() > 0 {
        lemma_values_product_some(s.drop_last(), env);
        assert forall|i: int| 0 <= i < s.len() - 1 implies s.drop_last()[i] == s[i] by {}
        if forall|i: int| 0 <= i < s.len() ==> (#[trigger] value(s[i], env)) is Some {
            assert(value(s[s.len() - 1], env) is Some);
            assert forall|i: int| 0 <= i < s.drop_last().len() implies (#[trigger] value(
                s.drop_last()[i],
                env,
            )) is Some by {
                assert(value(s[i], env) is Some);
            }
        }
    }
}

pub open spec fn int_or(i: Option<i64>, d: int) -> int {
    match i {
        Some(x) => x as int,
        None => d,
    }
}

/// After folding the first `k` members of a sum of integer value, the kept
/// members and the gathered integer add up to the value of those members.
proof fn lemma_fold_sum_value(s: Seq<Expr>, k: nat, sem: spec_fn(FloatOp) -> u64, env: Map<usize, int>)
    requires
        k <= s.len(),
        fold_sum(s, k, sem) is Some,
        forall|i: int| 0 <= i < s.len() ==> (#[trigger] value(s[i], env)) is Some,
        forall|i: int| 0 <= i < s.len() ==> fold_safe(#[trigger] s[i], env, sem),
    ensures
        fold_sum(s, k, sem).unwrap().fp is None,
        values_sum(s.take(k as int), env) is Some,
        values_sum(fold_sum(s, k, sem).unwrap().rest, env) == Some(
            values_sum(s.take(k as int), env).unwrap() - int_or(fold_sum(s, k, sem).unwrap().int, 0),
        ),
    decreases s, k,
{
    if k == 0 {
        assert(s.take(0) =~= Seq::<Expr>::empty());
    } else {
        let j = (k - 1) as nat;
        lemma_fold_sum_value(s, j, sem, env);
        let acc = fold_sum(s, j, sem).unwrap();
        let m = fold(s[j as int], sem).unwrap();
        assert(value(s[j as int], env) is Some);
        lemma_fold_value(s[j as int], sem, env);
        assert(s.take(k as int).drop_last() =~= s.take(j as int));
        assert(s.take(k as int).last() == s[j as int]);
        match m {
            Expr::Const(Constant::Int(i)) => {},
            Expr::Const(Constant::Fp(_)) => {},
            _ => {
                assert(acc.rest.push(m).drop_last() =~= acc.rest);
            },
        }
    }
}

/// After folding the first `k` members of a product of integer value: either a
/// member folded to zero and the product of those members is zero, or the kept
/// members and the gathered integer multiply to it.
proof fn lemma_fold_prod_value(s: Seq<Expr>, k: nat, sem: spec_fn(FloatOp) -> u64, env: Map<usize, int>)
    requires
        k <= s.len(),
        fold_prod(s, k, sem) is Some,
        forall|i: int| 0 <= i < s.len() ==> (#[trigger] value(s[i], env)) is Some,
        forall|i: int| 0 <= i < s.len() ==> fold_safe(#[trigger] s[i], env, sem),
    ensures
        values_product(s.take(k as int), env) is Some,
        match fold_prod(s, k, sem).unwrap() {
            None => values_product(s.take(k as int), env) == Some(0int),
            Some(acc) => {
                &&& acc.fp is None
                &&& values_product(acc.rest, env) is Some
                &&& values_product(s.take(k as int), env).unwrap() == values_product(
                    acc.rest,
                    env,
                ).unwrap() * int_or(acc.int, 1)
            },
        },
    decreases s, k,
{
    if k == 0 {
        assert(s.take(0) =~= Seq::<Expr>::empty());
    } else {
        let j = (k - 1) as nat;
        lemma_fold_prod_value(s, j, sem, env);
        assert(s.take(k as int).drop_last() =~= s.take(j as int));
        assert(s.take(k as int).last() == s[j as int]);
        assert(value(s[j as int], env) is Some);
        let p = values_product(s.take(j as int), env).unwrap();
        let v = value(s[j as int], env).unwrap();
        match fold_prod(s, j, sem).unwrap() {
            None => {
                assert(p * v == 0) by (nonlinear_arith)
                    requires
                        p == 0,
                ;
            },
            Some(acc) => {
                let m = fold(s[j as int], sem).unwrap();
                lemma_fold_value(s[j as int], sem, env);
                let r = values_product(acc.rest, env).unwrap();
                let c = int_or(acc.int, 1);
                if m == int_const(0) {
                    assert(v == 0);
                    assert(p * v == 0) by (nonlinear_arith)
                        requires
                            v == 0,
                    ;
                } else {
                    match m {
                        Expr::Const(Constant::Int(i)) => {
                            assert(p * v == r * (c * v)) by (nonlinear_arith)
                                requires
                                    p == r * c,
                            ;
                        },
                        Expr::Const(Constant::Fp(_)) => {},
                        _ => {
                            assert(acc.rest.push(m).drop_last() =~= acc.rest);
                            assert(p * v == (r * v) * c) by (nonlinear_arith)
                                requires
                                    p == r * c,
                            ;
                        },
                    }
                }
            },
        }
    }
}

/// Constant folding keeps the integer value of an expression: wherever `e` has
/// an integer value under `env`, and holds no spot where folding is known to
/// change it (`fold_safe`), the folded expression has the same value.
pub proof fn lemma_fold_value(e: Expr, sem: spec_fn(FloatOp) -> u64, env: Map<usize, int>)
    requires
        value(e, env) is Some,
        fold_safe(e, env, sem),
        fold(e, sem) is Some,
    ensures
        value(fold(e, sem).unwrap(), env) == value(e, env),
    decreases e, 0nat,
{
    match e {
        Expr::Add(s) => {
            lemma_values_sum_some(s, env);
            lemma_fold_sum_value(s, s.len(), sem, env);
            assert(s.take(s.len() as int) =~= s);
            let acc = fold_sum(s, s.len(), sem).unwrap();
            let t = sum_members(acc, sem);
            match acc.int {
                Some(i) => {
                    if i != 0 {
                        assert(acc.rest.push(int_const(i)).drop_last() =~= acc.rest);
                        assert(value(int_const(i), env) == Some(i as int));
                    }
                },
                None => {},
            }
            assert(values_sum(t, env) == values_sum(s, env));
            if t.len() == 0 {
                assert(sum_result(t) == int_const(0));
            } else if t.len() == 1 {
                assert(t.drop_last() =~= Seq::<Expr>::empty());
                assert(sum_result(t) == t[0]);
                assert(t.last() == t[0]);
                assert(values_sum(t.drop_last(), env) == Some(0int));
                assert(values_sum(t, env) == value(t[0], env));
            } else {
                assert(sum_result(t) == Expr::Add(t));
            }
            assert(value(sum_result(t), env) == values_sum(t, env));
            assert(fold(e, sem) == Some(sum_result(t)));
            assert(value(e, env) == values_sum(s, env));
            assert(value(fold(e, sem).unwrap(), env) == value(e, env));
        },
        Expr::Mul(s) => {
            lemma_values_product_some(s, env);
            lemma_fold_prod_value(s, s.len(), sem, env);
            assert(s.take(s.len() as int) =~= s);
            match fold_prod(s, s.len(), sem).unwrap() {
                None => {},
                Some(acc) => {
                    let t = prod_members(acc, sem);
                    let r = values_product(acc.rest, env).unwrap();
                    match acc.int {
                        Some(i) => {
                            if i != 1 {
                                assert(acc.rest.push(int_const(i)).drop_last() =~= acc.rest);
                                assert(value(int_const(i), env) == Some(i as int));
                                assert(values_product(t, env) == Some(r * i));
                            } else {
                                assert(r * 1 == r);
                            }
                        },
                        None => {
                            assert(r * 1 == r);
                        },
                    }
                    if t.len() == 1 {
                        assert(t.drop_last() =~= Seq::<Expr>::empty());
                        assert(prod_result(t) == Some(t[0]));
                        assert(t.last() == t[0]);
                        assert(values_product(t.drop_last(), env) == Some(1int));
                        let v0 = value(t[0], env).unwrap();
                        assert(1 * v0 == v0);
                        assert(values_product(t, env) == value(t[0], env));
                    } else {
                        assert(prod_result(t) == Some(Expr::Mul(t)));
                    }
                    assert(value(prod_result(t).unwrap(), env) == values_product(t, env));
                    assert(values_product(t, env) == values_product(s, env));
                    assert(fold(e, sem) == prod_result(t));
                },
            }
        },
        Expr::Pow(x, y) => {
            lemma_fold_value(*x, sem, env);
            lemma_fold_value(*y, sem, env);
            let a = fold(*x, sem).unwrap();
            let b = fold(*y, sem).unwrap();
            let va = value(*x, env).unwrap();
            lemma_pow0(va);
            lemma_pow1(va);
            assert(fold(e, sem) == fold_power(e, a, b, sem));
            assert(value(fold(e, sem).unwrap(), env) == value(e, env));
        },
        Expr::Neg(x) => {
            match *x {
                Expr::Const(Constant::Int(i)) => {
                    assert(fold(e, sem) == Some(int_const((-i) as i64)));
                },
                Expr::Neg(y) => {
                    assert(value(*y, env) == Some(0int));
                    assert(fold(e, sem) == Some(*x));
                    assert(value(*x, env) == Some(0int));
                },
                _ => {},
            }
            assert(value(fold(e, sem).unwrap(), env) == value(e, env));
        },
        _ => {
            assert(value(fold(e, sem).unwrap(), env) == value(e, env));
        },
    }
}

} // verus!
