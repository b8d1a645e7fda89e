use vstd::prelude::*;

use crate::constant::Constant;
use crate::expr::{all_wf, Expr};
use crate::semantics::{value, values_product, values_sum};
use crate::visitors::derivator::{deriv, deriv_all, deriv_terms};

verus! {

/// The value of `e` and of its derivative with respect to `x` at `env`, by
/// forward differentiation on dual numbers: constants have derivative 0, `x`
/// has 1, other variables 0; sums add, negations negate, and products combine
/// two at a time by `(a, a') * (b, b') = (a b, a' b + a b')`. Defined for
/// polynomials: integer constants, variables with a value, sums, products and
/// negations.
pub open spec fn dual(e: Expr, x: usize, env: Map<usize, int>) -> Option<(int, int)>
    decreases e,
{
    match e {
        Expr::Const(Constant::Int(i)) => Some((i as int, 0int)),
        Expr::Var(v) => if env.contains_key(v) {
            Some((env[v], if v == x { 1int } else { 0int }))
        } else {
            None
        },
        Expr::Add(s) => dual_sum(s, x, env),
        Expr::Mul(s) => dual_product(s, x, env),
        Expr::Neg(a) => match dual(*a, x, env) {
            Some((v, d)) => Some((-v, -d)),
            None => None,
        },
        _ => None,
    }
}

pub open spec fn dual_sum(s: Seq<Expr>, x: usize, env: Map<usize, int>) -> Option<(int, int)>
    decreases s,
{
    if s.len() == 0 {
        Some((0int, 0int))
    } else {
        match (dual_sum(s.drop_last(), x, env), dual(s.last(), x, env)) {
            (Some((a, da)), Some((b, db))) => Some((a + b, da + db)),
            _ => None,
        }
    }
}

pub open spec fn dual_product(s: Seq<Expr>, x: usize, env: Map<usize, int>) -> Option<(int, int)>
    decreases s,
{
    if s.len() == 0 {
        Some((1int, 0int))
    } else {
        match (dual_product(s.drop_last(), x, env), dual(s.last(), x, env)) {
            (Some((a, da)), Some((b, db))) => Some((a * b, da * b + a * db)),
            _ => None,
        }
    }
}

/// The product of the first `k` values.
pub open spec fn prod(vs: Seq<int>, k: nat) -> int
    decreases k,
{
    if k == 0 {
        1
    } else {
        prod(vs, (k - 1) as nat) * vs[k - 1]
    }
}

/// The product of the first `k` values, the `i`-th replaced by its derivative.
pub open spec fn term(vs: Seq<int>, ds: Seq<int>, i: int, k: nat) -> int
    decreases k,
{
    if k == 0 {
        1
    } else {
        term(vs, ds, i, (k - 1) as nat) * (if k - 1 == i {
            ds[k - 1]
        } else {
            vs[k - 1]
        })
    }
}

/// The sum of the first `m` product-rule terms over the first `k` values.
pub open spec fn tsum(vs: Seq<int>, ds: Seq<int>, m: nat, k: nat) -> int
    decreases m,
{
    if m == 0 {
        0
    } else {
        tsum(vs, ds, (m - 1) as nat, k) + term(vs, ds, m - 1, k)
    }
}

proof fn lemma_term_untouched(vs: Seq<int>, ds: Seq<int>, i: int, k: nat)
    requires
        k <= i,
    ensures
        term(vs, ds, i, k) == prod(vs, k),
    decreases k,
{
    if k > 0 {
        lemma_term_untouched(vs, ds, i, (k - 1) as nat);
    }
}

proof fn lemma_tsum_extend(vs: Seq<int>, ds: Seq<int>, m: nat, k: nat)
    requires
        m <= k,
    ensures
        tsum(vs, ds, m, k + 1) == tsum(vs, ds, m, k) * vs[k as int],
    decreases m,
{
    if m > 0 {
        lemma_tsum_extend(vs, ds, (m - 1) as nat, k);
        let a = tsum(vs, ds, (m - 1) as nat, k);
        let b = term(vs, ds, m - 1, k);
        let v = vs[k as int];
        assert(term(vs, ds, m - 1, k + 1) == b * v);
        assert((a + b) * v == a * v + b * v) by (nonlinear_arith);
    }
}

/// The product rule for `k` factors equals the pairwise dual-number product:
/// summing the products with one factor derived, over every position, gives
/// `D(k+1) = D(k) * v(k) + P(k) * d(k)`.
proof fn lemma_tsum_step(vs: Seq<int>, ds: Seq<int>, k: nat)
    ensures
        tsum(vs, ds, k + 1, k + 1) == tsum(vs, ds, k, k) * vs[k as int] + prod(vs, k) * ds[k as int],
{
    lemma_tsum_extend(vs, ds, k, k);
    lemma_term_untouched(vs, ds, k as int, k);
}

/// A seq of members with dual numbers: their values and derivatives.
pub open spec fn vals_of(s: Seq<Expr>, x: usize, env: Map<usize, int>) -> Seq<int> {
    Seq::new(s.len(), |i: int| dual(s[i], x, env).unwrap().0)
}

pub open spec fn ders_of(s: Seq<Expr>, x: usize, env: Map<usize, int>) -> Seq<int> {
    Seq::new(s.len(), |i: int| dual(s[i], x, env).unwrap().1)
}

pub open spec fn all_dual(s: Seq<Expr>, x: usize, env: Map<usize, int>) -> bool {
    forall|i: int| 0 <= i < s.len() ==> (#[trigger] dual(s[i], x, env)) is Some
}

/// Every member's value and derivative value are those of its dual number.
pub open spec fn members_agree(s: Seq<Expr>, x: usize, env: Map<usize, int>) -> bool {
    forall|i: int|
        0 <= i < s.len() ==> {
            &&& value(#[trigger] s[i], env) == Some(dual(s[i], x, env).unwrap().0)
            &&& value(deriv(s[i], x), env) == Some(dual(s[i], x, env).unwrap().1)
        }
}

proof fn lemma_dual_sum_some(s: Seq<Expr>, x: usize, env: Map<usize, int>)
    ensures
        dual_sum(s, x, env) is Some <==> all_dual(s, x, env),
    decreases s.len(),
{
    if s.len() > 0 {
        lemma_dual_sum_some(s.drop_last(), x, env);
        if all_dual(s, x, env) {
            assert(dual(s[s.len() - 1], x, env) is Some);
            assert forall|i: int| 0 <= i < s.drop_last().len() implies (#[trigger] dual(
                s.drop_last()[i],
                x,
                env,
            )) is Some by {
                assert(s.drop_last()[i] == s[i]);
                assert(dual(s[i], x, env) is Some);
            }
        }
        if dual_sum(s, x, env) is Some {
            assert forall|i: int| 0 <= i < s.len() implies (#[trigger] dual(s[i], x, env)) is Some by {
                if i < s.len() - 1 {
                    assert(s.drop_last()[i] == s[i]);
                }
            }
        }
    }
}

proof fn lemma_dual_product_some(s: Seq<Expr>, x: usize, env: Map<usize, int>)
    ensures
        dual_product(s, x, env) is Some <==> all_dual(s, x, env),
    decreases s.len(),
{
    if s.len() > 0 {
        lemma_dual_product_some(s.drop_last(), x, env);
        if all_dual(s, x, env) {
            assert(dual(s[s.len() - 1], x, env) is Some);
            assert forall|i: int| 0 <= i < s.drop_last().len() implies (#[trigger] dual(
                s.drop_last()[i],
                x,
                env,
            )) is Some by {
                assert(s.drop_last()[i] == s[i]);
                assert(dual(s[i], x, env) is Some);
            }
        }
        if dual_product(s, x, env) is Some {
            assert forall|i: int| 0 <= i < s.len() implies (#[trigger] dual(s[i], x, env)) is Some by {
                if i < s.len() - 1 {
                    assert(s.drop_last()[i] == s[i]);
                }
            }
        }
    }
}

/// Sums: value and derivative of the first `k` members.
proof fn lemma_sum_prefix(s: Seq<Expr>, k: nat, x: usize, env: Map<usize, int>)
    requires
        k <= s.len(),
        all_dual(s, x, env),
        members_agree(s, x, env),
    ensures
        dual_sum(s.take(k as int), x, env) is Some,
        values_sum(s.take(k as int), env) == Some(dual_sum(s.take(k as int), x, env).unwrap().0),
        values_sum(deriv_all(s, k, x), env) == Some(dual_sum(s.take(k as int), x, env).unwrap().1),
    decreases s, k,
{
    if k == 0 {
        assert(s.take(0) =~= Seq::<Expr>::empty());
        assert(deriv_all(s, 0, x) =~= Seq::<Expr>::empty());
    } else {
        let j = (k - 1) as nat;
        lemma_sum_prefix(s, j, x, env);
        assert(s.take(k as int).drop_last() =~= s.take(j as int));
        assert(s.take(k as int).last() == s[j as int]);
        assert(dual(s[j as int], x, env) is Some);
        assert(value(s[j as int], env) == Some(dual(s[j as int], x, env).unwrap().0));
        let d = deriv_all(s, k, x);
        assert(d.drop_last() =~= deriv_all(s, j, x));
        assert(d.last() == deriv(s[j as int], x));
    }
}

/// The value of the product of the first `k` members of `u`, where `u` is `s`
/// with its `i`-th member replaced by that member's derivative.
proof fn lemma_term_value(s: Seq<Expr>, i: int, k: nat, x: usize, env: Map<usize, int>)
    requires
        0 <= i < s.len(),
        k <= s.len(),
        all_dual(s, x, env),
        members_agree(s, x, env),
    ensures
        values_product(s.update(i, deriv(s[i], x)).take(k as int), env) == Some(
            term(vals_of(s, x, env), ders_of(s, x, env), i, k),
        ),
    decreases k,
{
    let u = s.update(i, deriv(s[i], x));
    if k == 0 {
        assert(u.take(0) =~= Seq::<Expr>::empty());
    } else {
        let j = (k - 1) as nat;
        lemma_term_value(s, i, j, x, env);
        assert(u.take(k as int).drop_last() =~= u.take(j as int));
        assert(u.take(k as int).last() == u[j as int]);
        assert(dual(s[j as int], x, env) is Some);
        assert(value(s[j as int], env) == Some(dual(s[j as int], x, env).unwrap().0));
    }
}

/// The value of the product of the first `k` members of `s`.
proof fn lemma_prod_value(s: Seq<Expr>, k: nat, x: usize, env: Map<usize, int>)
    requires
        k <= s.len(),
        all_dual(s, x, env),
        members_agree(s, x, env),
    ensures
        values_product(s.take(k as int), env) == Some(prod(vals_of(s, x, env), k)),
        dual_product(s.take(k as int), x, env) == Some(
            (prod(vals_of(s, x, env), k), tsum(vals_of(s, x, env), ders_of(s, x, env), k, k)),
        ),
    decreases k,
{
    let vs = vals_of(s, x, env);
    let ds = ders_of(s, x, env);
    if k == 0 {
        assert(s.take(0) =~= Seq::<Expr>::empty());
    } else {
        let j = (k - 1) as nat;
        lemma_prod_value(s, j, x, env);
        assert(s.take(k as int).drop_last() =~= s.take(j as int));
        assert(s.take(k as int).last() == s[j as int]);
        assert(dual(s[j as int], x, env) is Some);
        assert(value(s[j as int], env) == Some(dual(s[j as int], x, env).unwrap().0));
        lemma_tsum_step(vs, ds, j);
        let p = prod(vs, j);
        let t = tsum(vs, ds, j, j);
        let v = vs[j as int];
        let d = ds[j as int];
        assert(t * v + p * d == tsum(vs, ds, k, k));
    }
}

/// The product rule terms: their values sum to the `tsum` of the full product.
proof fn lemma_terms_value(s: Seq<Expr>, m: nat, x: usize, env: Map<usize, int>)
    requires
        m <= s.len(),
        s.len() >= 2,
        all_dual(s, x, env),
        members_agree(s, x, env),
    ensures
        values_sum(deriv_terms(s, m, x), env) == Some(
            tsum(vals_of(s, x, env), ders_of(s, x, env), m, s.len()),
        ),
    decreases m,
{
    if m == 0 {
        assert(deriv_terms(s, 0, x) =~= Seq::<Expr>::empty());
    } else {
        let j = (m - 1) as nat;
        lemma_terms_value(s, j, x, env);
        let t = deriv_terms(s, m, x);
        let u = s.update(j as int, deriv(s[j as int], x));
        assert(t.drop_last() =~= deriv_terms(s, j, x));
        assert(t.last() == Expr::Mul(u));
        lemma_term_value(s, j as int, s.len(), x, env);
        assert(u.take(s.len() as int) =~= u);
        assert(value(Expr::Mul(u), env) == values_product(u, env));
        let vs = vals_of(s, x, env);
        let ds = ders_of(s, x, env);
        assert(values_product(u, env) == Some(term(vs, ds, j as int, s.len())));
        assert(tsum(vs, ds, m, s.len()) == tsum(vs, ds, j, s.len()) + term(vs, ds, j as int, s.len()));
    }
}

/// The derivator differentiates correctly: for a well-formed polynomial `e`
/// (integer constants, variables with a value, sums, products, negations), the
/// value of the derivative it builds is the derivative that dual numbers give,
/// and `e`'s value is the dual number's value part.
pub proof fn lemma_deriv_value(e: Expr, x: usize, env: Map<usize, int>)
    requires
        e.wf(),
        dual(e, x, env) is Some,
    ensures
        value(e, env) == Some(dual(e, x, env).unwrap().0),
        value(deriv(e, x), env) == Some(dual(e, x, env).unwrap().1),
    decreases e,
{
    match e {
        Expr::Add(s) => {
            lemma_dual_sum_some(s, x, env);
            assert forall|i: int| 0 <= i < s.len() implies {
                &&& value(#[trigger] s[i], env) == Some(dual(s[i], x, env).unwrap().0)
                &&& value(deriv(s[i], x), env) == Some(dual(s[i], x, env).unwrap().1)
            } by {
                assert(dual(s[i], x, env) is Some);
                lemma_deriv_value(s[i], x, env);
            }
            lemma_sum_prefix(s, s.len(), x, env);
            assert(s.take(s.len() as int) =~= s);
        },
        Expr::Mul(s) => {
            lemma_dual_product_some(s, x, env);
            assert forall|i: int| 0 <= i < s.len() implies {
                &&& value(#[trigger] s[i], env) == Some(dual(s[i], x, env).unwrap().0)
                &&& value(deriv(s[i], x), env) == Some(dual(s[i], x, env).unwrap().1)
            } by {
                assert(dual(s[i], x, env) is Some);
                lemma_deriv_value(s[i], x, env);
            }
            lemma_prod_value(s, s.len(), x, env);
            lemma_terms_value(s, s.len(), x, env);
            assert(s.take(s.len() as int) =~= s);
        },
        Expr::Neg(a) => {
            lemma_deriv_value(*a, x, env);
        },
        _ => {},
    }
}

proof fn lemma_deriv_terms_index(s: Seq<Expr>, k: nat, x: usize)
    requires
        k <= s.len(),
    ensures
        deriv_terms(s, k, x).len() == k,
        forall|i: int|
            0 <= i < k ==> #[trigger] deriv_terms(s, k, x)[i] == Expr::Mul(s.update(i, deriv(s[i], x))),
    decreases k,
{
    if k > 0 {
        lemma_deriv_terms_index(s, (k - 1) as nat, x);
    }
}

/// The product rule, unsimplified: the derivative of a product of `n` members
/// is a sum of `n` products, the `i`-th being the product with its `i`-th
/// member replaced by that member's derivative.
pub proof fn lemma_product_rule(s: Seq<Expr>, x: usize)
    ensures
        deriv(Expr::Mul(s), x) is Add,
        deriv(Expr::Mul(s), x)->Add_0.len() == s.len(),
        forall|i: int|
            0 <= i < s.len() ==> #[trigger] deriv(Expr::Mul(s), x)->Add_0[i] == Expr::Mul(
                s.update(i, deriv(s[i], x)),
            ),
{
    lemma_deriv_terms_index(s, s.len(), x);
}

/// The power rule, for every base `a` and exponent `b`: the derivative of
/// `a^b` is the product of `a^b` itself and the sum of two terms, `b' * ln a`
/// (the factors of `b'`, then `ln a`) and `a' * b / a` (the factors of `a'`,
/// then those of `b`, then the reciprocals of the factors of `a`).
pub proof fn lemma_power_rule(a: Expr, b: Expr, x: usize)
    ensures
        ({
            let d = deriv(crate::expr::pow(a, b), x);
            &&& d is Mul
            &&& d->Mul_0.len() == 2
            &&& d->Mul_0[0] == crate::expr::pow(a, b)
            &&& d->Mul_0[1] == Expr::Add(
                seq![
                    Expr::Mul(crate::expr::factors(deriv(b, x)).push(Expr::Ln(Box::new(a)))),
                    Expr::Mul(
                        crate::expr::factors(deriv(a, x)) + crate::expr::factors(b) + crate::expr::inverted(
                            crate::expr::factors(a),
                            true,
                        ),
                    ),
                ],
            )
        }),
{
    let da = deriv(a, x);
    let db = deriv(b, x);
    let t1 = crate::expr::product(db, Expr::Ln(Box::new(a)), false);
    assert(crate::expr::factors(db) + crate::expr::inverted(crate::expr::factors(Expr::Ln(Box::new(a))), false)
        =~= crate::expr::factors(db).push(Expr::Ln(Box::new(a))));
    let t2a = crate::expr::product(da, b, false);
    assert(crate::expr::factors(t2a) =~= crate::expr::factors(da) + crate::expr::factors(b));
    let scalar = crate::expr::sum(t1, crate::expr::product(t2a, a, true), false);
    assert(crate::expr::factors(scalar) =~= seq![scalar]);
    assert(crate::expr::factors(crate::expr::pow(a, b)) =~= seq![crate::expr::pow(a, b)]);
    assert(crate::expr::inverted(seq![scalar], false) =~= seq![scalar]);
    assert(seq![crate::expr::pow(a, b)] + seq![scalar] =~= seq![crate::expr::pow(a, b), scalar]);
}

proof fn lemma_deriv_all_index(s: Seq<Expr>, k: nat, x: usize)
    requires
        k <= s.len(),
    ensures
        deriv_all(s, k, x).len() == k,
        forall|i: int| 0 <= i < k ==> #[trigger] deriv_all(s, k, x)[i] == deriv(s[i], x),
    decreases k,
{
    if k > 0 {
        lemma_deriv_all_index(s, (k - 1) as nat, x);
    }
}

/// The sum rule: the derivative of a sum is the sum of the members'
/// derivatives, member by member.
pub proof fn lemma_sum_rule(s: Seq<Expr>, x: usize)
    ensures
        deriv(Expr::Add(s), x) is Add,
        deriv(Expr::Add(s), x)->Add_0.len() == s.len(),
        forall|i: int| 0 <= i < s.len() ==> #[trigger] deriv(Expr::Add(s), x)->Add_0[i] == deriv(s[i], x),
{
    lemma_deriv_all_index(s, s.len(), x);
}

/// The derivative of a logarithm `ln v` is `v'` divided by `ln v`: the factors
/// of `v'` followed by the reciprocal of `ln v`.
pub proof fn lemma_log_rule(v: Expr, x: usize)
    ensures
        deriv(Expr::Ln(Box::new(v)), x) == Expr::Mul(
            crate::expr::factors(deriv(v, x)).push(crate::expr::recip(Expr::Ln(Box::new(v)))),
        ),
{
    let l = Expr::Ln(Box::new(v));
    assert(crate::expr::inverted(crate::expr::factors(l), true) =~= seq![crate::expr::recip(l)]);
    assert(crate::expr::factors(deriv(v, x)) + seq![crate::expr::recip(l)] =~= crate::expr::factors(deriv(v, x)).push(
        crate::expr::recip(l),
    ));
}

/// The derivative of `-v` is `-(v')`.
pub proof fn lemma_negation_rule(v: Expr, x: usize)
    ensures
        deriv(Expr::Neg(Box::new(v)), x) == crate::expr::neg(deriv(v, x)),
{
}

} // verus!
